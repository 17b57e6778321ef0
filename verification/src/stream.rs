//! Leaders and trailers of the USB3 Vision stream protocol.
//!
//! Every payload transfer is framed by a leader, which says what the payload
//! carries, and a trailer, which says how it ended. Both begin with a generic
//! part followed by a part specific to the payload type.

use vstd::prelude::*;
use crate::bytes::{le_bytes, le_u16, le_u32, le_u64, read_u16_le, read_u32_le, read_u64_le};
use crate::payload::{PayloadType, PixelFormat};
use crate::u3v::U3vError;

verus! {

pub const LEADER_MAGIC: u32 = 0x4C56_3355;
pub const TRAILER_MAGIC: u32 = 0x5456_3355;
/// Size of the generic part of a leader.
pub const GENERIC_LEADER_SIZE: usize = 20;
/// Size of the generic part of a trailer.
pub const GENERIC_TRAILER_SIZE: usize = 28;

/// The payload type encoded by `v`.
pub open spec fn payload_type_of(v: int) -> Option<PayloadType> {
    if v == 0x0001 {
        Some(PayloadType::Image)
    } else if v == 0x4001 {
        Some(PayloadType::ImageExtendedChunk)
    } else if v == 0x4000 {
        Some(PayloadType::Chunk)
    } else {
        None
    }
}

/// How a payload transfer ended.
#[derive(Debug, Clone, Copy, PartialEq, Eq, Structural)]
pub enum PayloadStatus {
    Success,
    DataDiscarded,
    DataOverrun,
}

/// The status encoded by `v`.
pub open spec fn payload_status_of(v: int) -> Option<PayloadStatus> {
    if v == 0x0000 {
        Some(PayloadStatus::Success)
    } else if v == 0xA100 {
        Some(PayloadStatus::DataDiscarded)
    } else if v == 0xA101 {
        Some(PayloadStatus::DataOverrun)
    } else {
        None
    }
}

/// The leader of a payload transfer.
#[derive(Debug, Clone, Copy)]
pub struct Leader<'a> {
    pub leader_size: u16,
    pub block_id: u64,
    pub payload_type: PayloadType,
    /// The bytes after the generic part.
    pub raw_specific_leader: &'a [u8],
}

/// The trailer of a payload transfer.
#[derive(Debug, Clone, Copy)]
pub struct Trailer<'a> {
    pub trailer_size: u16,
    pub block_id: u64,
    pub payload_status: PayloadStatus,
    pub valid_payload_size: u64,
    /// The bytes after the generic part.
    pub raw_specific_trailer: &'a [u8],
}

/// Whether `s` starts with a leader: the magic and a known payload type.
pub open spec fn leader_ok(s: Seq<u8>) -> bool {
    &&& s.len() >= GENERIC_LEADER_SIZE
    &&& le_u32(s, 0) == LEADER_MAGIC
    &&& payload_type_of(le_u16(s, 18)) is Some
}

/// Whether `s` starts with a trailer: the magic and a known status.
pub open spec fn trailer_ok(s: Seq<u8>) -> bool {
    &&& s.len() >= GENERIC_TRAILER_SIZE
    &&& le_u32(s, 0) == TRAILER_MAGIC
    &&& payload_status_of(le_u16(s, 16)) is Some
}

fn payload_type_from_u16(v: u16) -> (r: Option<PayloadType>)
    ensures
        r == payload_type_of(v as int),
{
    if v == 0x0001 {
        Some(PayloadType::Image)
    } else if v == 0x4001 {
        Some(PayloadType::ImageExtendedChunk)
    } else if v == 0x4000 {
        Some(PayloadType::Chunk)
    } else {
        None
    }
}

fn payload_status_from_u16(v: u16) -> (r: Option<PayloadStatus>)
    ensures
        r == payload_status_of(v as int),
{
    if v == 0x0000 {
        Some(PayloadStatus::Success)
    } else if v == 0xA100 {
        Some(PayloadStatus::DataDiscarded)
    } else if v == 0xA101 {
        Some(PayloadStatus::DataOverrun)
    } else {
        None
    }
}

impl<'a> Leader<'a> {
    /// Parses the leader at the start of `buf`: magic (4 bytes), reserved
    /// (2), leader size (2), block id (8), reserved (2), payload type (2),
    /// little endian.
    pub fn parse(buf: &'a [u8]) -> (r: Result<Leader<'a>, U3vError>)
        ensures
            leader_ok(buf@) ==> (r matches Ok(l) && l.leader_size == le_u16(buf@, 6) && l.block_id
                == le_u64(buf@, 8) && Some(l.payload_type) == payload_type_of(le_u16(buf@, 18))
                && l.raw_specific_leader@ == buf@.subrange(GENERIC_LEADER_SIZE as int, buf@.len() as int)),
            !leader_ok(buf@) ==> r matches Err(U3vError::InvalidPacket(_)),
    {
        if buf.len() < GENERIC_LEADER_SIZE {
            return Err(U3vError::InvalidPacket("leader is too short".to_string()));
        }
        let magic = read_u32_le(buf, 0);
        if magic != LEADER_MAGIC {
            return Err(U3vError::InvalidPacket("invalid prefix magic".to_string()));
        }
        let leader_size = read_u16_le(buf, 6);
        let block_id = read_u64_le(buf, 8);
        let payload_type = match payload_type_from_u16(read_u16_le(buf, 18)) {
            Some(t) => t,
            None => {
                return Err(U3vError::InvalidPacket("unknown payload type".to_string()));
            },
        };
        Ok(
            Leader {
                leader_size,
                block_id,
                payload_type,
                raw_specific_leader: &buf[GENERIC_LEADER_SIZE..buf.len()],
            },
        )
    }
}

impl<'a> Trailer<'a> {
    /// Parses the trailer at the start of `buf`: magic (4 bytes), reserved
    /// (2), trailer size (2), block id (8), status (2), reserved (2), valid
    /// payload size (8), little endian.
    pub fn parse(buf: &'a [u8]) -> (r: Result<Trailer<'a>, U3vError>)
        ensures
            trailer_ok(buf@) ==> (r matches Ok(t) && t.trailer_size == le_u16(buf@, 6) && t.block_id
                == le_u64(buf@, 8) && Some(t.payload_status) == payload_status_of(le_u16(buf@, 16))
                && t.valid_payload_size == le_u64(buf@, 20)
                && t.raw_specific_trailer@ == buf@.subrange(GENERIC_TRAILER_SIZE as int, buf@.len() as int)),
            !trailer_ok(buf@) ==> r matches Err(U3vError::InvalidPacket(_)),
    {
        if buf.len() < GENERIC_TRAILER_SIZE {
            return Err(U3vError::InvalidPacket("trailer is too short".to_string()));
        }
        let magic = read_u32_le(buf, 0);
        if magic != TRAILER_MAGIC {
            return Err(U3vError::InvalidPacket("invalid prefix magic".to_string()));
        }
        let trailer_size = read_u16_le(buf, 6);
        let block_id = read_u64_le(buf, 8);
        let payload_status = match payload_status_from_u16(read_u16_le(buf, 16)) {
            Some(s) => s,
            None => {
                return Err(U3vError::InvalidPacket("unknown payload status".to_string()));
            },
        };
        let valid_payload_size = read_u64_le(buf, 20);
        Ok(
            Trailer {
                trailer_size,
                block_id,
                payload_status,
                valid_payload_size,
                raw_specific_trailer: &buf[GENERIC_TRAILER_SIZE..buf.len()],
            },
        )
    }
}


/// The part of a leader specific to a payload type.
pub trait SpecificLeader: Sized {
    /// What the specific part `raw` decodes to, if anything.
    spec fn spec_parse(raw: Seq<u8>) -> Option<Self>;

    fn parse(raw: &[u8]) -> (r: Result<Self, U3vError>)
        ensures
            Self::spec_parse(raw@) matches Some(v) ==> r == Ok::<Self, U3vError>(v),
            Self::spec_parse(raw@) is None ==> r matches Err(U3vError::InvalidPacket(_)),
    ;
}

/// The part of a trailer specific to a payload type.
pub trait SpecificTrailer: Sized {
    /// What the specific part `raw` decodes to, if anything.
    spec fn spec_parse(raw: Seq<u8>) -> Option<Self>;

    fn parse(raw: &[u8]) -> (r: Result<Self, U3vError>)
        ensures
            Self::spec_parse(raw@) matches Some(v) ==> r == Ok::<Self, U3vError>(v),
            Self::spec_parse(raw@) is None ==> r matches Err(U3vError::InvalidPacket(_)),
    ;
}

/// Leader of an image payload: timestamp (8 bytes), pixel format (4), width
/// (4), height (4), x offset (4), y offset (4), x padding (2), reserved (2).
#[derive(Debug, Clone, Copy, PartialEq, Eq, Structural)]
pub struct ImageLeader {
    pub timestamp: u64,
    pub pixel_format: PixelFormat,
    pub width: u32,
    pub height: u32,
    pub x_offset: u32,
    pub y_offset: u32,
    pub x_padding: u16,
}

/// Leader of an image extended chunk payload; laid out as [`ImageLeader`].
#[derive(Debug, Clone, Copy, PartialEq, Eq, Structural)]
pub struct ImageExtendedChunkLeader {
    pub timestamp: u64,
    pub pixel_format: PixelFormat,
    pub width: u32,
    pub height: u32,
    pub x_offset: u32,
    pub y_offset: u32,
    pub x_padding: u16,
}

/// Leader of a chunk payload: timestamp (8 bytes).
#[derive(Debug, Clone, Copy, PartialEq, Eq, Structural)]
pub struct ChunkLeader {
    pub timestamp: u64,
}

/// Trailer of an image payload: actual height (4 bytes).
#[derive(Debug, Clone, Copy, PartialEq, Eq, Structural)]
pub struct ImageTrailer {
    pub actual_height: u32,
}

/// Trailer of an image extended chunk payload: actual height (4 bytes),
/// chunk layout id (4).
#[derive(Debug, Clone, Copy, PartialEq, Eq, Structural)]
pub struct ImageExtendedChunkTrailer {
    pub actual_height: u32,
    pub chunk_layout_id: u32,
}

/// Trailer of a chunk payload: chunk layout id (4 bytes).
#[derive(Debug, Clone, Copy, PartialEq, Eq, Structural)]
pub struct ChunkTrailer {
    pub chunk_layout_id: u32,
}

pub const IMAGE_LEADER_SIZE: usize = 32;

impl SpecificLeader for ImageLeader {
    open spec fn spec_parse(raw: Seq<u8>) -> Option<Self> {
        if raw.len() < IMAGE_LEADER_SIZE {
            None
        } else {
            Some(ImageLeader {
                timestamp: le_u64(raw, 0) as u64,
                pixel_format: PixelFormat { code: le_u32(raw, 8) as u32 },
                width: le_u32(raw, 12) as u32,
                height: le_u32(raw, 16) as u32,
                x_offset: le_u32(raw, 20) as u32,
                y_offset: le_u32(raw, 24) as u32,
                x_padding: le_u16(raw, 28) as u16,
            })
        }
    }

    fn parse(raw: &[u8]) -> (r: Result<Self, U3vError>) {
        if raw.len() < IMAGE_LEADER_SIZE {
            return Err(U3vError::InvalidPacket("image leader is too short".to_string()));
        }
        Ok(
            ImageLeader {
                timestamp: read_u64_le(raw, 0),
                pixel_format: PixelFormat { code: read_u32_le(raw, 8) },
                width: read_u32_le(raw, 12),
                height: read_u32_le(raw, 16),
                x_offset: read_u32_le(raw, 20),
                y_offset: read_u32_le(raw, 24),
                x_padding: read_u16_le(raw, 28),
            },
        )
    }
}

/// Each field of an image leader is the little-endian value of its bytes:
/// the timestamp all 8 bytes from 0, the pixel format, width, height and
/// offsets 4 bytes each from 8, 12, 16, 20 and 24, the padding 2 bytes
/// from 28; the same holds of an image extended chunk leader, and a chunk
/// leader's timestamp is its first 8 bytes.
pub proof fn lemma_leader_fields_are_little_endian(raw: Seq<u8>)
    ensures
        raw.len() >= 32 ==> (ImageLeader::spec_parse(raw) matches Some(l) && l.timestamp == le_bytes(raw, 0, 8)
            && l.pixel_format.code == le_bytes(raw, 8, 4) && l.width == le_bytes(raw, 12, 4) && l.height
            == le_bytes(raw, 16, 4) && l.x_offset == le_bytes(raw, 20, 4) && l.y_offset == le_bytes(raw, 24, 4)
            && l.x_padding == le_bytes(raw, 28, 2)),
        raw.len() >= 32 ==> (ImageExtendedChunkLeader::spec_parse(raw) matches Some(l) && l.timestamp
            == le_bytes(raw, 0, 8) && l.pixel_format.code == le_bytes(raw, 8, 4) && l.width == le_bytes(raw, 12, 4)
            && l.height == le_bytes(raw, 16, 4) && l.x_offset == le_bytes(raw, 20, 4) && l.y_offset
            == le_bytes(raw, 24, 4) && l.x_padding == le_bytes(raw, 28, 2)),
        raw.len() >= 8 ==> (ChunkLeader::spec_parse(raw) matches Some(l) && l.timestamp == le_bytes(raw, 0, 8)),
        raw.len() < 32 ==> ImageLeader::spec_parse(raw) is None && ImageExtendedChunkLeader::spec_parse(raw) is None,
{
    reveal_with_fuel(le_bytes, 9);
    if raw.len() >= 8 {
        let b = |i: int| raw[i] as int;
        assert(0 <= b(0) < 256 && 0 <= b(1) < 256 && 0 <= b(2) < 256 && 0 <= b(3) < 256);
        assert(0 <= b(4) < 256 && 0 <= b(5) < 256 && 0 <= b(6) < 256 && 0 <= b(7) < 256);
        assert(le_bytes(raw, 0, 8) == le_u64(raw, 0));
    }
    if raw.len() >= 32 {
        assert(le_bytes(raw, 8, 4) == le_u32(raw, 8));
        assert(le_bytes(raw, 12, 4) == le_u32(raw, 12));
        assert(le_bytes(raw, 16, 4) == le_u32(raw, 16));
        assert(le_bytes(raw, 20, 4) == le_u32(raw, 20));
        assert(le_bytes(raw, 24, 4) == le_u32(raw, 24));
        assert(le_bytes(raw, 28, 2) == le_u16(raw, 28));
    }
}

impl SpecificLeader for ImageExtendedChunkLeader {
    open spec fn spec_parse(raw: Seq<u8>) -> Option<Self> {
        if raw.len() < IMAGE_LEADER_SIZE {
            None
        } else {
            Some(ImageExtendedChunkLeader {
                timestamp: le_u64(raw, 0) as u64,
                pixel_format: PixelFormat { code: le_u32(raw, 8) as u32 },
                width: le_u32(raw, 12) as u32,
                height: le_u32(raw, 16) as u32,
                x_offset: le_u32(raw, 20) as u32,
                y_offset: le_u32(raw, 24) as u32,
                x_padding: le_u16(raw, 28) as u16,
            })
        }
    }

    fn parse(raw: &[u8]) -> (r: Result<Self, U3vError>) {
        if raw.len() < IMAGE_LEADER_SIZE {
            return Err(
                U3vError::InvalidPacket("image extended chunk leader is too short".to_string()),
            );
        }
        Ok(
            ImageExtendedChunkLeader {
                timestamp: read_u64_le(raw, 0),
                pixel_format: PixelFormat { code: read_u32_le(raw, 8) },
                width: read_u32_le(raw, 12),
                height: read_u32_le(raw, 16),
                x_offset: read_u32_le(raw, 20),
                y_offset: read_u32_le(raw, 24),
                x_padding: read_u16_le(raw, 28),
            },
        )
    }
}

impl SpecificLeader for ChunkLeader {
    open spec fn spec_parse(raw: Seq<u8>) -> Option<Self> {
        if raw.len() < 8 {
            None
        } else {
            Some(ChunkLeader { timestamp: le_u64(raw, 0) as u64 })
        }
    }

    fn parse(raw: &[u8]) -> (r: Result<Self, U3vError>) {
        if raw.len() < 8 {
            return Err(U3vError::InvalidPacket("chunk leader is too short".to_string()));
        }
        Ok(ChunkLeader { timestamp: read_u64_le(raw, 0) })
    }
}

impl SpecificTrailer for ImageTrailer {
    open spec fn spec_parse(raw: Seq<u8>) -> Option<Self> {
        if raw.len() < 4 {
            None
        } else {
            Some(ImageTrailer { actual_height: le_u32(raw, 0) as u32 })
        }
    }

    fn parse(raw: &[u8]) -> (r: Result<Self, U3vError>) {
        if raw.len() < 4 {
            return Err(U3vError::InvalidPacket("image trailer is too short".to_string()));
        }
        Ok(ImageTrailer { actual_height: read_u32_le(raw, 0) })
    }
}

impl SpecificTrailer for ImageExtendedChunkTrailer {
    open spec fn spec_parse(raw: Seq<u8>) -> Option<Self> {
        if raw.len() < 8 {
            None
        } else {
            Some(ImageExtendedChunkTrailer {
                actual_height: le_u32(raw, 0) as u32,
                chunk_layout_id: le_u32(raw, 4) as u32,
            })
        }
    }

    fn parse(raw: &[u8]) -> (r: Result<Self, U3vError>) {
        if raw.len() < 8 {
            return Err(
                U3vError::InvalidPacket("image extended chunk trailer is too short".to_string()),
            );
        }
        Ok(
            ImageExtendedChunkTrailer {
                actual_height: read_u32_le(raw, 0),
                chunk_layout_id: read_u32_le(raw, 4),
            },
        )
    }
}

impl SpecificTrailer for ChunkTrailer {
    open spec fn spec_parse(raw: Seq<u8>) -> Option<Self> {
        if raw.len() < 4 {
            None
        } else {
            Some(ChunkTrailer { chunk_layout_id: le_u32(raw, 0) as u32 })
        }
    }

    fn parse(raw: &[u8]) -> (r: Result<Self, U3vError>) {
        if raw.len() < 4 {
            return Err(U3vError::InvalidPacket("chunk trailer is too short".to_string()));
        }
        Ok(ChunkTrailer { chunk_layout_id: read_u32_le(raw, 0) })
    }
}

} // verus!
