//! Streaming logic for USB3 Vision devices: the stream parameters, the bulk
//! transfers a payload takes, the assembly of the payload bytes from the
//! transfers, and the building of a [`Payload`] from leader, payload bytes
//! and trailer.
//!
//! The transfers themselves are run by the host side; it asks
//! [`StreamParams::transfer_requests`] what to submit, feeds each completed
//! payload transfer to a [`PayloadAssembler`] and ends with
//! [`PayloadAssembler::finish`].

use vstd::prelude::*;
use vstd::string::StringExecFns;
use std::time::Duration;
use crate::bytes::{be_u32, le_u32, le_u64, read_u32_be, read_u32_le, read_u64_le};
use crate::errors::{ControlError, StreamError};
use crate::camera::{ControlCall, DeviceControl, extends};
use crate::payload::{ImageInfo, Payload, PayloadType, PayloadView};
use crate::stream::{
    ChunkLeader, ChunkTrailer, ImageExtendedChunkLeader, ImageExtendedChunkTrailer, ImageLeader,
    ImageTrailer, Leader, PayloadStatus, SpecificLeader, SpecificTrailer, Trailer,
};
use crate::u3v::U3vError;

verus! {

pub const CHUNK_ID_LEN: usize = 4;
pub const CHUNK_SIZE_LEN: usize = 4;

/// Parameters to receive stream packets.
///
/// The integrity of the parameters is not checked: that is up to the user.
#[derive(Debug, Clone, Copy)]
pub struct StreamParams {
    /// Maximum leader size.
    pub leader_size: usize,
    /// Maximum trailer size.
    pub trailer_size: usize,
    /// Payload transfer size.
    pub payload_size: usize,
    /// Payload transfer count.
    pub payload_count: usize,
    /// Payload transfer final1 size.
    pub payload_final1_size: usize,
    /// Payload transfer final2 size.
    pub payload_final2_size: usize,
    /// Timeout duration of each transaction with the device.
    pub timeout: Duration,
}

/// Upper bound of the payload size under the parameters.
pub open spec fn max_payload(p: StreamParams) -> int {
    p.payload_size * p.payload_count + p.payload_final1_size + p.payload_final2_size
}

impl StreamParams {
    /// Constructs `StreamParams`.
    pub fn new(
        leader_size: usize,
        trailer_size: usize,
        payload_size: usize,
        payload_count: usize,
        payload_final1_size: usize,
        payload_final2_size: usize,
        timeout: Duration,
    ) -> (r: StreamParams)
        ensures
            r.leader_size == leader_size,
            r.trailer_size == trailer_size,
            r.payload_size == payload_size,
            r.payload_count == payload_count,
            r.payload_final1_size == payload_final1_size,
            r.payload_final2_size == payload_final2_size,
            r.timeout == timeout,
    {
        StreamParams {
            leader_size,
            trailer_size,
            payload_size,
            payload_count,
            payload_final1_size,
            payload_final2_size,
            timeout,
        }
    }

    /// Returns the upper bound of the payload size under the parameters.
    ///
    /// The payload size may change with the settings of the camera.
    pub fn maximum_payload_size(&self) -> (r: usize)
        requires
            max_payload(*self) <= usize::MAX,
        ensures
            r == max_payload(*self),
    {
        proof {
            assert(0 <= self.payload_size * self.payload_count) by (nonlinear_arith);
        }
        self.payload_size * self.payload_count + self.payload_final1_size + self.payload_final2_size
    }
}


/// `len` rounded up to a multiple of the packet size `m`.
pub open spec fn spec_align_up(len: int, m: int) -> int {
    if len == 0 {
        0
    } else if len % m == 0 {
        len
    } else {
        (len / m + 1) * m
    }
}

/// `len` can be rounded up to whole packets of `m` bytes: it is 0, or the
/// packet size is not 0 and the rounded length fits in a `usize`.
pub open spec fn align_ok(len: int, m: int) -> bool {
    len == 0 || (m > 0 && (len % m == 0 || (len / m + 1) * m <= usize::MAX))
}

/// Rounds a transfer length up to a whole number of packets of
/// `max_packet_size` bytes: the smallest multiple of the packet size that is
/// not below `len`.
pub fn align_up(len: usize, max_packet_size: usize) -> (r: usize)
    requires
        align_ok(len as int, max_packet_size as int),
    ensures
        r == spec_align_up(len as int, max_packet_size as int),
        max_packet_size > 0 ==> r % max_packet_size == 0 && len <= r < len + max_packet_size,
{
    let m = max_packet_size;
    if m > 0 {
        proof {
            lemma_align_up(len as int, m as int);
        }
    }
    if len == 0 {
        0
    } else if len % m == 0 {
        len
    } else {
        ((len / m) + 1) * m
    }
}

/// The lengths of the payload transfers, in order: `payload_count`
/// transfers of `payload_size` bytes, then the first and the second final
/// transfer where their size is not 0.
pub open spec fn payload_transfer_sizes(p: StreamParams) -> Seq<usize> {
    Seq::new(p.payload_count as nat, |i: int| p.payload_size)
        + (if p.payload_final1_size != 0 { seq![p.payload_final1_size] } else { Seq::empty() })
        + (if p.payload_final2_size != 0 { seq![p.payload_final2_size] } else { Seq::empty() })
}

/// The requested lengths of all transfers of one payload, in the order they
/// are submitted: leader, payload transfers, trailer, each rounded up to
/// whole packets.
pub open spec fn transfer_requests_spec(p: StreamParams, m: usize) -> Seq<usize> {
    seq![spec_align_up(p.leader_size as int, m as int) as usize]
        + payload_transfer_sizes(p).map_values(|len: usize| spec_align_up(len as int, m as int) as usize)
        + seq![spec_align_up(p.trailer_size as int, m as int) as usize]
}

proof fn lemma_align_up(len: int, m: int)
    requires
        m > 0,
        len >= 0,
    ensures
        spec_align_up(len, m) % m == 0,
        len <= spec_align_up(len, m) < len + m,
{
    assert(len == m * (len / m) + len % m && 0 <= len % m < m) by (nonlinear_arith)
        requires
            m > 0,
    ;
    assert((len / m + 1) * m == m * (len / m) + m) by (nonlinear_arith);
    assert(((len / m + 1) * m) % m == 0) by (nonlinear_arith)
        requires
            m > 0,
    ;
}

/// Every transfer requested for a payload is a whole number of packets, no
/// shorter than the part of the payload it carries and less than a packet
/// longer: the leader first, the payload transfers in order, the trailer
/// last.
pub proof fn lemma_transfer_requests_aligned(p: StreamParams, m: usize)
    requires
        m > 0,
        p.leader_size + m <= usize::MAX,
        p.trailer_size + m <= usize::MAX,
        p.payload_size + m <= usize::MAX,
        p.payload_final1_size + m <= usize::MAX,
        p.payload_final2_size + m <= usize::MAX,
    ensures
        ({
            let r = transfer_requests_spec(p, m);
            let sizes = payload_transfer_sizes(p);
            &&& r.len() == sizes.len() + 2
            &&& forall|i: int| 0 <= i < r.len() ==> #[trigger] r[i] % m == 0
            &&& p.leader_size <= r[0] < p.leader_size + m
            &&& p.trailer_size <= r[r.len() - 1] < p.trailer_size + m
            &&& forall|i: int| 0 <= i < sizes.len() ==> sizes[i] <= #[trigger] r[i + 1] < sizes[i] + m
        }),
{
    let r = transfer_requests_spec(p, m);
    let sizes = payload_transfer_sizes(p);
    assert forall|i: int| 0 <= i < sizes.len() implies sizes[i] + m <= usize::MAX by {
        if i < p.payload_count {
            assert(sizes[i] == p.payload_size);
        } else if i == p.payload_count && p.payload_final1_size != 0 {
            assert(sizes[i] == p.payload_final1_size);
        } else {
            assert(sizes[i] == p.payload_final2_size);
        }
    }
    lemma_align_up(p.leader_size as int, m as int);
    lemma_align_up(p.trailer_size as int, m as int);
    assert forall|i: int| 0 <= i < sizes.len() implies sizes[i] <= #[trigger] r[i + 1] < sizes[i] + m
        && r[i + 1] % m == 0 by {
        lemma_align_up(sizes[i] as int, m as int);
    }
    assert forall|i: int| 0 <= i < r.len() implies #[trigger] r[i] % m == 0 by {
        if 0 < i < r.len() - 1 {
            assert(r[(i - 1) + 1] % m == 0);
        }
    }
}

/// The payload transfers of one payload, as requested from the device and
/// as the assembler takes them, come in this order: `payload_count` full
/// transfers, then the first final transfer, then the second, each final one
/// only where its size is not 0. The requests add the leader before them and
/// the trailer after them, each rounded up to whole packets.
pub proof fn lemma_payload_transfer_order(p: StreamParams, m: usize)
    ensures
        ({
            let s = payload_transfer_sizes(p);
            let r = transfer_requests_spec(p, m);
            let n = p.payload_count as int;
            let f1: int = if p.payload_final1_size != 0 { 1 } else { 0 };
            let f2: int = if p.payload_final2_size != 0 { 1 } else { 0 };
            &&& s.len() == n + f1 + f2
            &&& forall|i: int| 0 <= i < n ==> #[trigger] s[i] == p.payload_size
            &&& p.payload_final1_size != 0 ==> s[n] == p.payload_final1_size
            &&& p.payload_final2_size != 0 ==> s[n + f1] == p.payload_final2_size
            &&& r.len() == s.len() + 2
            &&& r[0] == spec_align_up(p.leader_size as int, m as int) as usize
            &&& forall|i: int| 0 <= i < n ==> #[trigger] r[i + 1] == spec_align_up(p.payload_size as int, m as int) as usize
            &&& p.payload_final1_size != 0 ==> r[n + 1] == spec_align_up(p.payload_final1_size as int, m as int) as usize
            &&& p.payload_final2_size != 0 ==> r[n + f1 + 1] == spec_align_up(
                p.payload_final2_size as int,
                m as int,
            ) as usize
            &&& r[r.len() - 1] == spec_align_up(p.trailer_size as int, m as int) as usize
        }),
{
    let s = payload_transfer_sizes(p);
    let r = transfer_requests_spec(p, m);
    let n = p.payload_count as int;
    assert forall|i: int| 0 <= i < n implies #[trigger] r[i + 1] == spec_align_up(p.payload_size as int, m as int) as usize by {
        assert(s[i] == p.payload_size);
    }
}

impl StreamParams {
    /// The lengths to request from the device for one payload.
    pub fn transfer_requests(&self, max_packet_size: usize) -> (r: Vec<usize>)
        requires
            align_ok(self.leader_size as int, max_packet_size as int),
            align_ok(self.payload_size as int, max_packet_size as int),
            align_ok(self.payload_final1_size as int, max_packet_size as int),
            align_ok(self.payload_final2_size as int, max_packet_size as int),
            align_ok(self.trailer_size as int, max_packet_size as int),
        ensures
            r@ == transfer_requests_spec(*self, max_packet_size),
    {
        let ghost sizes = payload_transfer_sizes(*self);
        let ghost aligned = sizes.map_values(
            |len: usize| spec_align_up(len as int, max_packet_size as int) as usize,
        );
        let mut reqs: Vec<usize> = Vec::new();
        reqs.push(align_up(self.leader_size, max_packet_size));
        let payload_req = align_up(self.payload_size, max_packet_size);
        let mut i: usize = 0;
        while i < self.payload_count
            invariant
                i <= self.payload_count,
                sizes == payload_transfer_sizes(*self),
                aligned == sizes.map_values(
                    |len: usize| spec_align_up(len as int, max_packet_size as int) as usize,
                ),
                payload_req == spec_align_up(self.payload_size as int, max_packet_size as int),
                reqs@ == seq![spec_align_up(self.leader_size as int, max_packet_size as int) as usize]
                    + aligned.subrange(0, i as int),
            decreases self.payload_count - i,
        {
            reqs.push(payload_req);
            proof {
                assert(aligned.subrange(0, i + 1) == aligned.subrange(0, i as int).push(payload_req));
            }
            i += 1;
        }
        let ghost mut k: int = self.payload_count as int;
        if self.payload_final1_size != 0 {
            reqs.push(align_up(self.payload_final1_size, max_packet_size));
            proof {
                assert(aligned.subrange(0, k + 1) == aligned.subrange(0, k).push(
                    spec_align_up(self.payload_final1_size as int, max_packet_size as int) as usize,
                ));
                k = k + 1;
            }
        }
        if self.payload_final2_size != 0 {
            reqs.push(align_up(self.payload_final2_size, max_packet_size));
            proof {
                assert(aligned.subrange(0, k + 1) == aligned.subrange(0, k).push(
                    spec_align_up(self.payload_final2_size as int, max_packet_size as int) as usize,
                ));
                k = k + 1;
            }
        }
        proof {
            assert(k == aligned.len());
            assert(aligned.subrange(0, k) == aligned);
        }
        reqs.push(align_up(self.trailer_size, max_packet_size));
        reqs
    }
}


/// Size of the first chunk of chunk data ending at `end` in `buf`.
///
/// Chunk data is read from the end: each chunk is its data, a 4 byte id and
/// a 4 byte big endian size. The walk goes back chunk by chunk until it
/// reaches the start of the buffer; `None` where a size field is missing or a
/// chunk is larger than what precedes it.
pub open spec fn first_chunk_size(buf: Seq<u8>, end: int) -> Option<int>
    decreases end,
{
    if end < CHUNK_SIZE_LEN {
        None
    } else {
        let size_off = end - CHUNK_SIZE_LEN;
        let data_size = be_u32(buf, size_off);
        if data_size + CHUNK_ID_LEN > size_off {
            None
        } else {
            let next = size_off - data_size - CHUNK_ID_LEN;
            if next == 0 {
                Some(data_size)
            } else {
                first_chunk_size(buf, next)
            }
        }
    }
}

/// The first chunk of chunk data, when it is found, lies before the end.
pub proof fn lemma_first_chunk_size_bounded(buf: Seq<u8>, end: int)
    ensures
        first_chunk_size(buf, end) matches Some(sz) ==> 0 <= sz <= end,
    decreases end,
{
    if end >= CHUNK_SIZE_LEN {
        let size_off = end - CHUNK_SIZE_LEN;
        let data_size = be_u32(buf, size_off);
        if data_size + CHUNK_ID_LEN <= size_off {
            let next = size_off - data_size - CHUNK_ID_LEN;
            if next != 0 {
                lemma_first_chunk_size_bounded(buf, next);
            }
        }
    }
}

/// Where the first `k` chunks of a list of chunks end, from offset 0:
/// each chunk is its data, of the size listed, a 4 byte id and a 4 byte
/// size field.
pub open spec fn chunks_end(sizes: Seq<u32>, k: int) -> int
    decreases k,
{
    if k <= 0 {
        0
    } else {
        chunks_end(sizes, k - 1) + sizes[k - 1] + 8
    }
}

/// `buf` holds, from offset 0 and one after the other, chunks whose data
/// sizes are `sizes`, in order: the size field of each chunk, after its data
/// and id, holds its data size, most significant byte first.
pub open spec fn chunk_layout(buf: Seq<u8>, sizes: Seq<u32>) -> bool {
    &&& chunks_end(sizes, sizes.len() as int) <= buf.len()
    &&& forall|k: int|
        0 <= k < sizes.len() ==> {
            let f = #[trigger] chunks_end(sizes, k) + sizes[k] + 4;
            16777216 * buf[f] + 65536 * buf[f + 1] + 256 * buf[f + 2] + buf[f + 3] == sizes[k]
        }
}

proof fn lemma_chunks_end_grows(sizes: Seq<u32>, k: int)
    requires
        0 <= k <= sizes.len(),
    ensures
        chunks_end(sizes, k) >= 8 * k,
    decreases k,
{
    if k > 0 {
        lemma_chunks_end_grows(sizes, k - 1);
    }
}

proof fn lemma_first_chunk_of_prefix(buf: Seq<u8>, sizes: Seq<u32>, n: int)
    requires
        chunk_layout(buf, sizes),
        1 <= n <= sizes.len(),
    ensures
        first_chunk_size(buf, chunks_end(sizes, n)) == Some(sizes[0] as int),
    decreases n,
{
    let k = n - 1;
    lemma_chunks_end_grows(sizes, k);
    let f = chunks_end(sizes, k) + sizes[k] + 4;
    assert(16777216 * buf[f] + 65536 * buf[f + 1] + 256 * buf[f + 2] + buf[f + 3] == sizes[k]);
    assert(be_u32(buf, f) == sizes[k]);
    assert(chunks_end(sizes, n) - CHUNK_SIZE_LEN == f);
    if k > 0 {
        lemma_first_chunk_of_prefix(buf, sizes, k);
    }
}

/// For chunk data laid out as chunks one after the other from offset 0 that
/// fill the valid bytes exactly, the first chunk found is the one at offset
/// 0, however many chunks follow it: an image extended chunk payload built
/// from such bytes has that chunk's data size as its image size.
pub proof fn lemma_image_is_first_chunk<'a>(
    leader: Leader<'a>,
    trailer: Trailer<'a>,
    buf: Seq<u8>,
    read_payload_size: usize,
    sizes: Seq<u32>,
)
    requires
        sizes.len() > 0,
        chunk_layout(buf, sizes),
    ensures
        first_chunk_size(buf, chunks_end(sizes, sizes.len() as int)) == Some(sizes[0] as int),
        leader.payload_type == PayloadType::ImageExtendedChunk && trailer.valid_payload_size == chunks_end(
            sizes,
            sizes.len() as int,
        ) ==> (build_spec(leader, trailer, buf, read_payload_size) matches Some(v) ==> (v.image_info matches Some(
            info,
        ) && info.image_size == sizes[0])),
{
    lemma_first_chunk_of_prefix(buf, sizes, sizes.len() as int);
}

/// Builds a payload from its leader, the payload bytes and its trailer.
pub struct PayloadBuilder<'a> {
    pub leader: Leader<'a>,
    pub payload_buf: Vec<u8>,
    /// Number of payload bytes read from the device.
    pub read_payload_size: usize,
    pub trailer: Trailer<'a>,
}

/// The payload that a leader, payload bytes and trailer make; `None` where
/// they are rejected: a status other than success, fewer bytes read than
/// the trailer declares valid, or a specific leader or trailer part that
/// does not decode.
pub open spec fn build_spec<'a>(
    leader: Leader<'a>,
    trailer: Trailer<'a>,
    buf: Seq<u8>,
    read_payload_size: usize,
) -> Option<PayloadView> {
    let valid = trailer.valid_payload_size;
    if trailer.payload_status != PayloadStatus::Success {
        None
    } else if valid > read_payload_size {
        None
    } else {
        match leader.payload_type {
            PayloadType::Image => match (
                ImageLeader::spec_parse(leader.raw_specific_leader@),
                ImageTrailer::spec_parse(trailer.raw_specific_trailer@),
            ) {
                (Some(l), Some(t)) => Some(PayloadView {
                    id: leader.block_id,
                    payload_type: PayloadType::Image,
                    image_info: Some(ImageInfo {
                        width: l.width as usize,
                        height: t.actual_height as usize,
                        x_offset: l.x_offset as usize,
                        y_offset: l.y_offset as usize,
                        pixel_format: l.pixel_format,
                        image_size: valid as usize,
                    }),
                    payload: buf,
                    valid_payload_size: valid as usize,
                    timestamp: l.timestamp,
                }),
                _ => None,
            },
            PayloadType::ImageExtendedChunk => match (
                ImageExtendedChunkLeader::spec_parse(leader.raw_specific_leader@),
                ImageExtendedChunkTrailer::spec_parse(trailer.raw_specific_trailer@),
            ) {
                (Some(l), Some(t)) => match first_chunk_size(buf, valid as int) {
                    Some(image_size) => Some(PayloadView {
                        id: leader.block_id,
                        payload_type: PayloadType::ImageExtendedChunk,
                        image_info: Some(ImageInfo {
                            width: l.width as usize,
                            height: t.actual_height as usize,
                            x_offset: l.x_offset as usize,
                            y_offset: l.y_offset as usize,
                            pixel_format: l.pixel_format,
                            image_size: image_size as usize,
                        }),
                        payload: buf,
                        valid_payload_size: valid as usize,
                        timestamp: l.timestamp,
                    }),
                    None => None,
                },
                _ => None,
            },
            PayloadType::Chunk => match (
                ChunkLeader::spec_parse(leader.raw_specific_leader@),
                ChunkTrailer::spec_parse(trailer.raw_specific_trailer@),
            ) {
                (Some(l), Some(_)) => Some(PayloadView {
                    id: leader.block_id,
                    payload_type: PayloadType::Chunk,
                    image_info: None,
                    payload: buf,
                    valid_payload_size: valid as usize,
                    timestamp: l.timestamp,
                }),
                _ => None,
            },
        }
    }
}

/// The text of a payload status, as its `Debug` gives it.
pub open spec fn status_name(status: PayloadStatus) -> Seq<char> {
    match status {
        PayloadStatus::Success => "Success"@,
        PayloadStatus::DataDiscarded => "DataDiscarded"@,
        PayloadStatus::DataOverrun => "DataOverrun"@,
    }
}

/// A payload built from a leader, payload bytes and a trailer carries
/// image information exactly when it is an image or an image extended chunk
/// payload, and its id is the leader's block id.
pub proof fn lemma_built_payload_image_info<'a>(
    leader: Leader<'a>,
    trailer: Trailer<'a>,
    buf: Seq<u8>,
    read_payload_size: usize,
)
    ensures
        build_spec(leader, trailer, buf, read_payload_size) matches Some(v) ==> {
            &&& (v.image_info is Some <==> (v.payload_type == PayloadType::Image || v.payload_type
                == PayloadType::ImageExtendedChunk))
            &&& v.payload_type == leader.payload_type
            &&& v.id == leader.block_id
        },
{
}

/// Message of a payload whose trailer reports a failure.
fn status_error_message(status: PayloadStatus) -> (r: String)
    ensures
        r@ == "trailer status indicates error: "@ + status_name(status),
{
    proof {
        reveal_strlit("trailer status indicates error: ");
        reveal_strlit("Success");
        reveal_strlit("DataDiscarded");
        reveal_strlit("DataOverrun");
    }
    let name = match status {
        PayloadStatus::Success => "Success",
        PayloadStatus::DataDiscarded => "DataDiscarded",
        PayloadStatus::DataOverrun => "DataOverrun",
    };
    "trailer status indicates error: ".to_string().concat(name)
}

/// The character of the decimal digit `d`.
pub open spec fn digit_char(d: nat) -> char {
    (d + 48) as char
}

/// `n` written in decimal, most significant digit first, with no leading
/// zero.
pub open spec fn decimal_text(n: nat) -> Seq<char>
    decreases n,
{
    if n < 10 {
        seq![digit_char(n)]
    } else {
        decimal_text(n / 10) + seq![digit_char(n % 10)]
    }
}

fn digit_str(d: u64) -> (r: &'static str)
    requires
        d < 10,
    ensures
        r@ == seq![digit_char(d as nat)],
{
    proof {
        reveal_strlit("0");
        reveal_strlit("1");
        reveal_strlit("2");
        reveal_strlit("3");
        reveal_strlit("4");
        reveal_strlit("5");
        reveal_strlit("6");
        reveal_strlit("7");
        reveal_strlit("8");
        reveal_strlit("9");
    }
    if d == 0 {
        "0"
    } else if d == 1 {
        "1"
    } else if d == 2 {
        "2"
    } else if d == 3 {
        "3"
    } else if d == 4 {
        "4"
    } else if d == 5 {
        "5"
    } else if d == 6 {
        "6"
    } else if d == 7 {
        "7"
    } else if d == 8 {
        "8"
    } else {
        "9"
    }
}

/// Writes `n` in decimal.
pub fn decimal(n: u64) -> (r: String)
    ensures
        r@ == decimal_text(n as nat),
    decreases n,
{
    if n < 10 {
        digit_str(n).to_string()
    } else {
        decimal(n / 10).concat(digit_str(n % 10))
    }
}

/// Message of a payload that is shorter than its trailer declares, with the
/// two sizes in decimal.
fn short_payload_message(expected: u64, got: usize) -> (r: String)
    ensures
        r@ == "the actual read payload size is smaller than the size specified in the trailer: expected "@
            + decimal_text(expected as nat) + ", but got "@ + decimal_text(got as nat),
{
    let e = decimal(expected);
    let g = decimal(got as u64);
    "the actual read payload size is smaller than the size specified in the trailer: expected ".to_string().concat(
        e.as_str(),
    ).concat(", but got ").concat(g.as_str())
}


/// Size of the image in image extended chunk data of `valid` bytes.
fn chunk_image_size(buf: &Vec<u8>, valid: usize) -> (r: Result<usize, StreamError>)
    requires
        valid <= buf@.len(),
    ensures
        first_chunk_size(buf@, valid as int) matches Some(sz) ==> r == Ok::<usize, StreamError>(
            sz as usize,
        ),
        first_chunk_size(buf@, valid as int) is None ==> r matches Err(StreamError::InvalidPayload(_)),
{
    let mut current_offset: usize = valid;
    loop
        invariant
            current_offset <= valid <= buf@.len(),
            first_chunk_size(buf@, valid as int) == first_chunk_size(buf@, current_offset as int),
        decreases current_offset,
    {
        if current_offset < CHUNK_SIZE_LEN {
            return Err(
                StreamError::InvalidPayload(
                    "failed to parse chunk data: size field missing".to_string(),
                ),
            );
        }
        current_offset = current_offset - CHUNK_SIZE_LEN;
        let data_size = read_u32_be(buf.as_slice(), current_offset);
        if (data_size as u64) + (CHUNK_ID_LEN as u64) > current_offset as u64 {
            return Err(
                StreamError::InvalidPayload(
                    "failed to parse chunk data: chunk data size is smaller than specified size".to_string(),
                ),
            );
        }
        current_offset = current_offset - (data_size as usize) - CHUNK_ID_LEN;
        if current_offset == 0 {
            return Ok(data_size as usize);
        }
    }
}

impl<'a> PayloadBuilder<'a> {
    /// Checks the trailer and builds the payload its leader describes.
    pub fn build(self) -> (r: Result<Payload, StreamError>)
        requires
            self.read_payload_size <= self.payload_buf@.len(),
        ensures
            match build_spec(self.leader, self.trailer, self.payload_buf@, self.read_payload_size) {
                Some(v) => r matches Ok(p) && p@ == v,
                None => r matches Err(StreamError::InvalidPayload(_)),
            },
            self.trailer.payload_status != PayloadStatus::Success ==> (r matches Err(StreamError::InvalidPayload(m))
                && m@ == "trailer status indicates error: "@ + status_name(self.trailer.payload_status)),
            self.trailer.payload_status == PayloadStatus::Success && self.trailer.valid_payload_size
                > self.read_payload_size ==> (r matches Err(StreamError::InvalidPayload(m)) && m@
                == "the actual read payload size is smaller than the size specified in the trailer: expected "@
                + decimal_text(self.trailer.valid_payload_size as nat) + ", but got "@ + decimal_text(
                self.read_payload_size as nat,
            )),
    {
        let payload_status = self.trailer.payload_status;
        if payload_status != PayloadStatus::Success {
            return Err(StreamError::InvalidPayload(status_error_message(payload_status)));
        }
        if self.trailer.valid_payload_size > self.read_payload_size as u64 {
            let err_msg = short_payload_message(
                self.trailer.valid_payload_size,
                self.read_payload_size,
            );
            return Err(StreamError::InvalidPayload(err_msg));
        }
        match self.leader.payload_type {
            PayloadType::Image => self.build_image_payload(),
            PayloadType::ImageExtendedChunk => self.build_image_extended_payload(),
            PayloadType::Chunk => self.build_chunk_payload(),
        }
    }

    /// Builds an image payload.
    pub fn build_image_payload(self) -> (r: Result<Payload, StreamError>)
        requires
            self.trailer.payload_status == PayloadStatus::Success,
            self.trailer.valid_payload_size <= self.read_payload_size <= self.payload_buf@.len(),
            self.leader.payload_type == PayloadType::Image,
        ensures
            match build_spec(self.leader, self.trailer, self.payload_buf@, self.read_payload_size) {
                Some(v) => r matches Ok(p) && p@ == v,
                None => r matches Err(StreamError::InvalidPayload(_)),
            },
    {
        let leader: ImageLeader = self.specific_leader_as()?;
        let trailer: ImageTrailer = self.specific_trailer_as()?;
        let id = self.leader.block_id;
        let valid_payload_size = self.trailer.valid_payload_size as usize;
        let image_info = Some(
            ImageInfo {
                width: leader.width as usize,
                height: trailer.actual_height as usize,
                x_offset: leader.x_offset as usize,
                y_offset: leader.y_offset as usize,
                pixel_format: leader.pixel_format,
                image_size: valid_payload_size,
            },
        );
        Ok(
            Payload::from_parts(
                id,
                PayloadType::Image,
                image_info,
                self.payload_buf,
                valid_payload_size,
                leader.timestamp,
            ),
        )
    }

    /// Builds an image extended chunk payload: the image is the first chunk
    /// of the chunk data.
    pub fn build_image_extended_payload(self) -> (r: Result<Payload, StreamError>)
        requires
            self.trailer.payload_status == PayloadStatus::Success,
            self.trailer.valid_payload_size <= self.read_payload_size <= self.payload_buf@.len(),
            self.leader.payload_type == PayloadType::ImageExtendedChunk,
        ensures
            match build_spec(self.leader, self.trailer, self.payload_buf@, self.read_payload_size) {
                Some(v) => r matches Ok(p) && p@ == v,
                None => r matches Err(StreamError::InvalidPayload(_)),
            },
    {
        let leader: ImageExtendedChunkLeader = self.specific_leader_as()?;
        let trailer: ImageExtendedChunkTrailer = self.specific_trailer_as()?;
        let id = self.leader.block_id;
        let valid_payload_size = self.trailer.valid_payload_size as usize;
        let image_size = chunk_image_size(&self.payload_buf, valid_payload_size)?;
        proof {
            lemma_first_chunk_size_bounded(self.payload_buf@, valid_payload_size as int);
        }
        let image_info = Some(
            ImageInfo {
                width: leader.width as usize,
                height: trailer.actual_height as usize,
                x_offset: leader.x_offset as usize,
                y_offset: leader.y_offset as usize,
                pixel_format: leader.pixel_format,
                image_size,
            },
        );
        Ok(
            Payload::from_parts(
                id,
                PayloadType::ImageExtendedChunk,
                image_info,
                self.payload_buf,
                valid_payload_size,
                leader.timestamp,
            ),
        )
    }

    /// Builds a chunk payload.
    pub fn build_chunk_payload(self) -> (r: Result<Payload, StreamError>)
        requires
            self.trailer.payload_status == PayloadStatus::Success,
            self.trailer.valid_payload_size <= self.read_payload_size <= self.payload_buf@.len(),
            self.leader.payload_type == PayloadType::Chunk,
        ensures
            match build_spec(self.leader, self.trailer, self.payload_buf@, self.read_payload_size) {
                Some(v) => r matches Ok(p) && p@ == v,
                None => r matches Err(StreamError::InvalidPayload(_)),
            },
    {
        let leader: ChunkLeader = self.specific_leader_as()?;
        let _trailer: ChunkTrailer = self.specific_trailer_as()?;
        let id = self.leader.block_id;
        let valid_payload_size = self.trailer.valid_payload_size as usize;
        Ok(
            Payload::from_parts(
                id,
                PayloadType::Chunk,
                None,
                self.payload_buf,
                valid_payload_size,
                leader.timestamp,
            ),
        )
    }

    /// Decodes the part of the leader specific to the payload type.
    pub fn specific_leader_as<T: SpecificLeader>(&self) -> (r: Result<T, StreamError>)
        ensures
            T::spec_parse(self.leader.raw_specific_leader@) matches Some(v) ==> r == Ok::<T, StreamError>(v),
            T::spec_parse(self.leader.raw_specific_leader@) is None ==> r matches Err(StreamError::InvalidPayload(_)),
    {
        match T::parse(self.leader.raw_specific_leader) {
            Ok(v) => Ok(v),
            Err(e) => Err(StreamError::InvalidPayload(e.message())),
        }
    }

    /// Decodes the part of the trailer specific to the payload type.
    pub fn specific_trailer_as<T: SpecificTrailer>(&self) -> (r: Result<T, StreamError>)
        ensures
            T::spec_parse(self.trailer.raw_specific_trailer@) matches Some(v) ==> r == Ok::<T, StreamError>(v),
            T::spec_parse(self.trailer.raw_specific_trailer@) is None ==> r matches Err(StreamError::InvalidPayload(_)),
    {
        match T::parse(self.trailer.raw_specific_trailer) {
            Ok(v) => Ok(v),
            Err(e) => Err(StreamError::InvalidPayload(e.message())),
        }
    }
}


/// What a payload assembler holds, for contracts.
pub ghost struct AssemblerView {
    /// Lengths of the payload transfers still to come and already received.
    pub sizes: Seq<usize>,
    /// The payload buffer.
    pub buffer: Seq<u8>,
    /// The payload buffer before the first transfer.
    pub initial: Seq<u8>,
    /// The bytes taken from each transfer received so far.
    pub copied: Seq<Seq<u8>>,
    /// Number of bytes written so far.
    pub cursor: nat,
}

/// The assembler's buffer holds the bytes taken from the transfers in order,
/// then the rest of the initial buffer; no transfer gave more than its
/// length, and no more transfers were taken than the parameters ask for.
pub open spec fn assembled(v: AssemblerView) -> bool {
    &&& v.copied.len() <= v.sizes.len()
    &&& v.cursor == v.copied.flatten().len()
    &&& v.cursor <= v.buffer.len()
    &&& v.buffer.len() == v.initial.len()
    &&& v.buffer == v.copied.flatten() + v.initial.subrange(v.cursor as int, v.initial.len() as int)
    &&& forall|i: int| 0 <= i < v.copied.len() ==> #[trigger] v.copied[i].len() <= v.sizes[i]
}

/// Sum of transfer lengths.
pub open spec fn total_len(s: Seq<usize>) -> int
    decreases s.len(),
{
    if s.len() == 0 {
        0
    } else {
        total_len(s.drop_last()) + s.last()
    }
}

proof fn lemma_total_len_append(a: Seq<usize>, b: Seq<usize>)
    ensures
        total_len(a + b) == total_len(a) + total_len(b),
    decreases b.len(),
{
    if b.len() > 0 {
        assert((a + b).drop_last() =~= a + b.drop_last());
        lemma_total_len_append(a, b.drop_last());
    } else {
        assert(a + b =~= a);
    }
}

proof fn lemma_total_len_repeat(n: nat, x: usize)
    ensures
        total_len(Seq::new(n, |i: int| x)) == n * x,
    decreases n,
{
    let s = Seq::new(n, |i: int| x);
    if n > 0 {
        let t = Seq::new((n - 1) as nat, |i: int| x);
        assert(s.drop_last() =~= t);
        assert(s.last() == x);
        lemma_total_len_repeat((n - 1) as nat, x);
        assert(total_len(s) == total_len(t) + x);
        assert((n - 1) * x + x == n * x) by (nonlinear_arith);
    } else {
        assert(n * x == 0) by (nonlinear_arith)
            requires
                n == 0,
        ;
    }
}

proof fn lemma_total_len_prefix(s: Seq<usize>, k: int)
    requires
        0 <= k <= s.len(),
    ensures
        total_len(s.take(k)) <= total_len(s),
    decreases s.len() - k,
{
    if k < s.len() {
        lemma_total_len_prefix(s, k + 1);
        assert(s.take(k + 1).drop_last() =~= s.take(k));
    } else {
        assert(s.take(k) =~= s);
    }
}

proof fn lemma_flatten_within_sizes(copied: Seq<Seq<u8>>, sizes: Seq<usize>)
    requires
        copied.len() <= sizes.len(),
        forall|i: int| 0 <= i < copied.len() ==> #[trigger] copied[i].len() <= sizes[i],
    ensures
        copied.flatten().len() <= total_len(sizes.take(copied.len() as int)),
    decreases copied.len(),
{
    if copied.len() == 0 {
        assert(copied.flatten() =~= Seq::<u8>::empty());
    } else {
        let k = copied.len() - 1;
        let init = copied.drop_last();
        assert forall|i: int| 0 <= i < init.len() implies #[trigger] init[i].len() <= sizes[i] by {
            assert(init[i] == copied[i]);
        }
        lemma_flatten_within_sizes(init, sizes);
        init.lemma_flatten_push(copied[k]);
        assert(init.push(copied[k]) =~= copied);
        assert(sizes.take(k + 1).drop_last() =~= sizes.take(k));
        assert(sizes.take(k + 1).last() == sizes[k]);
    }
}

/// The payload lengths of one payload add up to the maximum payload size.
pub proof fn lemma_transfer_sizes_sum_to_maximum(p: StreamParams)
    ensures
        total_len(payload_transfer_sizes(p)) == max_payload(p),
{
    let full = Seq::new(p.payload_count as nat, |i: int| p.payload_size);
    let f1: Seq<usize> = if p.payload_final1_size != 0 { seq![p.payload_final1_size] } else { Seq::empty() };
    let f2: Seq<usize> = if p.payload_final2_size != 0 { seq![p.payload_final2_size] } else { Seq::empty() };
    lemma_total_len_repeat(p.payload_count as nat, p.payload_size);
    lemma_total_len_append(full, f1);
    lemma_total_len_append(full + f1, f2);
    assert(total_len(f1) == p.payload_final1_size) by {
        reveal_with_fuel(total_len, 2);
        if p.payload_final1_size != 0 {
            assert(f1.drop_last() =~= Seq::<usize>::empty());
        }
    }
    assert(total_len(f2) == p.payload_final2_size) by {
        reveal_with_fuel(total_len, 2);
        if p.payload_final2_size != 0 {
            assert(f2.drop_last() =~= Seq::<usize>::empty());
        }
    }
    assert(p.payload_count * p.payload_size == p.payload_size * p.payload_count) by (nonlinear_arith);
}

/// The bytes an assembler has taken from the transfers never exceed the
/// maximum payload size of its parameters.
pub proof fn lemma_assembled_within_maximum(p: StreamParams, v: AssemblerView)
    requires
        v.sizes == payload_transfer_sizes(p),
        assembled(v),
    ensures
        v.cursor <= max_payload(p),
{
    lemma_flatten_within_sizes(v.copied, v.sizes);
    lemma_total_len_prefix(v.sizes, v.copied.len() as int);
    lemma_transfer_sizes_sum_to_maximum(p);
}

/// The buffer the payload is assembled in: a buffer kept from an earlier
/// round, brought to the maximum payload size, cut or grown with zeros; else
/// a buffer handed back by the user, as it is; else a new buffer of zeros of
/// the maximum size.
pub open spec fn prepared_buffer(kept: Option<Vec<u8>>, reused: Option<Vec<u8>>, max: nat, buf: Seq<u8>) -> bool {
    match kept {
        Some(b) => buf.len() == max && (if max <= b@.len() {
            buf == b@.subrange(0, max as int)
        } else {
            &&& buf.subrange(0, b@.len() as int) == b@
            &&& forall|i: int| b@.len() <= i < max ==> buf[i] == 0
        }),
        None => match reused {
            Some(b) => buf == b@,
            None => buf == Seq::new(max, |i: int| 0u8),
        },
    }
}

/// Collects the bytes of the payload transfers of one payload into a
/// buffer.
pub struct PayloadAssembler {
    params: StreamParams,
    pic_buf: Vec<u8>,
    cursor: usize,
    received: usize,
    initial: Ghost<Seq<u8>>,
    copied: Ghost<Seq<Seq<u8>>>,
}

impl View for PayloadAssembler {
    type V = AssemblerView;

    closed spec fn view(&self) -> AssemblerView {
        AssemblerView {
            sizes: payload_transfer_sizes(self.params),
            buffer: self.pic_buf@,
            initial: self.initial@,
            copied: self.copied@,
            cursor: self.cursor as nat,
        }
    }
}

/// The message of a payload transfer that does not fit the buffer, after
/// `received` transfers: it names the stage of that transfer.
pub open spec fn overflow_message_spec(received: usize, payload_count: usize, final1_size: usize) -> Seq<char> {
    if received < payload_count {
        "payload buffer overflow while copying full chunks"@
    } else if received == payload_count && final1_size != 0 {
        "payload buffer overflow while copying final1"@
    } else {
        "payload buffer overflow while copying final2"@
    }
}

/// The message of a payload transfer that does not fit the buffer, naming
/// the stage it came in.
fn overflow_message(received: usize, payload_count: usize, final1_size: usize) -> (r: String)
    ensures
        r@ == overflow_message_spec(received, payload_count, final1_size),
{
    proof {
        reveal_strlit("payload buffer overflow while copying full chunks");
        reveal_strlit("payload buffer overflow while copying final1");
        reveal_strlit("payload buffer overflow while copying final2");
    }
    if received < payload_count {
        "payload buffer overflow while copying full chunks".to_string()
    } else if received == payload_count && final1_size != 0 {
        "payload buffer overflow while copying final1".to_string()
    } else {
        "payload buffer overflow while copying final2".to_string()
    }
}

impl PayloadAssembler {
    #[verifier::type_invariant]
    closed spec fn wf(self) -> bool {
        &&& assembled(self@)
        &&& self.received == self.copied@.len()
        &&& self.params.payload_count + 2 <= usize::MAX
    }

    /// Starts assembling a payload under `params`.
    ///
    /// `kept` is the buffer of an earlier round that did not finish; `reused`
    /// is a buffer the user handed back, which is only used when there is no
    /// kept one.
    pub fn new(params: &StreamParams, kept: Option<Vec<u8>>, reused: Option<Vec<u8>>) -> (r: PayloadAssembler)
        requires
            max_payload(*params) <= usize::MAX,
            params.payload_count + 2 <= usize::MAX,
        ensures
            r@.sizes == payload_transfer_sizes(*params),
            prepared_buffer(kept, reused, max_payload(*params) as nat, r@.buffer),
            r@.initial == r@.buffer,
            r@.copied == Seq::<Seq<u8>>::empty(),
            r@.cursor == 0,
            assembled(r@),
    {
        let maximum_payload_size = params.maximum_payload_size();
        let pic_buf = match kept {
            Some(buf) => {
                let mut buf = buf;
                if buf.len() != maximum_payload_size {
                    buf.resize(maximum_payload_size, 0);
                }
                buf
            },
            None => match reused {
                Some(buf) => buf,
                None => {
                    let mut buf: Vec<u8> = Vec::new();
                    let mut i: usize = 0;
                    while i < maximum_payload_size
                        invariant
                            i <= maximum_payload_size,
                            buf@ == Seq::new(i as nat, |j: int| 0u8),
                        decreases maximum_payload_size - i,
                    {
                        buf.push(0);
                        i += 1;
                    }
                    buf
                },
            },
        };
        proof {
            let e = Seq::<Seq<u8>>::empty();
            assert(e.flatten() == Seq::<u8>::empty());
            assert(pic_buf@.subrange(0, pic_buf@.len() as int) == pic_buf@);
        }
        PayloadAssembler {
            params: *params,
            pic_buf,
            cursor: 0,
            received: 0,
            initial: Ghost(pic_buf@),
            copied: Ghost(Seq::empty()),
        }
    }

    /// Length of the next payload transfer, or none when all have been
    /// received.
    pub fn next_transfer_size(&self) -> (r: Option<usize>)
        ensures
            self@.copied.len() < self@.sizes.len() ==> r == Some(self@.sizes[self@.copied.len() as int]),
            self@.copied.len() >= self@.sizes.len() ==> r is None,
    {
        proof {
            use_type_invariant(self);
        }
        let p = &self.params;
        if self.received < p.payload_count {
            Some(p.payload_size)
        } else if self.received == p.payload_count && p.payload_final1_size != 0 {
            Some(p.payload_final1_size)
        } else if (self.received == p.payload_count && p.payload_final1_size == 0
            && p.payload_final2_size != 0) || (self.received - p.payload_count == 1
            && p.payload_final1_size != 0 && p.payload_final2_size != 0) {
            Some(p.payload_final2_size)
        } else {
            None
        }
    }

    /// Whether all payload transfers have been received.
    pub fn is_complete(&self) -> (r: bool)
        ensures
            r == (self@.copied.len() >= self@.sizes.len()),
    {
        self.next_transfer_size().is_none()
    }

    /// Takes the bytes of the next payload transfer: at most the transfer's
    /// length of them go into the buffer after the bytes already there. The
    /// assembly fails, and the buffer is dropped, when they would not fit.
    pub fn push_transfer(self, data: &[u8]) -> (r: Result<PayloadAssembler, StreamError>)
        requires
            self@.copied.len() < self@.sizes.len(),
        ensures
            ({
                let logical = self@.sizes[self@.copied.len() as int];
                let to_copy = if logical <= data@.len() { logical as int } else { data@.len() as int };
                if self@.cursor + to_copy > self@.buffer.len() {
                    r matches Err(StreamError::InvalidPayload(_))
                } else {
                    r matches Ok(a) && a@ == (AssemblerView {
                        sizes: self@.sizes,
                        buffer: self@.buffer.subrange(0, self@.cursor as int) + data@.subrange(0, to_copy)
                            + self@.buffer.subrange(self@.cursor + to_copy, self@.buffer.len() as int),
                        initial: self@.initial,
                        copied: self@.copied.push(data@.subrange(0, to_copy)),
                        cursor: (self@.cursor + to_copy) as nat,
                    }) && assembled(a@)
                }
            }),
    {
        proof {
            use_type_invariant(&self);
        }
        let logical = match self.next_transfer_size() {
            Some(l) => l,
            None => {
                return Err(StreamError::NoBuffer);
            },
        };
        let got = data.len();
        let to_copy = if logical <= got { logical } else { got };
        let cursor = self.cursor;
        let len = self.pic_buf.len();
        if to_copy > len || cursor > len - to_copy {
            return Err(StreamError::InvalidPayload(overflow_message(self.received, self.params.payload_count, self.params.payload_final1_size)));
        }
        let PayloadAssembler { params, mut pic_buf, cursor, received, initial, copied } = self;
        let ghost old_buf = pic_buf@;
        let mut k: usize = 0;
        while k < to_copy
            invariant
                k <= to_copy <= data@.len(),
                cursor + to_copy <= len,
                pic_buf@.len() == len,
                old_buf.len() == len,
                pic_buf@ == old_buf.subrange(0, cursor as int) + data@.subrange(0, k as int)
                    + old_buf.subrange(cursor + k, len as int),
            decreases to_copy - k,
        {
            proof {
                assert(data@.subrange(0, k + 1) == data@.subrange(0, k as int).push(data@[k as int]));
            }
            pic_buf.set(cursor + k, data[k]);
            proof {
                assert(pic_buf@ =~= old_buf.subrange(0, cursor as int) + data@.subrange(0, k + 1)
                    + old_buf.subrange(cursor + k + 1, len as int));
            }
            k += 1;
        }
        let ghost piece = data@.subrange(0, to_copy as int);
        proof {
            copied@.lemma_flatten_push(piece);
            assert(copied@.push(piece).flatten() == copied@.flatten() + piece);
            assert(old_buf.subrange(0, cursor as int) == copied@.flatten());
            assert(old_buf.subrange(cursor + to_copy, len as int) == initial@.subrange(
                cursor + to_copy,
                len as int,
            ));
            assert(pic_buf@ =~= copied@.push(piece).flatten() + initial@.subrange(
                cursor + to_copy,
                initial@.len() as int,
            ));
            assert forall|i: int| 0 <= i < copied@.push(piece).len() implies #[trigger] copied@.push(
                piece,
            )[i].len() <= payload_transfer_sizes(params)[i] by {
                if i < copied@.len() {
                    assert(copied@.push(piece)[i] == copied@[i]);
                }
            }
        }
        Ok(
            PayloadAssembler {
                params,
                pic_buf,
                cursor: cursor + to_copy,
                received: received + 1,
                initial: Ghost(initial@),
                copied: Ghost(copied@.push(piece)),
            },
        )
    }

    /// The assembled buffer.
    pub fn into_buffer(self) -> (r: Vec<u8>)
        ensures
            r@ == self@.buffer,
    {
        self.pic_buf
    }

    /// Parses the leader and the trailer of the payload and builds the
    /// payload from them and the assembled buffer, all of whose bytes count
    /// as read.
    pub fn finish(self, leader_buf: &[u8], trailer_buf: &[u8]) -> (r: Result<Payload, StreamError>)
        ensures
            !crate::stream::leader_ok(leader_buf@) ==> r matches Err(
                StreamError::Device(U3vError::InvalidPacket(_)),
            ),
            crate::stream::leader_ok(leader_buf@) && !crate::stream::trailer_ok(trailer_buf@) ==> r matches Err(
                StreamError::Device(U3vError::InvalidPacket(_)),
            ),
            crate::stream::leader_ok(leader_buf@) && crate::stream::trailer_ok(trailer_buf@) ==> exists|
                l: Leader,
                t: Trailer,
            |
                l.raw_specific_leader@ == leader_buf@.subrange(
                    crate::stream::GENERIC_LEADER_SIZE as int,
                    leader_buf@.len() as int,
                ) && l.block_id == crate::bytes::le_u64(leader_buf@, 8) && Some(l.payload_type)
                    == crate::stream::payload_type_of(crate::bytes::le_u16(leader_buf@, 18))
                    && t.raw_specific_trailer@ == trailer_buf@.subrange(
                    crate::stream::GENERIC_TRAILER_SIZE as int,
                    trailer_buf@.len() as int,
                ) && Some(t.payload_status) == crate::stream::payload_status_of(
                    crate::bytes::le_u16(trailer_buf@, 16),
                ) && t.valid_payload_size == crate::bytes::le_u64(trailer_buf@, 20) && match build_spec(
                    l,
                    t,
                    self@.buffer,
                    self@.buffer.len() as usize,
                ) {
                    Some(v) => r matches Ok(p) && p@ == v,
                    None => r matches Err(StreamError::InvalidPayload(_)),
                },
    {
        let pic_buf = self.into_buffer();
        let leader = match Leader::parse(leader_buf) {
            Ok(l) => l,
            Err(e) => {
                return Err(StreamError::Device(e));
            },
        };
        let trailer = match Trailer::parse(trailer_buf) {
            Ok(t) => t,
            Err(e) => {
                return Err(StreamError::Device(e));
            },
        };
        let read_payload_size = pic_buf.len();
        let ghost buf = pic_buf@;
        let r = PayloadBuilder { leader, payload_buf: pic_buf, read_payload_size, trailer }.build();
        proof {
            assert(build_spec(leader, trailer, buf, buf.len() as usize) matches Some(v) ==> (r matches Ok(p) && p@ == v));
        }
        r
    }
}


/// Address of the maximum device response time register (4 bytes,
/// milliseconds) in the technology agnostic bootstrap register map.
pub const ABRM_MAXIMUM_DEVICE_RESPONSE_TIME: u64 = 0x01CC;
/// Address of the SBRM address register (8 bytes).
pub const ABRM_SBRM_ADDRESS: u64 = 0x01D8;
/// Offset of the capability register (8 bytes) in the SBRM.
pub const SBRM_U3VCP_CAPABILITY: u64 = 0x0004;
/// Offset of the SIRM address register (8 bytes) in the SBRM.
pub const SBRM_SIRM_ADDRESS: u64 = 0x0020;
/// Offsets of the streaming interface registers (4 bytes each) in the SIRM.
pub const SIRM_MAXIMUM_LEADER_SIZE: u64 = 0x18;
pub const SIRM_PAYLOAD_TRANSFER_SIZE: u64 = 0x1C;
pub const SIRM_PAYLOAD_TRANSFER_COUNT: u64 = 0x20;
pub const SIRM_PAYLOAD_FINAL_TRANSFER1_SIZE: u64 = 0x24;
pub const SIRM_PAYLOAD_FINAL_TRANSFER2_SIZE: u64 = 0x28;
pub const SIRM_MAXIMUM_TRAILER_SIZE: u64 = 0x2C;

/// The duration `Duration::from_millis(millis)`.
pub uninterp spec fn millis_duration(millis: u64) -> Duration;

/// `std::time::Duration::from_millis`: the result is named
/// [`millis_duration`] of the argument; nothing more is stated of it.
#[verifier::external_body]
fn duration_from_millis(millis: u64) -> (r: Duration)
    ensures
        r == millis_duration(millis),
{
    Duration::from_millis(millis)
}

impl Default for StreamParams {
    /// All sizes and counts 0, and a zero timeout.
    fn default() -> (r: StreamParams)
        ensures
            r.leader_size == 0,
            r.trailer_size == 0,
            r.payload_size == 0,
            r.payload_count == 0,
            r.payload_final1_size == 0,
            r.payload_final2_size == 0,
            r.timeout == millis_duration(0),
    {
        StreamParams::new(0, 0, 0, 0, 0, 0, duration_from_millis(0))
    }
}

/// Whether the capability register of the SBRM declares a streaming
/// interface register map (bit 0).
pub open spec fn declares_sirm(capability: u64) -> bool {
    capability % 2 == 1
}

/// Values of the registers the stream parameters are read from.
#[derive(Debug, Clone, Copy, PartialEq, Eq, Structural)]
pub struct StreamRegisterValues {
    /// SIRM: maximum leader size.
    pub maximum_leader_size: u32,
    /// SIRM: maximum trailer size.
    pub maximum_trailer_size: u32,
    /// SIRM: payload transfer size.
    pub payload_transfer_size: u32,
    /// SIRM: payload transfer count.
    pub payload_transfer_count: u32,
    /// SIRM: payload final transfer 1 size.
    pub payload_final_transfer1_size: u32,
    /// SIRM: payload final transfer 2 size.
    pub payload_final_transfer2_size: u32,
    /// ABRM: maximum device response time, in milliseconds.
    pub maximum_device_response_time: u32,
}

/// The message of a device without a streaming interface register map.
pub open spec fn no_sirm_message() -> Seq<char> {
    "the U3V device doesn't have `SIRM`"@
}

/// `base + offset`, wrapping around at the end of the address space.
pub open spec fn wrapped_address(base: u64, offset: u64) -> u64 {
    if base + offset > u64::MAX {
        (base + offset - 0x1_0000_0000_0000_0000) as u64
    } else {
        (base + offset) as u64
    }
}

/// The address of a register at `offset` in the register map at `base`.
pub fn register_address(base: u64, offset: u64) -> (r: u64)
    ensures
        r == wrapped_address(base, offset),
{
    base.wrapping_add(offset)
}

/// The call is a read of `len` bytes at `address`.
pub open spec fn reads_at(c: ControlCall, address: u64, len: nat) -> bool {
    c matches ControlCall::Read(a, d, _) && a == address && d.len() == len
}

/// The error a call returned, if any.
pub open spec fn call_error(c: ControlCall) -> Option<ControlError> {
    match c {
        ControlCall::Read(_, _, Err(e)) => Some(e),
        _ => None,
    }
}

/// The little endian value of the bytes a read gave.
pub open spec fn read_value(c: ControlCall) -> int {
    match c {
        ControlCall::Read(_, d, _) => if d.len() == 8 {
            le_u64(d, 0)
        } else {
            le_u32(d, 0)
        },
        _ => 0,
    }
}

/// The device has read one more register: `after` is `before` with one read
/// of `len` bytes at `address`; `r` is its value, or its error.
pub open spec fn read_register_done(
    before: Seq<ControlCall>,
    after: Seq<ControlCall>,
    address: u64,
    len: nat,
    r: Result<int, ControlError>,
) -> bool {
    &&& after.len() == before.len() + 1
    &&& extends(before, after)
    &&& reads_at(after.last(), address, len)
    &&& r == match call_error(after.last()) {
        Some(e) => Err(e),
        None => Ok(read_value(after.last())),
    }
}

/// Reads a register of 4 bytes, little endian.
fn read_register_u32<Ctrl: DeviceControl>(ctrl: &mut Ctrl, address: u64) -> (r: Result<u32, ControlError>)
    ensures
        read_register_done(
            old(ctrl).control_calls(),
            final(ctrl).control_calls(),
            address,
            4,
            match r {
                Ok(v) => Ok(v as int),
                Err(e) => Err(e),
            },
        ),
{
    let mut buf: Vec<u8> = vec![0u8; 4];
    let res = ctrl.read(address, buf.as_mut_slice());
    match res {
        Ok(()) => Ok(read_u32_le(buf.as_slice(), 0)),
        Err(e) => Err(e),
    }
}

/// Reads a register of 8 bytes, little endian.
fn read_register_u64<Ctrl: DeviceControl>(ctrl: &mut Ctrl, address: u64) -> (r: Result<u64, ControlError>)
    ensures
        read_register_done(
            old(ctrl).control_calls(),
            final(ctrl).control_calls(),
            address,
            8,
            match r {
                Ok(v) => Ok(v as int),
                Err(e) => Err(e),
            },
        ),
{
    let mut buf: Vec<u8> = vec![0u8; 8];
    let res = ctrl.read(address, buf.as_mut_slice());
    match res {
        Ok(()) => Ok(read_u64_le(buf.as_slice(), 0)),
        Err(e) => Err(e),
    }
}

impl StreamParams {
    /// The stream parameters the register values describe, for contracts.
    pub open spec fn spec_from_register_values(v: StreamRegisterValues) -> StreamParams {
        StreamParams {
            leader_size: v.maximum_leader_size as usize,
            trailer_size: v.maximum_trailer_size as usize,
            payload_size: v.payload_transfer_size as usize,
            payload_count: v.payload_transfer_count as usize,
            payload_final1_size: v.payload_final_transfer1_size as usize,
            payload_final2_size: v.payload_final_transfer2_size as usize,
            timeout: millis_duration(v.maximum_device_response_time as u64),
        }
    }

    /// The error of a device whose capability register declares no
    /// streaming interface register map.
    pub fn check_sirm(capability: u64) -> (r: Result<(), ControlError>)
        ensures
            declares_sirm(capability) ==> r is Ok,
            !declares_sirm(capability) ==> (r matches Err(ControlError::InvalidDevice(msg)) && msg@
                == no_sirm_message()),
    {
        if capability % 2 == 0 {
            let msg = "the U3V device doesn't have `SIRM`".to_string();
            proof {
                reveal_strlit("the U3V device doesn't have `SIRM`");
            }
            return Err(ControlError::InvalidDevice(msg));
        }
        Ok(())
    }

    /// The stream parameters the register values describe.
    pub fn from_register_values(values: &StreamRegisterValues) -> (r: StreamParams)
        ensures
            r == Self::spec_from_register_values(*values),
    {
        StreamParams::new(
            values.maximum_leader_size as usize,
            values.maximum_trailer_size as usize,
            values.payload_transfer_size as usize,
            values.payload_transfer_count as usize,
            values.payload_final_transfer1_size as usize,
            values.payload_final_transfer2_size as usize,
            duration_from_millis(values.maximum_device_response_time as u64),
        )
    }

    /// The stream parameters from the capability register and the register
    /// values: an error when the capability declares no streaming interface
    /// register map.
    pub fn params_from_registers(capability: u64, values: &StreamRegisterValues) -> (r: Result<StreamParams, ControlError>)
        ensures
            declares_sirm(capability) ==> r == Ok::<StreamParams, ControlError>(
                Self::spec_from_register_values(*values),
            ),
            !declares_sirm(capability) ==> (r matches Err(ControlError::InvalidDevice(m)) && m@
                == no_sirm_message()),
    {
        match Self::check_sirm(capability) {
            Err(e) => Err(e),
            Ok(()) => Ok(Self::from_register_values(values)),
        }
    }

    /// Reads the stream parameters from the device's streaming interface
    /// register map, one register after the other as
    /// [`stream_register_reads`] describes: the SBRM address, the
    /// capability and the SIRM address, then the SIRM's size registers and
    /// the maximum device response time. The first failed read ends it with
    /// that read's error; a device without a SIRM ends it after the
    /// capability.
    pub fn from_control<Ctrl: DeviceControl>(ctrl: &mut Ctrl) -> (r: Result<StreamParams, ControlError>)
        ensures
            extends(old(ctrl).control_calls(), final(ctrl).control_calls()),
            stream_register_reads(
                final(ctrl).control_calls().subrange(
                    old(ctrl).control_calls().len() as int,
                    final(ctrl).control_calls().len() as int,
                ),
                r,
            ),
    {
        let ghost oc = ctrl.control_calls();
        let ghost mut new: Seq<ControlCall> = Seq::empty();
        let sbrm = match read_register_u64(ctrl, ABRM_SBRM_ADDRESS) {
            Ok(v) => v,
            Err(e) => {
                proof {
                    new = new.push(ctrl.control_calls().last());
                    assert(ctrl.control_calls().subrange(oc.len() as int, ctrl.control_calls().len() as int) =~= new);
                }
                return Err(e);
            },
        };
        proof {
            new = new.push(ctrl.control_calls().last());
            assert(ctrl.control_calls() =~= oc + new);
        }
        let capability = match read_register_u64(ctrl, register_address(sbrm, SBRM_U3VCP_CAPABILITY)) {
            Ok(v) => v,
            Err(e) => {
                proof {
                    new = new.push(ctrl.control_calls().last());
                    assert(ctrl.control_calls().subrange(oc.len() as int, ctrl.control_calls().len() as int) =~= new);
                }
                return Err(e);
            },
        };
        proof {
            new = new.push(ctrl.control_calls().last());
            assert(ctrl.control_calls() =~= oc + new);
        }
        if let Err(e) = Self::check_sirm(capability) {
            proof {
                assert(ctrl.control_calls().subrange(oc.len() as int, ctrl.control_calls().len() as int) =~= new);
            }
            return Err(e);
        }
        let sirm = match read_register_u64(ctrl, register_address(sbrm, SBRM_SIRM_ADDRESS)) {
            Ok(v) => v,
            Err(e) => {
                proof {
                    new = new.push(ctrl.control_calls().last());
                    assert(ctrl.control_calls().subrange(oc.len() as int, ctrl.control_calls().len() as int) =~= new);
                }
                return Err(e);
            },
        };
        proof {
            new = new.push(ctrl.control_calls().last());
            assert(ctrl.control_calls() =~= oc + new);
        }
        let maximum_leader_size = match read_register_u32(ctrl, register_address(sirm, SIRM_MAXIMUM_LEADER_SIZE)) {
            Ok(v) => v,
            Err(e) => {
                proof {
                    new = new.push(ctrl.control_calls().last());
                    assert(ctrl.control_calls().subrange(oc.len() as int, ctrl.control_calls().len() as int) =~= new);
                }
                return Err(e);
            },
        };
        proof {
            new = new.push(ctrl.control_calls().last());
            assert(ctrl.control_calls() =~= oc + new);
        }
        let maximum_trailer_size = match read_register_u32(ctrl, register_address(sirm, SIRM_MAXIMUM_TRAILER_SIZE)) {
            Ok(v) => v,
            Err(e) => {
                proof {
                    new = new.push(ctrl.control_calls().last());
                    assert(ctrl.control_calls().subrange(oc.len() as int, ctrl.control_calls().len() as int) =~= new);
                }
                return Err(e);
            },
        };
        proof {
            new = new.push(ctrl.control_calls().last());
            assert(ctrl.control_calls() =~= oc + new);
        }
        let payload_transfer_size = match read_register_u32(ctrl, register_address(sirm, SIRM_PAYLOAD_TRANSFER_SIZE)) {
            Ok(v) => v,
            Err(e) => {
                proof {
                    new = new.push(ctrl.control_calls().last());
                    assert(ctrl.control_calls().subrange(oc.len() as int, ctrl.control_calls().len() as int) =~= new);
                }
                return Err(e);
            },
        };
        proof {
            new = new.push(ctrl.control_calls().last());
            assert(ctrl.control_calls() =~= oc + new);
        }
        let payload_transfer_count = match read_register_u32(ctrl, register_address(sirm, SIRM_PAYLOAD_TRANSFER_COUNT)) {
            Ok(v) => v,
            Err(e) => {
                proof {
                    new = new.push(ctrl.control_calls().last());
                    assert(ctrl.control_calls().subrange(oc.len() as int, ctrl.control_calls().len() as int) =~= new);
                }
                return Err(e);
            },
        };
        proof {
            new = new.push(ctrl.control_calls().last());
            assert(ctrl.control_calls() =~= oc + new);
        }
        let payload_final_transfer1_size = match read_register_u32(ctrl, register_address(sirm, SIRM_PAYLOAD_FINAL_TRANSFER1_SIZE)) {
            Ok(v) => v,
            Err(e) => {
                proof {
                    new = new.push(ctrl.control_calls().last());
                    assert(ctrl.control_calls().subrange(oc.len() as int, ctrl.control_calls().len() as int) =~= new);
                }
                return Err(e);
            },
        };
        proof {
            new = new.push(ctrl.control_calls().last());
            assert(ctrl.control_calls() =~= oc + new);
        }
        let payload_final_transfer2_size = match read_register_u32(ctrl, register_address(sirm, SIRM_PAYLOAD_FINAL_TRANSFER2_SIZE)) {
            Ok(v) => v,
            Err(e) => {
                proof {
                    new = new.push(ctrl.control_calls().last());
                    assert(ctrl.control_calls().subrange(oc.len() as int, ctrl.control_calls().len() as int) =~= new);
                }
                return Err(e);
            },
        };
        proof {
            new = new.push(ctrl.control_calls().last());
            assert(ctrl.control_calls() =~= oc + new);
        }
        let maximum_device_response_time = match read_register_u32(ctrl, ABRM_MAXIMUM_DEVICE_RESPONSE_TIME) {
            Ok(v) => v,
            Err(e) => {
                proof {
                    new = new.push(ctrl.control_calls().last());
                    assert(ctrl.control_calls().subrange(oc.len() as int, ctrl.control_calls().len() as int) =~= new);
                }
                return Err(e);
            },
        };
        proof {
            new = new.push(ctrl.control_calls().last());
            assert(ctrl.control_calls() =~= oc + new);
        }
        let values = StreamRegisterValues {
            maximum_leader_size,
            maximum_trailer_size,
            payload_transfer_size,
            payload_transfer_count,
            payload_final_transfer1_size,
            payload_final_transfer2_size,
            maximum_device_response_time,
        };
        proof {
            assert(ctrl.control_calls().subrange(oc.len() as int, ctrl.control_calls().len() as int) =~= new);
            assert(values == register_values_of(new));
        }
        Self::params_from_registers(capability, &values)
    }
}

/// The register a read of the stream parameters reads at step `k`, and its
/// length, given the reads `new` made so far: the SBRM address in the
/// ABRM, then the capability and the SIRM address in the SBRM, then the
/// SIRM's maximum leader size, maximum trailer size, payload transfer size,
/// payload transfer count and the two final transfer sizes, then the ABRM's
/// maximum device response time.
pub open spec fn planned_read(new: Seq<ControlCall>, k: int) -> (u64, nat) {
    let sbrm = read_value(new[0]) as u64;
    let sirm = read_value(new[2]) as u64;
    if k == 0 {
        (ABRM_SBRM_ADDRESS, 8)
    } else if k == 1 {
        (wrapped_address(sbrm, SBRM_U3VCP_CAPABILITY), 8)
    } else if k == 2 {
        (wrapped_address(sbrm, SBRM_SIRM_ADDRESS), 8)
    } else if k == 3 {
        (wrapped_address(sirm, SIRM_MAXIMUM_LEADER_SIZE), 4)
    } else if k == 4 {
        (wrapped_address(sirm, SIRM_MAXIMUM_TRAILER_SIZE), 4)
    } else if k == 5 {
        (wrapped_address(sirm, SIRM_PAYLOAD_TRANSFER_SIZE), 4)
    } else if k == 6 {
        (wrapped_address(sirm, SIRM_PAYLOAD_TRANSFER_COUNT), 4)
    } else if k == 7 {
        (wrapped_address(sirm, SIRM_PAYLOAD_FINAL_TRANSFER1_SIZE), 4)
    } else if k == 8 {
        (wrapped_address(sirm, SIRM_PAYLOAD_FINAL_TRANSFER2_SIZE), 4)
    } else {
        (ABRM_MAXIMUM_DEVICE_RESPONSE_TIME, 4)
    }
}

/// Step `k`, if it was made, read the planned register, and the step
/// before it succeeded.
pub open spec fn step_ok(new: Seq<ControlCall>, k: int) -> bool {
    new.len() > k ==> {
        &&& reads_at(new[k], planned_read(new, k).0, planned_read(new, k).1)
        &&& k > 0 ==> call_error(new[k - 1]) is None
    }
}

/// The register values the reads gave.
pub open spec fn register_values_of(new: Seq<ControlCall>) -> StreamRegisterValues {
    StreamRegisterValues {
        maximum_leader_size: read_value(new[3]) as u32,
        maximum_trailer_size: read_value(new[4]) as u32,
        payload_transfer_size: read_value(new[5]) as u32,
        payload_transfer_count: read_value(new[6]) as u32,
        payload_final_transfer1_size: read_value(new[7]) as u32,
        payload_final_transfer2_size: read_value(new[8]) as u32,
        maximum_device_response_time: read_value(new[9]) as u32,
    }
}

/// Reading the stream parameters made the reads `new` and gave `r`: each
/// read as [`planned_read`] plans it, only after the one before it
/// succeeded; the error of the read that failed; after the capability, the
/// missing SIRM error where the capability declares none; else the
/// parameters the register values describe.
pub open spec fn stream_register_reads(new: Seq<ControlCall>, r: Result<StreamParams, ControlError>) -> bool {
    &&& 1 <= new.len() <= 10
    &&& step_ok(new, 0) && step_ok(new, 1) && step_ok(new, 2) && step_ok(new, 3) && step_ok(new, 4)
    &&& step_ok(new, 5) && step_ok(new, 6) && step_ok(new, 7) && step_ok(new, 8) && step_ok(new, 9)
    &&& new.len() > 2 ==> declares_sirm(read_value(new[1]) as u64)
    &&& match call_error(new.last()) {
        Some(e) => r == Err::<StreamParams, ControlError>(e),
        None => if new.len() == 2 {
            &&& !declares_sirm(read_value(new[1]) as u64)
            &&& r matches Err(ControlError::InvalidDevice(m)) && m@ == no_sirm_message()
        } else {
            &&& new.len() == 10
            &&& r == Ok::<StreamParams, ControlError>(
                StreamParams::spec_from_register_values(register_values_of(new)),
            )
        },
    }
}


/// The register `offset` bytes into the register map at `base`, in a 64 bit
/// address space.
pub open spec fn register_at(base: int, offset: int) -> u64 {
    ((base + offset) % 0x1_0000_0000_0000_0000) as u64
}

/// One of the reads `new` read `len` bytes at `address` and gave `v`.
pub open spec fn read_gave(new: Seq<ControlCall>, address: u64, len: nat, v: int) -> bool {
    exists|k: int| 0 <= k < new.len() && #[trigger] reads_at(new[k], address, len) && read_value(new[k]) == v
}

/// Stream parameters read from a device come from its streaming interface
/// register map (SIRM): the SBRM address is read from the ABRM at 0x1D8, the
/// SIRM address from the SBRM at 0x20, and each size from the SIRM at its
/// offset: maximum leader size 0x18, payload transfer size 0x1C, payload
/// transfer count 0x20, the final transfer sizes 0x24 and 0x28, maximum
/// trailer size 0x2C.
pub proof fn lemma_stream_params_read_from_sirm(new: Seq<ControlCall>, p: StreamParams)
    requires
        stream_register_reads(new, Ok(p)),
    ensures
        ({
            let sbrm = read_value(new[0]);
            let sirm = read_value(new[2]);
            &&& reads_at(new[0], 0x1D8, 8)
            &&& reads_at(new[2], register_at(sbrm, 0x20), 8)
            &&& read_gave(new, register_at(sirm, 0x18), 4, p.leader_size as int)
            &&& read_gave(new, register_at(sirm, 0x1C), 4, p.payload_size as int)
            &&& read_gave(new, register_at(sirm, 0x20), 4, p.payload_count as int)
            &&& read_gave(new, register_at(sirm, 0x24), 4, p.payload_final1_size as int)
            &&& read_gave(new, register_at(sirm, 0x28), 4, p.payload_final2_size as int)
            &&& read_gave(new, register_at(sirm, 0x2C), 4, p.trailer_size as int)
        }),
{
    let sbrm = read_value(new[0]);
    let sirm = read_value(new[2]);
    lemma_plan_of_reads(new, p);
    lemma_read_value_bounds(new[0], ABRM_SBRM_ADDRESS, 8);
    lemma_read_value_bounds(new[2], wrapped_address(sbrm as u64, SBRM_SIRM_ADDRESS), 8);
    lemma_wrapped_is_register_at(sbrm as u64, SBRM_SIRM_ADDRESS);
    lemma_sirm_read(new, 3, sirm, SIRM_MAXIMUM_LEADER_SIZE);
    lemma_sirm_read(new, 4, sirm, SIRM_MAXIMUM_TRAILER_SIZE);
    lemma_sirm_read(new, 5, sirm, SIRM_PAYLOAD_TRANSFER_SIZE);
    lemma_sirm_read(new, 6, sirm, SIRM_PAYLOAD_TRANSFER_COUNT);
    lemma_sirm_read(new, 7, sirm, SIRM_PAYLOAD_FINAL_TRANSFER1_SIZE);
    lemma_sirm_read(new, 8, sirm, SIRM_PAYLOAD_FINAL_TRANSFER2_SIZE);
}

proof fn lemma_read_value_bounds(c: ControlCall, a: u64, len: nat)
    requires
        reads_at(c, a, len),
        len == 4 || len == 8,
    ensures
        0 <= read_value(c) < 0x1_0000_0000_0000_0000,
        len == 4 ==> read_value(c) < 0x1_0000_0000,
{
}

proof fn lemma_wrapped_is_register_at(base: u64, offset: u64)
    ensures
        wrapped_address(base, offset) == register_at(base as int, offset as int),
{
}

proof fn lemma_sirm_read(new: Seq<ControlCall>, k: int, sirm: int, offset: u64)
    requires
        0 <= k < new.len(),
        0 <= sirm < 0x1_0000_0000_0000_0000,
        reads_at(new[k], wrapped_address(sirm as u64, offset), 4),
    ensures
        reads_at(new[k], register_at(sirm, offset as int), 4),
        read_value(new[k]) < 0x1_0000_0000,
        read_gave(new, register_at(sirm, offset as int), 4, read_value(new[k])),
{
    lemma_wrapped_is_register_at(sirm as u64, offset);
    lemma_read_value_bounds(new[k], register_at(sirm, offset as int), 4);
}

/// What a read of the stream parameters that succeeded did, step by step.
proof fn lemma_plan_of_reads(new: Seq<ControlCall>, p: StreamParams)
    requires
        stream_register_reads(new, Ok(p)),
    ensures
        new.len() == 10,
        reads_at(new[0], ABRM_SBRM_ADDRESS, 8),
        reads_at(new[2], wrapped_address(read_value(new[0]) as u64, SBRM_SIRM_ADDRESS), 8),
        reads_at(new[3], wrapped_address(read_value(new[2]) as u64, SIRM_MAXIMUM_LEADER_SIZE), 4),
        reads_at(new[4], wrapped_address(read_value(new[2]) as u64, SIRM_MAXIMUM_TRAILER_SIZE), 4),
        reads_at(new[5], wrapped_address(read_value(new[2]) as u64, SIRM_PAYLOAD_TRANSFER_SIZE), 4),
        reads_at(new[6], wrapped_address(read_value(new[2]) as u64, SIRM_PAYLOAD_TRANSFER_COUNT), 4),
        reads_at(new[7], wrapped_address(read_value(new[2]) as u64, SIRM_PAYLOAD_FINAL_TRANSFER1_SIZE), 4),
        reads_at(new[8], wrapped_address(read_value(new[2]) as u64, SIRM_PAYLOAD_FINAL_TRANSFER2_SIZE), 4),
        p == StreamParams::spec_from_register_values(register_values_of(new)),
{
}

} // verus!
