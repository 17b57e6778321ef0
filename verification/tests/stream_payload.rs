use cameleon::errors::StreamError;
use cameleon::payload::{ImageInfo, PayloadType, PixelFormat};
use cameleon::stream::{
    ChunkLeader, ImageExtendedChunkLeader, ImageExtendedChunkTrailer, ImageLeader, ImageTrailer,
    Leader, PayloadStatus, SpecificLeader, SpecificTrailer, Trailer,
};
use cameleon::stream_handle::{decimal, PayloadBuilder};
use cameleon::u3v::U3vError;

fn leader_bytes(block_id: u64, payload_type: u16, specific: &[u8]) -> Vec<u8> {
    let mut v = vec![0x55, 0x33, 0x56, 0x4C, 0, 0];
    let size = (20 + specific.len()) as u16;
    v.extend_from_slice(&size.to_le_bytes());
    v.extend_from_slice(&block_id.to_le_bytes());
    v.extend_from_slice(&[0, 0]);
    v.extend_from_slice(&payload_type.to_le_bytes());
    v.extend_from_slice(specific);
    v
}

fn trailer_bytes(block_id: u64, status: u16, valid: u64, specific: &[u8]) -> Vec<u8> {
    let mut v = vec![0x55, 0x33, 0x56, 0x54, 0, 0];
    let size = (28 + specific.len()) as u16;
    v.extend_from_slice(&size.to_le_bytes());
    v.extend_from_slice(&block_id.to_le_bytes());
    v.extend_from_slice(&status.to_le_bytes());
    v.extend_from_slice(&[0, 0]);
    v.extend_from_slice(&valid.to_le_bytes());
    v.extend_from_slice(specific);
    v
}

fn image_leader_specific(timestamp: u64, width: u32, height: u32) -> Vec<u8> {
    let mut v = Vec::new();
    v.extend_from_slice(&timestamp.to_le_bytes());
    v.extend_from_slice(&0x0108_0001u32.to_le_bytes()); // Mono8
    v.extend_from_slice(&width.to_le_bytes());
    v.extend_from_slice(&height.to_le_bytes());
    v.extend_from_slice(&3u32.to_le_bytes());
    v.extend_from_slice(&4u32.to_le_bytes());
    v.extend_from_slice(&0u16.to_le_bytes());
    v.extend_from_slice(&[0, 0]);
    v
}

fn build(leader: &[u8], payload: Vec<u8>, trailer: &[u8]) -> Result<cameleon::payload::Payload, StreamError> {
    let leader = Leader::parse(leader).unwrap();
    let trailer = Trailer::parse(trailer).unwrap();
    let read_payload_size = payload.len();
    PayloadBuilder { leader, payload_buf: payload, read_payload_size, trailer }.build()
}

#[test]
fn leader_parse_reads_generic_part() {
    let bytes = leader_bytes(42, 0x0001, &[9, 8, 7]);
    let leader = Leader::parse(&bytes).unwrap();
    assert_eq!(leader.leader_size, 23);
    assert_eq!(leader.block_id, 42);
    assert_eq!(leader.payload_type, PayloadType::Image);
    assert_eq!(leader.raw_specific_leader, &[9, 8, 7]);
}

#[test]
fn leader_parse_errors() {
    let bytes = leader_bytes(1, 0x0001, &[]);
    assert!(matches!(Leader::parse(&bytes[..19]), Err(U3vError::InvalidPacket(_))));
    let mut bad_magic = bytes.clone();
    bad_magic[3] = 0x4D;
    assert!(matches!(Leader::parse(&bad_magic), Err(U3vError::InvalidPacket(_))));
    let unknown = leader_bytes(1, 0x0002, &[]);
    assert!(matches!(Leader::parse(&unknown), Err(U3vError::InvalidPacket(_))));
    assert_eq!(Leader::parse(&leader_bytes(1, 0x4001, &[])).unwrap().payload_type, PayloadType::ImageExtendedChunk);
    assert_eq!(Leader::parse(&leader_bytes(1, 0x4000, &[])).unwrap().payload_type, PayloadType::Chunk);
}

#[test]
fn trailer_parse_reads_generic_part() {
    let bytes = trailer_bytes(7, 0xA101, 1000, &[1, 2, 3, 4]);
    let trailer = Trailer::parse(&bytes).unwrap();
    assert_eq!(trailer.trailer_size, 32);
    assert_eq!(trailer.block_id, 7);
    assert_eq!(trailer.payload_status, PayloadStatus::DataOverrun);
    assert_eq!(trailer.valid_payload_size, 1000);
    assert_eq!(trailer.raw_specific_trailer, &[1, 2, 3, 4]);
    assert!(matches!(Trailer::parse(&bytes[..27]), Err(U3vError::InvalidPacket(_))));
    assert!(matches!(Trailer::parse(&trailer_bytes(7, 0x1234, 0, &[])), Err(U3vError::InvalidPacket(_))));
    assert_eq!(Trailer::parse(&trailer_bytes(7, 0xA100, 0, &[])).unwrap().payload_status, PayloadStatus::DataDiscarded);
}

#[test]
fn specific_parts_decode() {
    let raw = image_leader_specific(99, 640, 480);
    let l = ImageLeader::parse(&raw).unwrap();
    assert_eq!(l.timestamp, 99);
    assert_eq!(l.pixel_format, PixelFormat { code: 0x0108_0001 });
    assert_eq!((l.width, l.height, l.x_offset, l.y_offset, l.x_padding), (640, 480, 3, 4, 0));
    assert!(ImageLeader::parse(&raw[..31]).is_err());
    assert_eq!(ImageExtendedChunkLeader::parse(&raw).unwrap().width, 640);
    assert_eq!(ChunkLeader::parse(&raw[..8]).unwrap().timestamp, 99);
    assert!(ChunkLeader::parse(&raw[..7]).is_err());
    assert_eq!(ImageTrailer::parse(&[5, 0, 0, 0]).unwrap().actual_height, 5);
    assert!(ImageTrailer::parse(&[5, 0, 0]).is_err());
    let t = ImageExtendedChunkTrailer::parse(&[5, 0, 0, 0, 9, 0, 0, 0]).unwrap();
    assert_eq!((t.actual_height, t.chunk_layout_id), (5, 9));
}

#[test]
fn build_image_payload() {
    let leader = leader_bytes(3, 0x0001, &image_leader_specific(1234, 4, 2));
    let trailer = trailer_bytes(3, 0x0000, 8, &[2, 0, 0, 0]);
    let payload = build(&leader, (0u8..10).collect(), &trailer).unwrap();
    assert_eq!(payload.id(), 3);
    assert_eq!(payload.payload_type(), PayloadType::Image);
    assert_eq!(payload.timestamp_nanos(), 1234);
    assert_eq!(payload.timestamp(), std::time::Duration::from_nanos(1234));
    assert_eq!(
        payload.image_info(),
        Some(&ImageInfo {
            width: 4,
            height: 2,
            x_offset: 3,
            y_offset: 4,
            pixel_format: PixelFormat { code: 0x0108_0001 },
            image_size: 8,
        })
    );
    assert_eq!(payload.image(), Some(&[0u8, 1, 2, 3, 4, 5, 6, 7][..]));
    assert_eq!(payload.payload(), &[0u8, 1, 2, 3, 4, 5, 6, 7][..]);
    assert_eq!(payload.into_vec(), vec![0u8, 1, 2, 3, 4, 5, 6, 7]);
}

#[test]
fn build_image_extended_chunk_payload_finds_first_chunk() {
    // Image chunk: 6 data bytes, id, size 6; then a 2 byte chunk.
    let mut buf = vec![10u8, 11, 12, 13, 14, 15];
    buf.extend_from_slice(&[0xA, 0xB, 0xC, 0xD]);
    buf.extend_from_slice(&6u32.to_be_bytes());
    buf.extend_from_slice(&[20, 21]);
    buf.extend_from_slice(&[0x1, 0x2, 0x3, 0x4]);
    buf.extend_from_slice(&2u32.to_be_bytes());
    assert_eq!(buf.len(), 24);
    buf.extend_from_slice(&[0, 0, 0]);
    let leader = leader_bytes(5, 0x4001, &image_leader_specific(77, 3, 2));
    let trailer = trailer_bytes(5, 0x0000, 24, &[2, 0, 0, 0, 1, 0, 0, 0]);
    let payload = build(&leader, buf, &trailer).unwrap();
    assert_eq!(payload.payload_type(), PayloadType::ImageExtendedChunk);
    assert_eq!(payload.image_info().unwrap().image_size, 6);
    assert_eq!(payload.image(), Some(&[10u8, 11, 12, 13, 14, 15][..]));
    assert_eq!(payload.payload().len(), 24);
}

#[test]
fn build_image_extended_chunk_payload_rejects_broken_chunks() {
    let leader = leader_bytes(5, 0x4001, &image_leader_specific(77, 3, 2));
    // Size field larger than what precedes it.
    let mut buf = vec![0u8; 4];
    buf.extend_from_slice(&100u32.to_be_bytes());
    let trailer = trailer_bytes(5, 0x0000, 8, &[2, 0, 0, 0, 1, 0, 0, 0]);
    assert!(matches!(build(&leader, buf, &trailer), Err(StreamError::InvalidPayload(_))));
    // Too short for a size field.
    let trailer = trailer_bytes(5, 0x0000, 3, &[2, 0, 0, 0, 1, 0, 0, 0]);
    assert!(matches!(build(&leader, vec![0u8; 3], &trailer), Err(StreamError::InvalidPayload(_))));
}

#[test]
fn build_chunk_payload() {
    let leader = leader_bytes(9, 0x4000, &55u64.to_le_bytes());
    let trailer = trailer_bytes(9, 0x0000, 4, &[1, 0, 0, 0]);
    let payload = build(&leader, vec![1, 2, 3, 4, 5], &trailer).unwrap();
    assert_eq!(payload.payload_type(), PayloadType::Chunk);
    assert_eq!(payload.image_info(), None);
    assert_eq!(payload.image(), None);
    assert_eq!(payload.timestamp_nanos(), 55);
    assert_eq!(payload.payload(), &[1u8, 2, 3, 4][..]);
    assert_eq!(payload.into_reuse_buffer(), vec![1u8, 2, 3, 4, 5]);
}

#[test]
fn build_rejects_failed_status_and_short_payload() {
    let leader = leader_bytes(3, 0x0001, &image_leader_specific(0, 4, 2));
    let discarded = trailer_bytes(3, 0xA100, 8, &[2, 0, 0, 0]);
    assert!(matches!(build(&leader, vec![0; 8], &discarded), Err(StreamError::InvalidPayload(_))));
    let too_long = trailer_bytes(3, 0x0000, 9, &[2, 0, 0, 0]);
    assert!(matches!(build(&leader, vec![0; 8], &too_long), Err(StreamError::InvalidPayload(_))));
}

#[test]
fn build_rejects_short_specific_parts() {
    let leader = leader_bytes(3, 0x0001, &image_leader_specific(0, 4, 2)[..20]);
    let trailer = trailer_bytes(3, 0x0000, 8, &[2, 0, 0, 0]);
    assert!(matches!(build(&leader, vec![0; 8], &trailer), Err(StreamError::InvalidPayload(_))));
    let leader = leader_bytes(3, 0x0001, &image_leader_specific(0, 4, 2));
    let trailer = trailer_bytes(3, 0x0000, 8, &[2, 0]);
    assert!(matches!(build(&leader, vec![0; 8], &trailer), Err(StreamError::InvalidPayload(_))));
}

#[test]
fn returned_buffer_reaches_the_receiver() {
    let leader = leader_bytes(9, 0x4000, &55u64.to_le_bytes());
    let trailer = trailer_bytes(9, 0x0000, 2, &[1, 0, 0, 0]);
    let payload = build(&leader, vec![7, 8, 9], &trailer).unwrap();
    let (tx, rx) = std::sync::mpsc::channel::<Vec<u8>>();
    payload.return_buffer(&tx);
    assert_eq!(rx.recv().unwrap(), vec![7u8, 8, 9]);
}

#[test]
fn failed_status_message_names_the_status() {
    let leader = leader_bytes(3, 0x0001, &image_leader_specific(0, 4, 2));
    let discarded = trailer_bytes(3, 0xA100, 8, &[2, 0, 0, 0]);
    assert_eq!(
        build(&leader, vec![0; 8], &discarded).map(|_| ()),
        Err(StreamError::InvalidPayload("trailer status indicates error: DataDiscarded".to_string()))
    );
    let leader = leader_bytes(3, 0x0001, &image_leader_specific(0, 4, 2)[..20]);
    let trailer = trailer_bytes(3, 0x0000, 8, &[2, 0, 0, 0]);
    assert_eq!(
        build(&leader, vec![0; 8], &trailer).map(|_| ()),
        Err(StreamError::InvalidPayload("packet is broken: image leader is too short".to_string()))
    );
}

#[test]
fn short_payload_error_gives_both_sizes() {
    let leader = leader_bytes(3, 0x0001, &image_leader_specific(0, 4, 2));
    let overrun = trailer_bytes(3, 0xA101, 8, &[2, 0, 0, 0]);
    assert_eq!(
        build(&leader, vec![0; 8], &overrun),
        Err(StreamError::InvalidPayload("trailer status indicates error: DataOverrun".to_string()))
    );
    let too_long = trailer_bytes(3, 0x0000, 1024, &[2, 0, 0, 0]);
    assert_eq!(
        build(&leader, vec![0; 8], &too_long),
        Err(StreamError::InvalidPayload(
            "the actual read payload size is smaller than the size specified in the trailer: expected 1024, but got 8"
                .to_string()
        ))
    );
}

#[test]
fn decimal_writes_digits_without_leading_zeros() {
    assert_eq!(decimal(0), "0");
    assert_eq!(decimal(7), "7");
    assert_eq!(decimal(10), "10");
    assert_eq!(decimal(1024), "1024");
    assert_eq!(decimal(u64::MAX), u64::MAX.to_string());
}
