use cameleon::camera::DeviceControl;
use cameleon::errors::{ControlError, StreamError};
use cameleon::payload::PayloadType;
use cameleon::stream_handle::{align_up, PayloadAssembler, StreamParams, StreamRegisterValues};
use std::time::Duration;

fn params(payload_size: usize, payload_count: usize, final1: usize, final2: usize) -> StreamParams {
    StreamParams::new(52, 36, payload_size, payload_count, final1, final2, Duration::from_millis(100))
}

struct Registers {
    memory: Vec<u8>,
    fail_at: Option<u64>,
}

impl Registers {
    fn put_u32(&mut self, address: usize, v: u32) {
        self.memory[address..address + 4].copy_from_slice(&v.to_le_bytes());
    }

    fn put_u64(&mut self, address: usize, v: u64) {
        self.memory[address..address + 8].copy_from_slice(&v.to_le_bytes());
    }

    fn with_sirm(capability: u64) -> Self {
        let mut regs = Registers { memory: vec![0; 0x1000], fail_at: None };
        regs.put_u32(0x01CC, 250); // maximum device response time
        regs.put_u64(0x01D8, 0x0400); // SBRM address
        regs.put_u64(0x0404, capability);
        regs.put_u64(0x0420, 0x0800); // SIRM address
        regs.put_u32(0x0818, 64); // leader size
        regs.put_u32(0x081C, 1024); // payload transfer size
        regs.put_u32(0x0820, 3); // payload transfer count
        regs.put_u32(0x0824, 512); // final transfer 1
        regs.put_u32(0x0828, 0); // final transfer 2
        regs.put_u32(0x082C, 32); // trailer size
        regs
    }
}

impl DeviceControl for Registers {
    fn open(&mut self) -> Result<(), ControlError> {
        Ok(())
    }

    fn is_opened(&self) -> bool {
        true
    }

    fn read(&mut self, address: u64, buf: &mut [u8]) -> Result<(), ControlError> {
        if self.fail_at == Some(address) {
            return Err(ControlError::Io("timeout".to_string()));
        }
        let a = address as usize;
        buf.copy_from_slice(&self.memory[a..a + buf.len()]);
        Ok(())
    }

    fn write(&mut self, _address: u64, _data: &[u8]) -> Result<(), ControlError> {
        Ok(())
    }

    fn genapi(&mut self) -> Result<String, ControlError> {
        Ok(String::new())
    }

    fn enable_streaming(&mut self) -> Result<(), ControlError> {
        Ok(())
    }

    fn disable_streaming(&mut self) -> Result<(), ControlError> {
        Ok(())
    }
}

#[test]
fn align_up_rounds_to_packets() {
    assert_eq!(align_up(0, 512), 0);
    assert_eq!(align_up(1, 512), 512);
    assert_eq!(align_up(512, 512), 512);
    assert_eq!(align_up(513, 512), 1024);
    assert_eq!(align_up(1000, 1024), 1024);
    assert_eq!(align_up(7, 1), 7);
}

#[test]
fn maximum_payload_size_sums_transfers() {
    assert_eq!(params(1024, 3, 512, 100).maximum_payload_size(), 3684);
    assert_eq!(params(0, 0, 0, 0).maximum_payload_size(), 0);
}

#[test]
fn new_keeps_fields() {
    let p = params(1024, 3, 512, 100);
    assert_eq!(p.leader_size, 52);
    assert_eq!(p.trailer_size, 36);
    assert_eq!(p.payload_size, 1024);
    assert_eq!(p.payload_count, 3);
    assert_eq!(p.payload_final1_size, 512);
    assert_eq!(p.payload_final2_size, 100);
    assert_eq!(p.timeout, Duration::from_millis(100));
}

#[test]
fn transfer_requests_are_aligned_and_skip_empty_finals() {
    assert_eq!(params(1000, 2, 0, 10).transfer_requests(512), vec![512, 1024, 1024, 512, 512]);
    assert_eq!(params(1024, 1, 300, 0).transfer_requests(1024), vec![1024, 1024, 1024, 1024]);
    assert_eq!(params(0, 0, 0, 0).transfer_requests(512), vec![512, 512]);
}

#[test]
fn from_control_reads_sirm() {
    let mut regs = Registers::with_sirm(1);
    let p = StreamParams::from_control(&mut regs).unwrap();
    assert_eq!(p.leader_size, 64);
    assert_eq!(p.trailer_size, 32);
    assert_eq!(p.payload_size, 1024);
    assert_eq!(p.payload_count, 3);
    assert_eq!(p.payload_final1_size, 512);
    assert_eq!(p.payload_final2_size, 0);
    assert_eq!(p.timeout, Duration::from_millis(250));
}

#[test]
fn from_control_without_sirm() {
    let mut regs = Registers::with_sirm(0);
    assert_eq!(
        StreamParams::from_control(&mut regs).map(|_| ()),
        Err(ControlError::InvalidDevice("the U3V device doesn't have `SIRM`".to_string()))
    );
}

#[test]
fn from_control_passes_on_read_errors() {
    let mut regs = Registers::with_sirm(1);
    regs.fail_at = Some(0x0820);
    assert_eq!(StreamParams::from_control(&mut regs).map(|_| ()), Err(ControlError::Io("timeout".to_string())));
}

#[test]
fn assembler_collects_transfers_in_order() {
    let p = params(4, 2, 3, 0);
    let mut assembler = PayloadAssembler::new(&p, None, None);
    assert_eq!(assembler.next_transfer_size(), Some(4));
    assembler = assembler.push_transfer(&[1, 2, 3, 4, 99]).unwrap();
    assert_eq!(assembler.next_transfer_size(), Some(4));
    assembler = assembler.push_transfer(&[5, 6]).unwrap();
    assert_eq!(assembler.next_transfer_size(), Some(3));
    assert!(!assembler.is_complete());
    assembler = assembler.push_transfer(&[7, 8, 9]).unwrap();
    assert!(assembler.is_complete());
    assert_eq!(assembler.next_transfer_size(), None);
    assert_eq!(assembler.into_buffer(), vec![1, 2, 3, 4, 5, 6, 7, 8, 9, 0, 0]);
}

#[test]
fn assembler_prepares_its_buffer() {
    let p = params(4, 1, 0, 2);
    assert_eq!(PayloadAssembler::new(&p, None, Some(vec![9; 3])).into_buffer(), vec![9, 9, 9]);
    assert_eq!(PayloadAssembler::new(&p, Some(vec![7; 8]), Some(vec![9; 3])).into_buffer(), vec![7; 6]);
    assert_eq!(PayloadAssembler::new(&p, Some(vec![7; 2]), None).into_buffer(), vec![7, 7, 0, 0, 0, 0]);
    assert_eq!(PayloadAssembler::new(&p, None, None).into_buffer(), vec![0; 6]);
}

#[test]
fn assembler_overflow_is_an_error() {
    let p = params(4, 2, 0, 0);
    let assembler = PayloadAssembler::new(&p, None, Some(vec![0; 5]));
    let assembler = assembler.push_transfer(&[1, 2, 3, 4]).unwrap();
    assert!(matches!(assembler.push_transfer(&[5, 6, 7, 8]), Err(StreamError::InvalidPayload(_))));
}

#[test]
fn assembler_finish_builds_payload() {
    let p = params(4, 1, 0, 0);
    let assembler = PayloadAssembler::new(&p, None, None).push_transfer(&[1, 2, 3, 4]).unwrap();
    let mut leader = vec![0x55, 0x33, 0x56, 0x4C, 0, 0, 28, 0];
    leader.extend_from_slice(&11u64.to_le_bytes());
    leader.extend_from_slice(&[0, 0, 0x00, 0x40]);
    leader.extend_from_slice(&5u64.to_le_bytes());
    let mut trailer = vec![0x55, 0x33, 0x56, 0x54, 0, 0, 32, 0];
    trailer.extend_from_slice(&11u64.to_le_bytes());
    trailer.extend_from_slice(&[0, 0, 0, 0]);
    trailer.extend_from_slice(&3u64.to_le_bytes());
    trailer.extend_from_slice(&[0, 0, 0, 0]);
    let payload = assembler.finish(&leader, &trailer).unwrap();
    assert_eq!(payload.id(), 11);
    assert_eq!(payload.payload_type(), PayloadType::Chunk);
    assert_eq!(payload.payload(), &[1u8, 2, 3][..]);
    let assembler = PayloadAssembler::new(&p, None, None);
    assert!(matches!(assembler.finish(&leader[..10], &trailer), Err(StreamError::Device(_))));
}

#[test]
fn check_sirm_reads_capability_bit() {
    assert_eq!(StreamParams::check_sirm(1), Ok(()));
    assert_eq!(StreamParams::check_sirm(0xFF), Ok(()));
    assert_eq!(
        StreamParams::check_sirm(2),
        Err(ControlError::InvalidDevice("the U3V device doesn't have `SIRM`".to_string()))
    );
}

#[test]
fn from_register_values_copies_sizes() {
    let values = StreamRegisterValues {
        maximum_leader_size: 1,
        maximum_trailer_size: 2,
        payload_transfer_size: 3,
        payload_transfer_count: 4,
        payload_final_transfer1_size: 5,
        payload_final_transfer2_size: 6,
        maximum_device_response_time: 7,
    };
    let p = StreamParams::from_register_values(&values);
    assert_eq!(
        (p.leader_size, p.trailer_size, p.payload_size, p.payload_count, p.payload_final1_size, p.payload_final2_size),
        (1, 2, 3, 4, 5, 6)
    );
    assert_eq!(p.timeout, Duration::from_millis(7));
}

#[test]
fn default_params_are_zero() {
    let p = StreamParams::default();
    assert_eq!(p.maximum_payload_size(), 0);
    assert_eq!((p.leader_size, p.trailer_size, p.payload_count), (0, 0, 0));
    assert_eq!(p.timeout, Duration::ZERO);
}

#[test]
fn assembler_overflow_names_the_stage() {
    let p = params(4, 1, 3, 0);
    let assembler = PayloadAssembler::new(&p, None, Some(vec![0; 2]));
    assert_eq!(
        assembler.push_transfer(&[1, 2, 3]).map(|_| ()),
        Err(StreamError::InvalidPayload("payload buffer overflow while copying full chunks".to_string()))
    );
    let assembler = PayloadAssembler::new(&p, None, Some(vec![0; 5])).push_transfer(&[1, 2, 3, 4]).unwrap();
    assert_eq!(
        assembler.push_transfer(&[5, 6, 7]).map(|_| ()),
        Err(StreamError::InvalidPayload("payload buffer overflow while copying final1".to_string()))
    );
}

#[test]
fn register_address_wraps() {
    assert_eq!(cameleon::stream_handle::register_address(0x400, 0x20), 0x420);
    assert_eq!(cameleon::stream_handle::register_address(u64::MAX, 0x4), 3);
}

#[test]
fn params_from_registers_checks_capability() {
    let values = StreamRegisterValues {
        maximum_leader_size: 64,
        maximum_trailer_size: 32,
        payload_transfer_size: 1024,
        payload_transfer_count: 3,
        payload_final_transfer1_size: 512,
        payload_final_transfer2_size: 0,
        maximum_device_response_time: 250,
    };
    let p = StreamParams::params_from_registers(1, &values).unwrap();
    assert_eq!((p.leader_size, p.payload_count, p.timeout), (64, 3, Duration::from_millis(250)));
    assert_eq!(
        StreamParams::params_from_registers(0, &values).map(|_| ()),
        Err(ControlError::InvalidDevice("the U3V device doesn't have `SIRM`".to_string()))
    );
}

#[test]
fn empty_transfers_need_no_packet_size() {
    assert_eq!(align_up(0, 0), 0);
    let empty = StreamParams::new(0, 0, 0, 5, 0, 0, Duration::from_millis(1));
    assert_eq!(empty.transfer_requests(0), vec![0, 0, 0, 0, 0, 0, 0]);
    assert_eq!(align_up(usize::MAX, 1), usize::MAX);
}
