use cameleon::camera::{Camera, CameraInfo, DeviceControl, GenApiCtxt, NodeInterface, StreamInterface};
use cameleon::errors::{CameleonError, ControlError, StreamError};
use std::sync::mpsc::{channel, Receiver};

#[derive(Debug, Clone, Default, PartialEq)]
struct Ctrl {
    log: Vec<String>,
    fail_open: bool,
}

impl DeviceControl for Ctrl {
    fn open(&mut self) -> Result<(), ControlError> {
        self.log.push("ctrl.open".to_string());
        if self.fail_open {
            Err(ControlError::NotOpened)
        } else {
            Ok(())
        }
    }

    fn is_opened(&self) -> bool {
        true
    }

    fn read(&mut self, _address: u64, _buf: &mut [u8]) -> Result<(), ControlError> {
        Ok(())
    }

    fn write(&mut self, _address: u64, _data: &[u8]) -> Result<(), ControlError> {
        Ok(())
    }

    fn genapi(&mut self) -> Result<String, ControlError> {
        Ok("<RegisterDescription/>".to_string())
    }

    fn enable_streaming(&mut self) -> Result<(), ControlError> {
        self.log.push("enable_streaming".to_string());
        Ok(())
    }

    fn disable_streaming(&mut self) -> Result<(), ControlError> {
        self.log.push("disable_streaming".to_string());
        Ok(())
    }
}

#[derive(Debug, Clone, Default, PartialEq)]
struct Strm {
    opened: bool,
    fail_open: bool,
}

impl StreamInterface for Strm {
    type Stream = &'static str;
    type Generator = u32;

    fn open(&mut self) -> Result<(), StreamError> {
        if self.fail_open {
            return Err(StreamError::NoInterface);
        }
        self.opened = true;
        Ok(())
    }

    fn start_streaming<C: DeviceControl>(&self, _ctrl: &mut C, _payload_rx: Receiver<Vec<u8>>) -> Result<&'static str, StreamError> {
        Ok("stream")
    }

    fn start_generator<C: DeviceControl>(&self, _ctrl: &mut C, _payload_rx: Receiver<Vec<u8>>) -> Result<u32, StreamError> {
        Ok(7)
    }
}

#[derive(Debug, Clone, Default, PartialEq)]
struct Ctxt {
    log: Vec<String>,
    lookups: Vec<String>,
    missing: Vec<String>,
    other_interface: Vec<String>,
}

impl GenApiCtxt for Ctxt {
    fn clear_cache(&mut self) {
        self.log.push("clear_cache".to_string());
    }

    fn node_interface(&mut self, name: &str) -> Option<NodeInterface> {
        self.lookups.push(name.to_string());
        if self.missing.iter().any(|n| n == name) {
            None
        } else if self.other_interface.iter().any(|n| n == name) {
            Some(NodeInterface::Other)
        } else if name == "TLParamsLocked" {
            Some(NodeInterface::Integer)
        } else {
            Some(NodeInterface::Command)
        }
    }

    fn set_integer<C: DeviceControl>(&mut self, _ctrl: &mut C, name: &str, value: i64) -> Result<(), CameleonError> {
        self.log.push(format!("{name}={value}"));
        Ok(())
    }

    fn execute_command<C: DeviceControl>(&mut self, _ctrl: &mut C, name: &str) -> Result<(), CameleonError> {
        self.log.push(name.to_string());
        Ok(())
    }
}

#[derive(Debug, Clone, PartialEq)]
struct WrappedCtrl(Ctrl);

impl From<Ctrl> for WrappedCtrl {
    fn from(c: Ctrl) -> Self {
        WrappedCtrl(c)
    }
}

fn info() -> CameraInfo {
    CameraInfo { vendor_name: "Vendor".to_string(), model_name: "Model".to_string(), serial_number: "0001".to_string() }
}

fn camera(ctxt: Option<Ctxt>) -> Camera<Ctrl, Strm, Ctxt> {
    Camera::new(Ctrl::default(), Strm::default(), ctxt, info())
}

#[test]
fn info_is_known_without_opening() {
    let cam = camera(None);
    assert_eq!(cam.info(), &info());
}

#[test]
fn open_opens_control_then_stream() {
    let mut cam = camera(None);
    assert_eq!(cam.open(), Ok(()));
    assert_eq!(cam.ctrl.log, vec!["ctrl.open".to_string()]);
    assert!(cam.strm.opened);

    let mut failing = camera(None);
    failing.ctrl.fail_open = true;
    assert_eq!(failing.open(), Err(CameleonError::ControlError(ControlError::NotOpened)));
    assert!(!failing.strm.opened);

    let mut failing_stream = camera(None);
    failing_stream.strm.fail_open = true;
    assert_eq!(failing_stream.open(), Err(CameleonError::StreamError(StreamError::NoInterface)));
}

#[test]
fn streaming_needs_a_context() {
    let (_tx, rx) = channel::<Vec<u8>>();
    let mut cam = camera(None);
    assert!(cam.start_streaming(rx).is_err());
    let (_tx, rx) = channel::<Vec<u8>>();
    assert!(cam.start_generator(rx).is_err());
    assert_eq!(cam.stop_streaming(), Err(CameleonError::GenApiContextMissing));
    assert!(cam.params_ctxt().is_err());
}

#[test]
fn start_and_stop_streaming_drive_the_context() {
    let (_tx, rx) = channel::<Vec<u8>>();
    let mut cam = camera(Some(Ctxt::default()));
    assert_eq!(cam.start_streaming(rx), Ok("stream"));
    assert_eq!(cam.ctrl.log, vec!["enable_streaming".to_string()]);
    assert_eq!(
        cam.ctxt.as_ref().unwrap().log,
        vec!["TLParamsLocked=1".to_string(), "AcquisitionStart".to_string()]
    );
    assert_eq!(cam.close(), Ok(()));
    assert_eq!(cam.ctrl.log, vec!["enable_streaming".to_string(), "disable_streaming".to_string()]);
    assert_eq!(
        cam.ctxt.as_ref().unwrap().log,
        vec![
            "TLParamsLocked=1".to_string(),
            "AcquisitionStart".to_string(),
            "AcquisitionStop".to_string(),
            "TLParamsLocked=0".to_string(),
            "clear_cache".to_string(),
        ]
    );
    let (_tx, rx) = channel::<Vec<u8>>();
    assert_eq!(cam.start_generator(rx), Ok(7));
}

#[test]
fn params_ctxt_borrows_control_and_context() {
    let mut cam = camera(Some(Ctxt::default()));
    let p = cam.params_ctxt().unwrap();
    p.ctxt.log.push("touched".to_string());
    p.ctrl.log.push("touched".to_string());
    assert_eq!(cam.ctxt.unwrap().log, vec!["touched".to_string()]);
}

#[test]
fn set_context_and_conversions() {
    let cam: Camera<Ctrl, Strm, ()> = Camera::new(Ctrl::default(), Strm::default(), None, info());
    let cam = cam.set_context(Ctxt { log: vec!["loaded".to_string()], ..Ctxt::default() });
    assert_eq!(cam.ctxt.as_ref().unwrap().log, vec!["loaded".to_string()]);
    let converted: Camera<WrappedCtrl, Strm, Ctxt> = Camera::convert_from(cam.clone());
    assert_eq!(converted.ctrl, WrappedCtrl(Ctrl::default()));
    assert_eq!(converted.info(), &info());
    let into: Camera<WrappedCtrl, Strm, Ctxt> = cam.convert_into();
    assert_eq!(into.ctrl, converted.ctrl);
    assert_eq!(into.strm, converted.strm);
    assert_eq!(into.ctxt, converted.ctxt);
    assert_eq!(into.info(), converted.info());
    assert_eq!(into.ctxt.unwrap().log, vec!["loaded".to_string()]);
}

#[test]
fn close_without_context_succeeds_after_open() {
    let mut cam = camera(None);
    assert_eq!(cam.open(), Ok(()));
    assert_eq!(cam.close(), Ok(()));
    assert_eq!(cam.ctrl.log, vec!["ctrl.open".to_string()]);
}

#[test]
fn start_streaming_without_context_enables_streaming_first() {
    let (_tx, rx) = channel::<Vec<u8>>();
    let mut cam = camera(None);
    assert_eq!(cam.start_streaming(rx), Err(CameleonError::GenApiContextMissing));
    assert_eq!(cam.ctrl.log, vec!["enable_streaming".to_string()]);
}

#[test]
fn start_streaming_looks_each_node_up_first() {
    let (_tx, rx) = channel::<Vec<u8>>();
    let mut cam = camera(Some(Ctxt::default()));
    assert_eq!(cam.start_streaming(rx), Ok("stream"));
    assert_eq!(
        cam.ctxt.as_ref().unwrap().lookups,
        vec!["TLParamsLocked".to_string(), "AcquisitionStart".to_string()]
    );
    assert_eq!(cam.stop_streaming(), Ok(()));
    assert_eq!(
        cam.ctxt.as_ref().unwrap().lookups,
        vec![
            "TLParamsLocked".to_string(),
            "AcquisitionStart".to_string(),
            "AcquisitionStop".to_string(),
            "TLParamsLocked".to_string(),
        ]
    );
}

#[test]
fn start_streaming_with_missing_node_names_it() {
    let (_tx, rx) = channel::<Vec<u8>>();
    let ctxt = Ctxt { missing: vec!["TLParamsLocked".to_string()], ..Ctxt::default() };
    let mut cam = camera(Some(ctxt));
    assert_eq!(cam.start_streaming(rx), Err(CameleonError::InvalidGenApiXml("missing TLParamsLocked".to_string())));
    assert_eq!(cam.ctrl.log, vec!["enable_streaming".to_string()]);
    assert!(cam.ctxt.as_ref().unwrap().log.is_empty());

    let (_tx, rx) = channel::<Vec<u8>>();
    let ctxt = Ctxt { missing: vec!["AcquisitionStart".to_string()], ..Ctxt::default() };
    let mut cam = camera(Some(ctxt));
    assert_eq!(cam.start_generator(rx), Err(CameleonError::InvalidGenApiXml("missing AcquisitionStart".to_string())));
    assert_eq!(cam.ctxt.as_ref().unwrap().log, vec!["TLParamsLocked=1".to_string()]);
}

#[test]
fn start_streaming_with_node_of_other_interface_names_it() {
    let (_tx, rx) = channel::<Vec<u8>>();
    let ctxt = Ctxt { other_interface: vec!["AcquisitionStart".to_string()], ..Ctxt::default() };
    let mut cam = camera(Some(ctxt));
    assert_eq!(
        cam.start_streaming(rx),
        Err(CameleonError::InvalidGenApiXml("AcquisitionStart has invalid interface".to_string()))
    );
    assert_eq!(cam.ctxt.as_ref().unwrap().log, vec!["TLParamsLocked=1".to_string()]);
}

#[test]
fn stop_streaming_with_missing_node_stops_there() {
    let ctxt = Ctxt { missing: vec!["AcquisitionStop".to_string()], ..Ctxt::default() };
    let mut cam = camera(Some(ctxt));
    assert_eq!(cam.stop_streaming(), Err(CameleonError::InvalidGenApiXml("missing AcquisitionStop".to_string())));
    assert!(cam.ctrl.log.is_empty());
    assert!(cam.ctxt.as_ref().unwrap().log.is_empty());

    let ctxt = Ctxt { other_interface: vec!["TLParamsLocked".to_string()], ..Ctxt::default() };
    let mut cam = camera(Some(ctxt));
    assert_eq!(
        cam.stop_streaming(),
        Err(CameleonError::InvalidGenApiXml("TLParamsLocked has invalid interface".to_string()))
    );
    assert_eq!(cam.ctxt.as_ref().unwrap().log, vec!["AcquisitionStop".to_string()]);
    assert!(cam.ctrl.log.is_empty());
}

#[test]
fn info_stays_through_every_operation() {
    let mut cam = camera(Some(Ctxt::default()));
    assert_eq!(cam.open(), Ok(()));
    assert_eq!(cam.info(), &info());
    let (_tx, rx) = channel::<Vec<u8>>();
    assert_eq!(cam.start_streaming(rx), Ok("stream"));
    assert_eq!(cam.info(), &info());
    assert_eq!(cam.stop_streaming(), Ok(()));
    assert!(cam.params_ctxt().is_ok());
    assert_eq!(cam.close(), Ok(()));
    assert_eq!(cam.info(), &info());
    let missing = Ctxt { missing: vec!["AcquisitionStop".to_string()], ..Ctxt::default() };
    let mut failing = camera(Some(missing));
    assert!(failing.stop_streaming().is_err());
    assert_eq!(failing.info(), &info());
}
