//! Host-side logic for USB3 Vision cameras: descriptor parsing, stream leader
//! and trailer decoding, payload assembly and the `GenApi` string node parser.

pub mod bytes;
pub mod usb3;
pub mod u3v;
pub mod payload;
pub mod errors;
pub mod stream;
pub mod stream_handle;
pub mod xml;
pub mod genapi;
pub mod camera;
