# cameleon

Host-side library for USB3 Vision cameras, verified with Verus.

- `src/` is the verified library: the USB3 Vision descriptor handling
  (`usb3` for devices enumerated through `libusb`, `u3v` for devices
  enumerated through `nusb`), the stream protocol's leaders and trailers
  (`stream`), the stream parameters, transfer planning, payload assembly and
  payload building (`stream_handle`), payloads (`payload`), the camera
  driver (`camera`), and the `GenApi` XML reader (`xml`, `genapi`).
- `app/` is the host side that Verus does not see: USB enumeration and bulk
  I/O with `nusb` and `rusb`, the asynchronous payload stream, and error
  types implementing `std::error::Error`.
- `tests/` runs the library on concrete inputs.
