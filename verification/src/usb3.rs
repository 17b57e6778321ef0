//! Descriptor handling for USB3 Vision devices enumerated through `libusb`.
//!
//! The host stack hands the descriptors over as plain values (see
//! [`ConfigDesc`]); this module finds the USB3 Vision interface association
//! descriptor, picks the control interface and decodes the device info
//! descriptor stored next to it.

use vstd::prelude::*;
use crate::bytes::{le_u16, read_u16_le};

verus! {

pub const MISCELLANEOUS_CLASS: u8 = 0xEF;
pub const DEVICE_SUBCLASS: u8 = 0x02;
pub const DEVICE_PROTOCOL: u8 = 0x01;
pub const IAD_DESC_TYPE: u8 = 0x0B;
pub const IAD_FUNCTION_PROTOCOL: u8 = 0x00;
pub const USB3V_SUBCLASS: u8 = 0x05;
pub const CONTROL_IFACE_PROTOCOL: u8 = 0x00;

/// Errors of the descriptor handling.
#[derive(Debug, Clone, PartialEq, Eq)]
pub enum Error {
    /// An error reported by the USB stack, with its message.
    LibUsb(String),
    /// The device does not follow the USB3 Vision specification.
    InvalidDevice,
}

/// Interface Association Descriptor.
#[derive(Debug, Clone, Copy, PartialEq, Eq, Structural)]
pub struct IAD {
    pub length: u8,
    pub descriptor_type: u8,
    pub first_interface: u8,
    pub interface_count: u8,
    pub function_class: u8,
    pub function_subclass: u8,
    pub function_protocol: u8,
    pub function: u8,
}

/// Outcome of walking a buffer of concatenated descriptors.
pub enum IadScan {
    Found(IAD),
    Missing,
    /// The walk would read past the end of the buffer.
    Fault,
}

pub open spec fn iad_at(s: Seq<u8>, read: int) -> IAD {
    IAD {
        length: s[read],
        descriptor_type: s[read + 1],
        first_interface: s[read + 2],
        interface_count: s[read + 3],
        function_class: s[read + 4],
        function_subclass: s[read + 5],
        function_protocol: s[read + 6],
        function: s[read + 7],
    }
}

/// Walks the descriptors in `s` from `read`: a length of 0 ends the walk, a
/// length of 1 steps one byte, other descriptors are skipped by their length
/// until one of type `IAD_DESC_TYPE` is found.
pub open spec fn iad_walk(s: Seq<u8>, read: int) -> IadScan
    decreases (if read < s.len() { s.len() - read } else { 0 }),
{
    if read < 0 || read >= s.len() {
        IadScan::Missing
    } else if s[read] == 0 {
        IadScan::Missing
    } else if s[read] == 1 {
        iad_walk(s, read + 1)
    } else if read + 1 >= s.len() {
        IadScan::Fault
    } else if s[read + 1] != IAD_DESC_TYPE {
        iad_walk(s, read + s[read])
    } else if read + 8 > s.len() {
        IadScan::Fault
    } else {
        IadScan::Found(iad_at(s, read))
    }
}

pub open spec fn scan_found(x: IadScan) -> Option<IAD> {
    match x {
        IadScan::Found(i) => Some(i),
        _ => None,
    }
}

pub open spec fn spec_is_u3v_iad(iad: IAD) -> bool {
    &&& iad.function_class == MISCELLANEOUS_CLASS
    &&& iad.function_subclass == USB3V_SUBCLASS
    &&& iad.function_protocol == IAD_FUNCTION_PROTOCOL
}

impl IAD {
    /// Whether walking `bytes` for an association stays inside the buffer,
    /// which [`IAD::from_bytes`] needs.
    pub fn walk_in_bounds(bytes: &[u8]) -> (r: bool)
        requires
            bytes@.len() + 256 <= usize::MAX,
        ensures
            r == !(iad_walk(bytes@, 0) is Fault),
    {
        let mut read: usize = 0;
        let len = bytes.len();
        while read < len
            invariant
                len == bytes@.len(),
                len + 256 <= usize::MAX,
                read <= len + 255,
                iad_walk(bytes@, 0) == iad_walk(bytes@, read as int),
            decreases len + 256 - read,
        {
            let desc_length = bytes[read];
            if desc_length == 0 {
                return true;
            } else if desc_length == 1 {
                read += 1;
                continue;
            }
            if read + 1 >= len {
                return false;
            }
            if bytes[read + 1] != IAD_DESC_TYPE {
                read += desc_length as usize;
                continue;
            }
            return read + 8 <= len;
        }
        true
    }

    /// Returns the first Interface Association Descriptor in `bytes`.
    pub fn from_bytes(bytes: &[u8]) -> (r: Option<IAD>)
        requires
            !(iad_walk(bytes@, 0) is Fault),
            bytes@.len() + 256 <= usize::MAX,
        ensures
            r == scan_found(iad_walk(bytes@, 0)),
    {
        let mut read: usize = 0;
        let len = bytes.len();
        while read < len
            invariant
                len == bytes@.len(),
                len + 256 <= usize::MAX,
                read <= len + 255,
                iad_walk(bytes@, 0) == iad_walk(bytes@, read as int),
                !(iad_walk(bytes@, 0) is Fault),
            decreases len + 256 - read,
        {
            let desc_length = bytes[read];
            if desc_length == 0 {
                return None;
            } else if desc_length == 1 {
                read += desc_length as usize;
                continue;
            }
            let descriptor_type = bytes[read + 1];
            if descriptor_type != IAD_DESC_TYPE {
                read += desc_length as usize;
                continue;
            }
            let first_interface = bytes[read + 2];
            let interface_count = bytes[read + 3];
            let function_class = bytes[read + 4];
            let function_subclass = bytes[read + 5];
            let function_protocol = bytes[read + 6];
            let function = bytes[read + 7];
            return Some(
                IAD {
                    length: desc_length,
                    descriptor_type,
                    first_interface,
                    interface_count,
                    function_class,
                    function_subclass,
                    function_protocol,
                    function,
                },
            );
        }
        None
    }
}


/// The USB3 Vision device info descriptor.
#[derive(Debug, Clone, Copy, PartialEq, Eq, Structural)]
pub struct DeviceInfoDescriptor {
    pub length: u8,
    pub descriptor_type: u8,
    pub descriptor_subtype: u8,
    pub gen_cp_version_major: u16,
    pub gen_cp_version_minor: u16,
    pub u3v_version_major: u16,
    pub u3v_version_minor: u16,
    pub guid_idx: u8,
    pub vendor_name_idx: u8,
    pub model_name_idx: u8,
    pub family_name_idx: u8,
    pub device_version_idx: u8,
    pub manufacture_info_idx: u8,
    pub serial_number_idx: u8,
    pub user_defined_name_idx: u8,
    pub supported_speed_mask: u8,
}

pub const MINIMUM_DESC_LENGTH: u8 = 20;
pub const DEVICE_INFO_DESCRIPTOR_TYPE: u8 = 0x24;
pub const DEVICE_INFO_DESCRIPTOR_SUBTYPE: u8 = 0x1;

/// Whether `s` holds a device info descriptor: long enough, and its length,
/// type and subtype fields as the specification sets them.
pub open spec fn device_info_descriptor_ok(s: Seq<u8>) -> bool {
    &&& s.len() >= MINIMUM_DESC_LENGTH
    &&& s[0] >= MINIMUM_DESC_LENGTH
    &&& s[1] == DEVICE_INFO_DESCRIPTOR_TYPE
    &&& s[2] == DEVICE_INFO_DESCRIPTOR_SUBTYPE
}

/// The fields of the device info descriptor in `s`, little endian.
pub open spec fn device_info_descriptor_fields(s: Seq<u8>) -> DeviceInfoDescriptor {
    DeviceInfoDescriptor {
        length: s[0],
        descriptor_type: s[1],
        descriptor_subtype: s[2],
        gen_cp_version_minor: le_u16(s, 3) as u16,
        gen_cp_version_major: le_u16(s, 5) as u16,
        u3v_version_minor: le_u16(s, 7) as u16,
        u3v_version_major: le_u16(s, 9) as u16,
        guid_idx: s[11],
        vendor_name_idx: s[12],
        model_name_idx: s[13],
        family_name_idx: s[14],
        device_version_idx: s[15],
        manufacture_info_idx: s[16],
        serial_number_idx: s[17],
        user_defined_name_idx: s[18],
        supported_speed_mask: s[19],
    }
}

/// Bus speeds a device can declare.
#[derive(Debug, Clone, Copy, PartialEq, Eq, Structural)]
pub enum SupportedSpeed {
    LowSpeed,
    FullSpeed,
    HighSpeed,
    SuperSpeed,
    SuperSpeedPlus,
}

/// The highest speed whose bit is set in `mask` (bit 0: low speed, ...,
/// bit 4: super speed plus); none when no such bit is set.
pub open spec fn speed_of_mask(mask: u8) -> Option<SupportedSpeed> {
    if (mask / 16) % 2 == 1 {
        Some(SupportedSpeed::SuperSpeedPlus)
    } else if (mask / 8) % 2 == 1 {
        Some(SupportedSpeed::SuperSpeed)
    } else if (mask / 4) % 2 == 1 {
        Some(SupportedSpeed::HighSpeed)
    } else if (mask / 2) % 2 == 1 {
        Some(SupportedSpeed::FullSpeed)
    } else if mask % 2 == 1 {
        Some(SupportedSpeed::LowSpeed)
    } else {
        None
    }
}

/// Information of a device, read through its device info descriptor.
#[derive(Debug, Clone, PartialEq, Eq)]
pub struct DeviceInfo {
    pub gen_cp_version_major: u16,
    pub gen_cp_version_minor: u16,
    pub u3v_version_major: u16,
    pub u3v_version_minor: u16,
    pub guid: String,
    pub vendor_name: String,
    pub model_name: String,
    pub family_name: Option<String>,
    pub device_version: String,
    pub manufacture_info: String,
    pub serial_number: String,
    pub user_defined_name: Option<String>,
    pub supported_speed: SupportedSpeed,
}

/// `s` is a string that `read` may return for string descriptor `idx`.
pub open spec fn read_gives<F: Fn(u8) -> Result<String, Error>>(read: F, idx: u8, s: String) -> bool {
    read.ensures((idx,), Ok::<String, Error>(s))
}

/// An optional string: none for index 0, else a string `read` may return.
pub open spec fn optional_read_gives<F: Fn(u8) -> Result<String, Error>>(
    read: F,
    idx: u8,
    s: Option<String>,
) -> bool {
    if idx == 0 {
        s is None
    } else {
        s matches Some(t) && read_gives(read, idx, t)
    }
}

impl DeviceInfoDescriptor {
    /// Decodes the device info descriptor at the start of `bytes`.
    pub fn from_bytes(bytes: &[u8]) -> (r: Result<DeviceInfoDescriptor, Error>)
        ensures
            device_info_descriptor_ok(bytes@) ==> r == Ok::<DeviceInfoDescriptor, Error>(
                device_info_descriptor_fields(bytes@),
            ),
            !device_info_descriptor_ok(bytes@) ==> r == Err::<DeviceInfoDescriptor, Error>(
                Error::InvalidDevice,
            ),
    {
        if bytes.len() < MINIMUM_DESC_LENGTH as usize {
            return Err(Error::InvalidDevice);
        }
        let length = bytes[0];
        let descriptor_type = bytes[1];
        let descriptor_subtype = bytes[2];
        if length < MINIMUM_DESC_LENGTH || descriptor_type != DEVICE_INFO_DESCRIPTOR_TYPE
            || descriptor_subtype != DEVICE_INFO_DESCRIPTOR_SUBTYPE {
            return Err(Error::InvalidDevice);
        }
        let gen_cp_version_minor = read_u16_le(bytes, 3);
        let gen_cp_version_major = read_u16_le(bytes, 5);
        let u3v_version_minor = read_u16_le(bytes, 7);
        let u3v_version_major = read_u16_le(bytes, 9);
        Ok(
            DeviceInfoDescriptor {
                length,
                descriptor_type,
                descriptor_subtype,
                gen_cp_version_major,
                gen_cp_version_minor,
                u3v_version_major,
                u3v_version_minor,
                guid_idx: bytes[11],
                vendor_name_idx: bytes[12],
                model_name_idx: bytes[13],
                family_name_idx: bytes[14],
                device_version_idx: bytes[15],
                manufacture_info_idx: bytes[16],
                serial_number_idx: bytes[17],
                user_defined_name_idx: bytes[18],
                supported_speed_mask: bytes[19],
            },
        )
    }

    /// The highest speed the descriptor declares.
    pub fn supported_speed(&self) -> (r: Result<SupportedSpeed, Error>)
        ensures
            r == (match speed_of_mask(self.supported_speed_mask) {
                Some(sp) => Ok::<SupportedSpeed, Error>(sp),
                None => Err::<SupportedSpeed, Error>(Error::InvalidDevice),
            }),
    {
        let mask = self.supported_speed_mask;
        if mask / 16 % 2 == 1 {
            Ok(SupportedSpeed::SuperSpeedPlus)
        } else if mask / 8 % 2 == 1 {
            Ok(SupportedSpeed::SuperSpeed)
        } else if mask / 4 % 2 == 1 {
            Ok(SupportedSpeed::HighSpeed)
        } else if mask / 2 % 2 == 1 {
            Ok(SupportedSpeed::FullSpeed)
        } else if mask % 2 == 1 {
            Ok(SupportedSpeed::LowSpeed)
        } else {
            Err(Error::InvalidDevice)
        }
    }

    /// Builds the device information, reading each string descriptor the
    /// descriptor names through `read`, in the order of the fields; the family
    /// name and the user defined name are not read when their index is 0.
    pub fn interpret<F: Fn(u8) -> Result<String, Error>>(&self, read: F) -> (r: Result<DeviceInfo, Error>)
        requires
            forall|idx: u8| #[trigger] read.requires((idx,)),
        ensures
            r matches Ok(info) ==> {
                &&& info.gen_cp_version_major == self.gen_cp_version_major
                &&& info.gen_cp_version_minor == self.gen_cp_version_minor
                &&& info.u3v_version_major == self.u3v_version_major
                &&& info.u3v_version_minor == self.u3v_version_minor
                &&& read_gives(read, self.guid_idx, info.guid)
                &&& read_gives(read, self.vendor_name_idx, info.vendor_name)
                &&& read_gives(read, self.model_name_idx, info.model_name)
                &&& optional_read_gives(read, self.family_name_idx, info.family_name)
                &&& read_gives(read, self.device_version_idx, info.device_version)
                &&& read_gives(read, self.manufacture_info_idx, info.manufacture_info)
                &&& read_gives(read, self.serial_number_idx, info.serial_number)
                &&& optional_read_gives(read, self.user_defined_name_idx, info.user_defined_name)
                &&& speed_of_mask(self.supported_speed_mask) == Some(info.supported_speed)
            },
            speed_of_mask(self.supported_speed_mask) is None ==> r is Err,
            (forall|idx: u8, res: Result<String, Error>| #[trigger] read.ensures((idx,), res) ==> res is Ok)
                && speed_of_mask(self.supported_speed_mask) is Some ==> r is Ok,
            r matches Err(e) ==> (exists|idx: u8| #[trigger] read.ensures((idx,), Err::<String, Error>(e)))
                || (e == Error::InvalidDevice && speed_of_mask(self.supported_speed_mask) is None),
    {
        let guid = read(self.guid_idx)?;
        let vendor_name = read(self.vendor_name_idx)?;
        let model_name = read(self.model_name_idx)?;
        let family_name = if self.family_name_idx == 0 {
            None
        } else {
            Some(read(self.family_name_idx)?)
        };
        let device_version = read(self.device_version_idx)?;
        let manufacture_info = read(self.manufacture_info_idx)?;
        let serial_number = read(self.serial_number_idx)?;
        let user_defined_name = if self.user_defined_name_idx == 0 {
            None
        } else {
            Some(read(self.user_defined_name_idx)?)
        };
        let supported_speed = self.supported_speed()?;
        Ok(
            DeviceInfo {
                gen_cp_version_major: self.gen_cp_version_major,
                gen_cp_version_minor: self.gen_cp_version_minor,
                u3v_version_major: self.u3v_version_major,
                u3v_version_minor: self.u3v_version_minor,
                guid,
                vendor_name,
                model_name,
                family_name,
                device_version,
                manufacture_info,
                serial_number,
                user_defined_name,
                supported_speed,
            },
        )
    }
}


/// Endpoints of the control interface.
#[derive(Clone, Debug, PartialEq, Eq, Structural)]
pub struct ControlIfaceInfo {
    pub iface_number: u8,
    pub bulk_in_ep: u8,
    pub bulk_out_ep: u8,
}

/// Direction of an endpoint.
#[derive(Debug, Clone, Copy, PartialEq, Eq, Structural)]
pub enum Direction {
    In,
    Out,
}

/// Transfer type of an endpoint.
#[derive(Debug, Clone, Copy, PartialEq, Eq, Structural)]
pub enum TransferType {
    Control,
    Isochronous,
    Bulk,
    Interrupt,
}

/// An endpoint descriptor, with the class specific bytes that follow it.
#[derive(Debug, Clone)]
pub struct EndpointDesc {
    pub address: u8,
    pub direction: Direction,
    pub transfer_type: TransferType,
    pub extra: Option<Vec<u8>>,
}

/// An interface descriptor (one alternate setting).
#[derive(Debug, Clone)]
pub struct InterfaceDesc {
    pub class_code: u8,
    pub sub_class_code: u8,
    pub protocol_code: u8,
    pub endpoints: Vec<EndpointDesc>,
    pub extra: Option<Vec<u8>>,
}

/// An interface with its alternate settings.
#[derive(Debug, Clone)]
pub struct Interface {
    pub number: u8,
    pub descriptors: Vec<InterfaceDesc>,
}

/// A configuration descriptor.
#[derive(Debug, Clone)]
pub struct ConfigDesc {
    pub number: u8,
    pub interfaces: Vec<Interface>,
    pub extra: Option<Vec<u8>>,
}

/// The USB3 Vision association in a block of class specific bytes, if any.
pub open spec fn extra_scan(extra: Option<Vec<u8>>) -> IadScan {
    match extra {
        None => IadScan::Missing,
        Some(b) => if b@.len() + 256 > usize::MAX {
            IadScan::Fault
        } else {
            match iad_walk(b@, 0) {
                IadScan::Found(i) => if spec_is_u3v_iad(i) {
                    IadScan::Found(i)
                } else {
                    IadScan::Missing
                },
                other => other,
            }
        },
    }
}

/// The first of two searches that does not come up empty.
pub open spec fn scan_then(a: IadScan, b: IadScan) -> IadScan {
    if a is Missing {
        b
    } else {
        a
    }
}

pub open spec fn endpoints_scan(eps: Seq<EndpointDesc>, i: int) -> IadScan
    decreases eps.len() - i,
{
    if i < 0 || i >= eps.len() {
        IadScan::Missing
    } else {
        scan_then(extra_scan(eps[i].extra), endpoints_scan(eps, i + 1))
    }
}

pub open spec fn interface_desc_scan(d: InterfaceDesc) -> IadScan {
    scan_then(extra_scan(d.extra), endpoints_scan(d.endpoints@, 0))
}

pub open spec fn alt_settings_scan(ds: Seq<InterfaceDesc>, i: int) -> IadScan
    decreases ds.len() - i,
{
    if i < 0 || i >= ds.len() {
        IadScan::Missing
    } else {
        scan_then(interface_desc_scan(ds[i]), alt_settings_scan(ds, i + 1))
    }
}

pub open spec fn interfaces_scan(ifs: Seq<Interface>, i: int) -> IadScan
    decreases ifs.len() - i,
{
    if i < 0 || i >= ifs.len() {
        IadScan::Missing
    } else {
        scan_then(alt_settings_scan(ifs[i].descriptors@, 0), interfaces_scan(ifs, i + 1))
    }
}

/// Searches a configuration: its own class specific bytes first, then each
/// interface, alternate setting and endpoint in order.
pub open spec fn config_scan(c: ConfigDesc) -> IadScan {
    scan_then(extra_scan(c.extra), interfaces_scan(c.interfaces@, 0))
}

/// The first configuration, by index, that holds a USB3 Vision association.
pub open spec fn configs_scan(cs: Seq<ConfigDesc>, i: int) -> Option<(IAD, int)>
    decreases cs.len() - i,
{
    if i < 0 || i >= cs.len() {
        None
    } else {
        match config_scan(cs[i]) {
            IadScan::Found(iad) => Some((iad, i)),
            _ => configs_scan(cs, i + 1),
        }
    }
}

/// No configuration up to the first one that holds an association makes the
/// search read past a buffer.
pub open spec fn configs_scan_ok(cs: Seq<ConfigDesc>, i: int) -> bool
    decreases cs.len() - i,
{
    if i < 0 || i >= cs.len() {
        true
    } else {
        match config_scan(cs[i]) {
            IadScan::Fault => false,
            IadScan::Found(_) => true,
            IadScan::Missing => configs_scan_ok(cs, i + 1),
        }
    }
}

/// Whether a search outcome, if it found an association, found a USB3
/// Vision one.
pub open spec fn finds_u3v(x: IadScan) -> bool {
    x matches IadScan::Found(i) ==> spec_is_u3v_iad(i)
}

proof fn lemma_endpoints_scan_u3v(eps: Seq<EndpointDesc>, i: int)
    ensures
        finds_u3v(endpoints_scan(eps, i)),
    decreases eps.len() - i,
{
    if 0 <= i < eps.len() {
        lemma_endpoints_scan_u3v(eps, i + 1);
    }
}

proof fn lemma_alt_settings_scan_u3v(ds: Seq<InterfaceDesc>, i: int)
    ensures
        finds_u3v(alt_settings_scan(ds, i)),
    decreases ds.len() - i,
{
    if 0 <= i < ds.len() {
        lemma_endpoints_scan_u3v(ds[i].endpoints@, 0);
        lemma_alt_settings_scan_u3v(ds, i + 1);
    }
}

proof fn lemma_interfaces_scan_u3v(ifs: Seq<Interface>, i: int)
    ensures
        finds_u3v(interfaces_scan(ifs, i)),
    decreases ifs.len() - i,
{
    if 0 <= i < ifs.len() {
        lemma_alt_settings_scan_u3v(ifs[i].descriptors@, 0);
        lemma_interfaces_scan_u3v(ifs, i + 1);
    }
}

proof fn lemma_configs_scan_u3v(cs: Seq<ConfigDesc>, i: int)
    ensures
        configs_scan(cs, i) matches Some((iad, k)) ==> spec_is_u3v_iad(iad) && i <= k < cs.len(),
    decreases cs.len() - i,
{
    if 0 <= i < cs.len() {
        lemma_interfaces_scan_u3v(cs[i].interfaces@, 0);
        lemma_configs_scan_u3v(cs, i + 1);
    }
}

/// The association the search settles on is a USB3 Vision one, found in one
/// of the configurations searched; so is the association of every device
/// builder.
pub proof fn lemma_found_iad_is_u3v(configs: Seq<ConfigDesc>)
    ensures
        configs_scan(configs, 0) matches Some((iad, k)) ==> spec_is_u3v_iad(iad) && 0 <= k
            < configs.len(),
{
    lemma_configs_scan_u3v(configs, 0);
}

pub open spec fn is_u3v_device_class(class: u8, subclass: u8, protocol: u8) -> bool {
    class == MISCELLANEOUS_CLASS && subclass == DEVICE_SUBCLASS && protocol == DEVICE_PROTOCOL
}

/// The endpoints of a USB3 Vision control interface: two bulk endpoints, one
/// in each direction.
pub open spec fn control_iface_of(iface_number: u8, d: InterfaceDesc) -> Option<ControlIfaceInfo> {
    if d.class_code != MISCELLANEOUS_CLASS || d.sub_class_code != USB3V_SUBCLASS
        || d.protocol_code != CONTROL_IFACE_PROTOCOL || d.endpoints@.len() != 2 {
        None
    } else {
        let ep0 = d.endpoints@[0];
        let ep1 = d.endpoints@[1];
        if ep0.transfer_type != TransferType::Bulk || ep1.transfer_type != TransferType::Bulk {
            None
        } else if ep0.direction == Direction::In && ep1.direction == Direction::Out {
            Some(ControlIfaceInfo { iface_number, bulk_in_ep: ep0.address, bulk_out_ep: ep1.address })
        } else if ep0.direction == Direction::Out && ep1.direction == Direction::In {
            Some(ControlIfaceInfo { iface_number, bulk_in_ep: ep1.address, bulk_out_ep: ep0.address })
        } else {
            None
        }
    }
}

/// Index of the first interface numbered `number`.
pub open spec fn first_interface_numbered(ifs: Seq<Interface>, number: u8, i: int) -> Option<int>
    decreases ifs.len() - i,
{
    if i < 0 || i >= ifs.len() {
        None
    } else if ifs[i].number == number {
        Some(i)
    } else {
        first_interface_numbered(ifs, number, i + 1)
    }
}

/// What building a device from `config` and its association yields: the
/// control interface (the first interface numbered as the association's first
/// interface, its first alternate setting) and the device info descriptor in
/// that setting's class specific bytes.
pub open spec fn build_result(config: ConfigDesc, iad: IAD) -> Result<(ControlIfaceInfo, DeviceInfoDescriptor), Error> {
    match first_interface_numbered(config.interfaces@, iad.first_interface, 0) {
        None => Err(Error::InvalidDevice),
        Some(k) => {
            let iface = config.interfaces@[k];
            if iface.descriptors@.len() == 0 {
                Err(Error::InvalidDevice)
            } else {
                let d = iface.descriptors@[0];
                match control_iface_of(iface.number, d) {
                    None => Err(Error::InvalidDevice),
                    Some(info) => match d.extra {
                        None => Err(Error::InvalidDevice),
                        Some(b) => if device_info_descriptor_ok(b@) {
                            Ok((info, device_info_descriptor_fields(b@)))
                        } else {
                            Err(Error::InvalidDevice)
                        },
                    },
                }
            }
        },
    }
}

impl ControlIfaceInfo {
    /// Reads the control interface's endpoints from its descriptor.
    pub fn new(iface_number: u8, iface_desc: &InterfaceDesc) -> (r: Result<ControlIfaceInfo, Error>)
        ensures
            r == (match control_iface_of(iface_number, *iface_desc) {
                Some(info) => Ok::<ControlIfaceInfo, Error>(info),
                None => Err::<ControlIfaceInfo, Error>(Error::InvalidDevice),
            }),
    {
        if iface_desc.class_code != MISCELLANEOUS_CLASS || iface_desc.sub_class_code != USB3V_SUBCLASS
            || iface_desc.protocol_code != CONTROL_IFACE_PROTOCOL {
            return Err(Error::InvalidDevice);
        }
        let eps = &iface_desc.endpoints;
        if eps.len() != 2 {
            return Err(Error::InvalidDevice);
        }
        let ep0 = &eps[0];
        let ep1 = &eps[1];
        if ep0.transfer_type != TransferType::Bulk || ep1.transfer_type != TransferType::Bulk {
            return Err(Error::InvalidDevice);
        }
        match ep0.direction {
            Direction::In => match ep1.direction {
                Direction::Out => Ok(
                    ControlIfaceInfo { iface_number, bulk_in_ep: ep0.address, bulk_out_ep: ep1.address },
                ),
                _ => Err(Error::InvalidDevice),
            },
            Direction::Out => match ep1.direction {
                Direction::In => Ok(
                    ControlIfaceInfo { iface_number, bulk_in_ep: ep1.address, bulk_out_ep: ep0.address },
                ),
                _ => Err(Error::InvalidDevice),
            },
        }
    }
}

/// A device that carries a USB3 Vision association, with the configuration
/// that holds it.
#[derive(Debug, Clone)]
pub struct DeviceBuilder {
    pub u3v_iad: IAD,
    pub config_desc: ConfigDesc,
}

impl DeviceBuilder {
    /// Whether the association is the USB3 Vision one.
    pub fn is_u3v_iad(iad: &IAD) -> (r: bool)
        ensures
            r == spec_is_u3v_iad(*iad),
    {
        iad.function_class == MISCELLANEOUS_CLASS && iad.function_subclass == USB3V_SUBCLASS
            && iad.function_protocol == IAD_FUNCTION_PROTOCOL
    }

    fn find_u3v_iad_in_extra(extra: &Option<Vec<u8>>) -> (r: Option<IAD>)
        requires
            !(extra_scan(*extra) is Fault),
        ensures
            r == scan_found(extra_scan(*extra)),
    {
        if let Some(bytes) = extra {
            if let Some(iad) = IAD::from_bytes(bytes.as_slice()) {
                if Self::is_u3v_iad(&iad) {
                    return Some(iad);
                }
            }
        }
        None
    }

    /// The USB3 Vision association in an endpoint's class specific bytes.
    pub fn find_u3v_iad_in_ep_desc(desc: &EndpointDesc) -> (r: Option<IAD>)
        requires
            !(extra_scan(desc.extra) is Fault),
        ensures
            r == scan_found(extra_scan(desc.extra)),
    {
        Self::find_u3v_iad_in_extra(&desc.extra)
    }

    /// The USB3 Vision association in an interface descriptor or one of its
    /// endpoints.
    pub fn find_u3v_iad_in_if_desc(desc: &InterfaceDesc) -> (r: Option<IAD>)
        requires
            !(interface_desc_scan(*desc) is Fault),
        ensures
            r == scan_found(interface_desc_scan(*desc)),
    {
        if let Some(iad) = Self::find_u3v_iad_in_extra(&desc.extra) {
            return Some(iad);
        }
        let eps = &desc.endpoints;
        let mut i: usize = 0;
        while i < eps.len()
            invariant
                i <= eps@.len(),
                extra_scan(desc.extra) is Missing,
                interface_desc_scan(*desc) == endpoints_scan(eps@, i as int),
                !(interface_desc_scan(*desc) is Fault),
            decreases eps@.len() - i,
        {
            if let Some(iad) = Self::find_u3v_iad_in_ep_desc(&eps[i]) {
                return Some(iad);
            }
            i += 1;
        }
        None
    }

    /// The USB3 Vision association in a configuration.
    pub fn find_u3v_iad_in_config_desc(desc: &ConfigDesc) -> (r: Option<IAD>)
        requires
            !(config_scan(*desc) is Fault),
        ensures
            r == scan_found(config_scan(*desc)),
    {
        if let Some(iad) = Self::find_u3v_iad_in_extra(&desc.extra) {
            return Some(iad);
        }
        let ifs = &desc.interfaces;
        let mut i: usize = 0;
        while i < ifs.len()
            invariant
                i <= ifs@.len(),
                config_scan(*desc) == interfaces_scan(ifs@, i as int),
                !(config_scan(*desc) is Fault),
            decreases ifs@.len() - i,
        {
            let ds = &ifs[i].descriptors;
            let mut j: usize = 0;
            while j < ds.len()
                invariant
                    i < ifs@.len(),
                    ds@ == ifs@[i as int].descriptors@,
                    j <= ds@.len(),
                    interfaces_scan(ifs@, i as int) == scan_then(
                        alt_settings_scan(ds@, j as int),
                        interfaces_scan(ifs@, i + 1),
                    ),
                    config_scan(*desc) == interfaces_scan(ifs@, i as int),
                    !(config_scan(*desc) is Fault),
                decreases ds@.len() - j,
            {
                if let Some(iad) = Self::find_u3v_iad_in_if_desc(&ds[j]) {
                    return Some(iad);
                }
                j += 1;
            }
            i += 1;
        }
        None
    }

    /// The search of a block of class specific bytes, as [`extra_scan`]
    /// gives it.
    fn scan_extra(extra: &Option<Vec<u8>>) -> (r: IadScan)
        ensures
            r == extra_scan(*extra),
    {
        match extra {
            None => IadScan::Missing,
            Some(bytes) => {
                if bytes.len() > usize::MAX - 256 {
                    return IadScan::Fault;
                }
                if !IAD::walk_in_bounds(bytes.as_slice()) {
                    return IadScan::Fault;
                }
                match IAD::from_bytes(bytes.as_slice()) {
                    Some(iad) => if Self::is_u3v_iad(&iad) {
                        IadScan::Found(iad)
                    } else {
                        IadScan::Missing
                    },
                    None => IadScan::Missing,
                }
            },
        }
    }

    /// The search of an interface descriptor and its endpoints.
    fn scan_if_desc(desc: &InterfaceDesc) -> (r: IadScan)
        ensures
            r == interface_desc_scan(*desc),
    {
        match Self::scan_extra(&desc.extra) {
            IadScan::Missing => {},
            other => return other,
        }
        let eps = &desc.endpoints;
        let mut i: usize = 0;
        while i < eps.len()
            invariant
                i <= eps@.len(),
                interface_desc_scan(*desc) == endpoints_scan(eps@, i as int),
            decreases eps@.len() - i,
        {
            match Self::scan_extra(&eps[i].extra) {
                IadScan::Missing => {},
                other => return other,
            }
            i += 1;
        }
        IadScan::Missing
    }

    /// Whether searching `desc` for the association stays inside every block
    /// it reads, up to the association it finds: the search of
    /// [`Self::find_u3v_iad_in_config_desc`] needs it.
    pub fn config_in_bounds(desc: &ConfigDesc) -> (r: bool)
        ensures
            r == !(config_scan(*desc) is Fault),
    {
        match Self::scan_extra(&desc.extra) {
            IadScan::Missing => {},
            IadScan::Fault => return false,
            IadScan::Found(_) => return true,
        }
        let ifs = &desc.interfaces;
        let mut i: usize = 0;
        while i < ifs.len()
            invariant
                i <= ifs@.len(),
                config_scan(*desc) == interfaces_scan(ifs@, i as int),
            decreases ifs@.len() - i,
        {
            let ds = &ifs[i].descriptors;
            let mut j: usize = 0;
            while j < ds.len()
                invariant
                    i < ifs@.len(),
                    ds@ == ifs@[i as int].descriptors@,
                    j <= ds@.len(),
                    interfaces_scan(ifs@, i as int) == scan_then(
                        alt_settings_scan(ds@, j as int),
                        interfaces_scan(ifs@, i + 1),
                    ),
                    config_scan(*desc) == interfaces_scan(ifs@, i as int),
                decreases ds@.len() - j,
            {
                match Self::scan_if_desc(&ds[j]) {
                    IadScan::Missing => {},
                    IadScan::Fault => return false,
                    IadScan::Found(_) => return true,
                }
                j += 1;
            }
            i += 1;
        }
        true
    }

    /// The first configuration, in order, that holds a USB3 Vision
    /// association, with that association.
    pub fn find_u3v_iad(configs: &Vec<ConfigDesc>) -> (r: Option<(IAD, usize)>)
        requires
            configs_scan_ok(configs@, 0),
        ensures
            r matches Some((iad, k)) ==> k < configs@.len() && configs_scan(configs@, 0) == Some(
                (iad, k as int),
            ),
            r is None ==> configs_scan(configs@, 0) is None,
    {
        let mut i: usize = 0;
        while i < configs.len()
            invariant
                i <= configs@.len(),
                configs_scan(configs@, 0) == configs_scan(configs@, i as int),
                configs_scan_ok(configs@, i as int),
            decreases configs@.len() - i,
        {
            if let Some(iad) = Self::find_u3v_iad_in_config_desc(&configs[i]) {
                return Some((iad, i));
            }
            i += 1;
        }
        None
    }

    /// Keeps a device of the USB3 Vision device class that carries the
    /// association in one of its configurations.
    pub fn new(class: u8, subclass: u8, protocol: u8, configs: Vec<ConfigDesc>) -> (r: Option<DeviceBuilder>)
        requires
            is_u3v_device_class(class, subclass, protocol) ==> configs_scan_ok(configs@, 0),
        ensures
            !is_u3v_device_class(class, subclass, protocol) ==> r is None,
            is_u3v_device_class(class, subclass, protocol) ==> match configs_scan(configs@, 0) {
                None => r is None,
                Some((iad, k)) => r matches Some(b) && b.u3v_iad == iad && b.config_desc
                    == configs@[k],
            },
    {
        if class == MISCELLANEOUS_CLASS && subclass == DEVICE_SUBCLASS && protocol == DEVICE_PROTOCOL {
            if let Some((iad, k)) = Self::find_u3v_iad(&configs) {
                let mut configs = configs;
                let config_desc = configs.swap_remove(k);
                return Some(DeviceBuilder { u3v_iad: iad, config_desc });
            }
        }
        None
    }

    /// Picks the control interface and decodes the device info descriptor.
    pub fn build(&self) -> (r: Result<(ControlIfaceInfo, DeviceInfoDescriptor), Error>)
        ensures
            r == build_result(self.config_desc, self.u3v_iad),
    {
        let ifs = &self.config_desc.interfaces;
        let mut i: usize = 0;
        while i < ifs.len()
            invariant
                i <= ifs@.len(),
                ifs@ == self.config_desc.interfaces@,
                first_interface_numbered(ifs@, self.u3v_iad.first_interface, 0)
                    == first_interface_numbered(ifs@, self.u3v_iad.first_interface, i as int),
            decreases ifs@.len() - i,
        {
            if ifs[i].number == self.u3v_iad.first_interface {
                let ctrl_iface = &ifs[i];
                if ctrl_iface.descriptors.len() == 0 {
                    return Err(Error::InvalidDevice);
                }
                let iface_desc = &ctrl_iface.descriptors[0];
                let ctrl_iface_info = ControlIfaceInfo::new(ctrl_iface.number, iface_desc)?;
                return match &iface_desc.extra {
                    None => Err(Error::InvalidDevice),
                    Some(extra) => {
                        let desc = DeviceInfoDescriptor::from_bytes(extra.as_slice())?;
                        Ok((ctrl_iface_info, desc))
                    },
                };
            }
            i += 1;
        }
        Err(Error::InvalidDevice)
    }
}

} // verus!
