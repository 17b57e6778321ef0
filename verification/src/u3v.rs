//! Descriptor handling for USB3 Vision devices enumerated through `nusb`.
//!
//! The host stack hands the descriptors over as plain values (see
//! [`InterfaceInfo`]); this module finds the USB3 Vision interface
//! association, reads the control, event and stream interfaces and decodes
//! the device info descriptor.

use vstd::prelude::*;
use vstd::string::StringExecFns;
use crate::bytes::{le_u16, read_u16_le};
use crate::usb3::{
    IAD, IadScan, Direction, TransferType, iad_at, spec_is_u3v_iad, scan_then, scan_found, finds_u3v,
    speed_of_mask, MISCELLANEOUS_CLASS, DEVICE_SUBCLASS, DEVICE_PROTOCOL, IAD_DESC_TYPE,
    USB3V_SUBCLASS, CONTROL_IFACE_PROTOCOL, MINIMUM_DESC_LENGTH, DEVICE_INFO_DESCRIPTOR_TYPE,
    DEVICE_INFO_DESCRIPTOR_SUBTYPE,
};

verus! {

pub const EVENT_IFACE_PROTOCOL: u8 = 0x01;
pub const STREAM_IFACE_PROTOCOL: u8 = 0x02;

/// Errors of the USB3 Vision device layer.
#[derive(Debug, Clone, PartialEq, Eq)]
pub enum U3vError {
    /// An error of the USB stack, with its message.
    NUsb(String),
    /// An I/O error, with its message.
    Io(String),
    /// A transfer did not end with the expected short packet.
    ShortPacket(String),
    /// A descriptor could not be read, with the message.
    Descriptor(String),
    /// No interface is open.
    NoInterface,
    /// A packet is broken.
    InvalidPacket(String),
    /// The device doesn't follow the specification.
    InvalidDevice,
}

/// The text of an error, as its `Display` gives it.
pub open spec fn u3v_error_text(e: U3vError) -> Seq<char> {
    match e {
        U3vError::NUsb(m) => "nusb error: "@ + m@,
        U3vError::Io(m) => "I/O error: "@ + m@,
        U3vError::ShortPacket(m) => "expected short packet error: "@ + m@,
        U3vError::Descriptor(m) => "descriptor error: "@ + m@,
        U3vError::NoInterface => "No open interface found"@,
        U3vError::InvalidPacket(m) => "packet is broken: "@ + m@,
        U3vError::InvalidDevice => "device doesn't follow the specification"@,
    }
}

fn prefixed(prefix: &str, m: &String) -> (r: String)
    ensures
        r@ == prefix@ + m@,
{
    let s = prefix.to_string();
    s.concat(m.as_str())
}

impl U3vError {
    /// The text of the error.
    pub fn message(&self) -> (r: String)
        ensures
            r@ == u3v_error_text(*self),
    {
        proof {
            reveal_strlit("nusb error: ");
            reveal_strlit("I/O error: ");
            reveal_strlit("expected short packet error: ");
            reveal_strlit("descriptor error: ");
            reveal_strlit("No open interface found");
            reveal_strlit("packet is broken: ");
            reveal_strlit("device doesn't follow the specification");
        }
        match self {
            U3vError::NUsb(m) => prefixed("nusb error: ", m),
            U3vError::Io(m) => prefixed("I/O error: ", m),
            U3vError::ShortPacket(m) => prefixed("expected short packet error: ", m),
            U3vError::Descriptor(m) => prefixed("descriptor error: ", m),
            U3vError::NoInterface => "No open interface found".to_string(),
            U3vError::InvalidPacket(m) => prefixed("packet is broken: ", m),
            U3vError::InvalidDevice => "device doesn't follow the specification".to_string(),
        }
    }
}

/// Endpoints of the control interface.
#[derive(Clone, Debug, PartialEq, Eq, Structural)]
pub struct ControlIfaceInfo {
    pub iface_number: u8,
    pub bulk_in_ep: u8,
    pub bulk_out_ep: u8,
}

/// Endpoint of an event or stream interface.
#[derive(Clone, Debug, PartialEq, Eq, Structural)]
pub struct ReceiveIfaceInfo {
    pub iface_number: u8,
    pub bulk_in_ep: u8,
}

/// What a receive interface carries.
#[derive(Clone, Copy, Debug, PartialEq, Eq, Structural)]
pub enum ReceiveIfaceKind {
    Stream,
    Event,
}

/// The Interface Association Descriptor, as the `nusb` host stack reads it.
pub type Iad = IAD;

/// An endpoint descriptor with the descriptors that follow it.
#[derive(Debug, Clone)]
pub struct EndpointInfo {
    pub address: u8,
    pub direction: Direction,
    pub transfer_type: TransferType,
    pub descriptors: Vec<Vec<u8>>,
}

/// An interface alternate setting.
#[derive(Debug, Clone)]
pub struct AltSetting {
    pub alternate_setting: u8,
    pub class: u8,
    pub subclass: u8,
    pub protocol: u8,
    /// The `bNumEndpoints` field.
    pub num_endpoints: u8,
    pub endpoints: Vec<EndpointInfo>,
    pub descriptors: Vec<Vec<u8>>,
}

/// An interface with its alternate settings.
#[derive(Debug, Clone)]
pub struct InterfaceInfo {
    pub interface_number: u8,
    pub alt_settings: Vec<AltSetting>,
}

/// A configuration with its own descriptors and its interfaces.
#[derive(Debug, Clone)]
pub struct ConfigInfo {
    pub descriptors: Vec<Vec<u8>>,
    pub interfaces: Vec<InterfaceInfo>,
}

/// Reading one descriptor as an association: `Fault` where an index would be
/// out of bounds.
pub open spec fn iad_desc_parse(b: Seq<u8>) -> IadScan {
    if b.len() < 1 {
        IadScan::Fault
    } else if b[0] == 0 {
        IadScan::Missing
    } else if b.len() < 2 {
        IadScan::Fault
    } else if b[1] != IAD_DESC_TYPE {
        IadScan::Missing
    } else if b.len() < 8 {
        IadScan::Fault
    } else {
        IadScan::Found(iad_at(b, 0))
    }
}

/// The USB3 Vision association in one descriptor.
pub open spec fn u3v_desc_scan(b: Seq<u8>) -> IadScan {
    match iad_desc_parse(b) {
        IadScan::Found(i) => if spec_is_u3v_iad(i) {
            IadScan::Found(i)
        } else {
            IadScan::Missing
        },
        other => other,
    }
}

pub open spec fn descs_scan(ds: Seq<Vec<u8>>, i: int) -> IadScan
    decreases ds.len() - i,
{
    if i < 0 || i >= ds.len() {
        IadScan::Missing
    } else {
        scan_then(u3v_desc_scan(ds[i]@), descs_scan(ds, i + 1))
    }
}

pub open spec fn eps_scan(eps: Seq<EndpointInfo>, i: int) -> IadScan
    decreases eps.len() - i,
{
    if i < 0 || i >= eps.len() {
        IadScan::Missing
    } else {
        scan_then(descs_scan(eps[i].descriptors@, 0), eps_scan(eps, i + 1))
    }
}

pub open spec fn alt_scan(a: AltSetting) -> IadScan {
    scan_then(descs_scan(a.descriptors@, 0), eps_scan(a.endpoints@, 0))
}

pub open spec fn alts_scan(alts: Seq<AltSetting>, i: int) -> IadScan
    decreases alts.len() - i,
{
    if i < 0 || i >= alts.len() {
        IadScan::Missing
    } else {
        scan_then(alt_scan(alts[i]), alts_scan(alts, i + 1))
    }
}

pub open spec fn ifaces_scan(ifs: Seq<InterfaceInfo>, i: int) -> IadScan
    decreases ifs.len() - i,
{
    if i < 0 || i >= ifs.len() {
        IadScan::Missing
    } else {
        scan_then(alts_scan(ifs[i].alt_settings@, 0), ifaces_scan(ifs, i + 1))
    }
}

/// Searches a configuration: its own descriptors, then each interface,
/// alternate setting and endpoint in order.
pub open spec fn conf_scan(c: ConfigInfo) -> IadScan {
    scan_then(descs_scan(c.descriptors@, 0), ifaces_scan(c.interfaces@, 0))
}

/// The first configuration, by index, that holds a USB3 Vision association.
pub open spec fn confs_scan(cs: Seq<ConfigInfo>, i: int) -> Option<(IAD, int)>
    decreases cs.len() - i,
{
    if i < 0 || i >= cs.len() {
        None
    } else {
        match conf_scan(cs[i]) {
            IadScan::Found(iad) => Some((iad, i)),
            _ => confs_scan(cs, i + 1),
        }
    }
}

/// No configuration up to the first one that holds an association makes the
/// search index past a descriptor.
pub open spec fn confs_scan_ok(cs: Seq<ConfigInfo>, i: int) -> bool
    decreases cs.len() - i,
{
    if i < 0 || i >= cs.len() {
        true
    } else {
        match conf_scan(cs[i]) {
            IadScan::Fault => false,
            IadScan::Found(_) => true,
            IadScan::Missing => confs_scan_ok(cs, i + 1),
        }
    }
}

proof fn lemma_descs_scan_u3v(ds: Seq<Vec<u8>>, i: int)
    ensures
        finds_u3v(descs_scan(ds, i)),
    decreases ds.len() - i,
{
    if 0 <= i < ds.len() {
        lemma_descs_scan_u3v(ds, i + 1);
    }
}

proof fn lemma_eps_scan_u3v(eps: Seq<EndpointInfo>, i: int)
    ensures
        finds_u3v(eps_scan(eps, i)),
    decreases eps.len() - i,
{
    if 0 <= i < eps.len() {
        lemma_descs_scan_u3v(eps[i].descriptors@, 0);
        lemma_eps_scan_u3v(eps, i + 1);
    }
}

proof fn lemma_alts_scan_u3v(alts: Seq<AltSetting>, i: int)
    ensures
        finds_u3v(alts_scan(alts, i)),
    decreases alts.len() - i,
{
    if 0 <= i < alts.len() {
        lemma_descs_scan_u3v(alts[i].descriptors@, 0);
        lemma_eps_scan_u3v(alts[i].endpoints@, 0);
        lemma_alts_scan_u3v(alts, i + 1);
    }
}

proof fn lemma_ifaces_scan_u3v(ifs: Seq<InterfaceInfo>, i: int)
    ensures
        finds_u3v(ifaces_scan(ifs, i)),
    decreases ifs.len() - i,
{
    if 0 <= i < ifs.len() {
        lemma_alts_scan_u3v(ifs[i].alt_settings@, 0);
        lemma_ifaces_scan_u3v(ifs, i + 1);
    }
}

proof fn lemma_confs_scan_u3v(cs: Seq<ConfigInfo>, i: int)
    ensures
        confs_scan(cs, i) matches Some((iad, k)) ==> spec_is_u3v_iad(iad) && i <= k < cs.len(),
    decreases cs.len() - i,
{
    if 0 <= i < cs.len() {
        lemma_descs_scan_u3v(cs[i].descriptors@, 0);
        lemma_ifaces_scan_u3v(cs[i].interfaces@, 0);
        lemma_confs_scan_u3v(cs, i + 1);
    }
}

/// The association the search settles on is a USB3 Vision one, found in one
/// of the configurations searched; so is the association of every device
/// builder.
pub proof fn lemma_found_iad_is_u3v(configs: Seq<ConfigInfo>)
    ensures
        confs_scan(configs, 0) matches Some((iad, k)) ==> spec_is_u3v_iad(iad) && 0 <= k
            < configs.len(),
{
    lemma_confs_scan_u3v(configs, 0);
}

impl IAD {
    /// Whether reading `desc` as an association stays inside it, which
    /// [`IAD::from_desc`] needs.
    pub fn desc_in_bounds(desc: &[u8]) -> (r: bool)
        ensures
            r == !(iad_desc_parse(desc@) is Fault),
    {
        if desc.len() < 1 {
            false
        } else if desc[0] == 0 {
            true
        } else if desc.len() < 2 {
            false
        } else if desc[1] != IAD_DESC_TYPE {
            true
        } else {
            desc.len() >= 8
        }
    }

    /// Reads one descriptor as an Interface Association Descriptor.
    pub fn from_desc(desc: &[u8]) -> (r: Option<IAD>)
        requires
            !(iad_desc_parse(desc@) is Fault),
        ensures
            r == scan_found(iad_desc_parse(desc@)),
    {
        let desc_length = desc[0];
        if desc_length == 0 {
            return None;
        }
        let descriptor_type = desc[1];
        if descriptor_type != IAD_DESC_TYPE {
            return None;
        }
        Some(
            IAD {
                length: desc_length,
                descriptor_type,
                first_interface: desc[2],
                interface_count: desc[3],
                function_class: desc[4],
                function_subclass: desc[5],
                function_protocol: desc[6],
                function: desc[7],
            },
        )
    }
}


/// The USB3 Vision device info descriptor.
#[derive(Debug, Clone, Copy, PartialEq, Eq, Structural)]
pub struct DeviceInfoDescriptor {
    pub length: u8,
    pub descriptor_type: u8,
    pub descriptor_subtype: u8,
    pub gencp_version_major: u16,
    pub gencp_version_minor: u16,
    pub u3v_version_major: u16,
    pub u3v_version_minor: u16,
    pub guid_idx: u8,
    pub vendor_name_idx: u8,
    pub model_name_idx: u8,
    pub family_name_idx: u8,
    pub device_version_idx: u8,
    pub manufacturer_info_idx: u8,
    pub serial_number_idx: u8,
    pub user_defined_name_idx: u8,
    pub supported_speed_mask: u8,
}

/// Whether the descriptor `s` is a device info descriptor.
pub open spec fn info_desc_ok(s: Seq<u8>) -> bool {
    &&& s[0] >= MINIMUM_DESC_LENGTH
    &&& s[1] == DEVICE_INFO_DESCRIPTOR_TYPE
    &&& s[2] == DEVICE_INFO_DESCRIPTOR_SUBTYPE
}

/// The fields of the device info descriptor `s`, little endian.
pub open spec fn info_desc_fields(s: Seq<u8>) -> DeviceInfoDescriptor {
    DeviceInfoDescriptor {
        length: s[0],
        descriptor_type: s[1],
        descriptor_subtype: s[2],
        gencp_version_minor: le_u16(s, 3) as u16,
        gencp_version_major: le_u16(s, 5) as u16,
        u3v_version_minor: le_u16(s, 7) as u16,
        u3v_version_major: le_u16(s, 9) as u16,
        guid_idx: s[11],
        vendor_name_idx: s[12],
        model_name_idx: s[13],
        family_name_idx: s[14],
        device_version_idx: s[15],
        manufacturer_info_idx: s[16],
        serial_number_idx: s[17],
        user_defined_name_idx: s[18],
        supported_speed_mask: s[19],
    }
}

/// Bus speeds a device can declare.
#[derive(Debug, Clone, Copy, PartialEq, Eq, Structural)]
pub enum BusSpeed {
    LowSpeed,
    FullSpeed,
    HighSpeed,
    SuperSpeed,
    SuperSpeedPlus,
}

pub open spec fn bus_speed_of_mask(mask: u8) -> Option<BusSpeed> {
    match speed_of_mask(mask) {
        None => None,
        Some(crate::usb3::SupportedSpeed::LowSpeed) => Some(BusSpeed::LowSpeed),
        Some(crate::usb3::SupportedSpeed::FullSpeed) => Some(BusSpeed::FullSpeed),
        Some(crate::usb3::SupportedSpeed::HighSpeed) => Some(BusSpeed::HighSpeed),
        Some(crate::usb3::SupportedSpeed::SuperSpeed) => Some(BusSpeed::SuperSpeed),
        Some(crate::usb3::SupportedSpeed::SuperSpeedPlus) => Some(BusSpeed::SuperSpeedPlus),
    }
}

/// Information of a device, read through its device info descriptor.
#[derive(Debug, Clone, PartialEq, Eq)]
pub struct DeviceInfo {
    pub gencp_version_major: u16,
    pub gencp_version_minor: u16,
    pub u3v_version_major: u16,
    pub u3v_version_minor: u16,
    pub guid: String,
    pub vendor_name: String,
    pub model_name: String,
    pub family_name: Option<String>,
    pub device_version: String,
    pub manufacturer_info: String,
    pub serial_number: String,
    pub user_defined_name: Option<String>,
    pub supported_speed: BusSpeed,
}

/// `s` is a string that `read` may return for string descriptor `idx`.
pub open spec fn reads<F: Fn(u8) -> Result<String, U3vError>>(read: F, idx: u8, s: String) -> bool {
    read.ensures((idx,), Ok::<String, U3vError>(s))
}

/// An optional string: none for index 0, else a string `read` may return.
pub open spec fn optional_reads<F: Fn(u8) -> Result<String, U3vError>>(
    read: F,
    idx: u8,
    s: Option<String>,
) -> bool {
    if idx == 0 {
        s is None
    } else {
        s matches Some(t) && reads(read, idx, t)
    }
}

impl DeviceInfoDescriptor {
    /// Decodes a device info descriptor.
    pub fn from_desc(desc: &[u8]) -> (r: Result<DeviceInfoDescriptor, U3vError>)
        requires
            desc@.len() >= 3,
            desc@.len() >= desc@[0],
        ensures
            info_desc_ok(desc@) ==> r == Ok::<DeviceInfoDescriptor, U3vError>(
                info_desc_fields(desc@),
            ),
            !info_desc_ok(desc@) ==> r == Err::<DeviceInfoDescriptor, U3vError>(
                U3vError::InvalidDevice,
            ),
    {
        let desc_length = desc[0];
        let descriptor_type = desc[1];
        let descriptor_subtype = desc[2];
        if desc_length < MINIMUM_DESC_LENGTH || descriptor_type != DEVICE_INFO_DESCRIPTOR_TYPE
            || descriptor_subtype != DEVICE_INFO_DESCRIPTOR_SUBTYPE {
            return Err(U3vError::InvalidDevice);
        }
        let gencp_version_minor = read_u16_le(desc, 3);
        let gencp_version_major = read_u16_le(desc, 5);
        let u3v_version_minor = read_u16_le(desc, 7);
        let u3v_version_major = read_u16_le(desc, 9);
        Ok(
            DeviceInfoDescriptor {
                length: desc_length,
                descriptor_type,
                descriptor_subtype,
                gencp_version_major,
                gencp_version_minor,
                u3v_version_major,
                u3v_version_minor,
                guid_idx: desc[11],
                vendor_name_idx: desc[12],
                model_name_idx: desc[13],
                family_name_idx: desc[14],
                device_version_idx: desc[15],
                manufacturer_info_idx: desc[16],
                serial_number_idx: desc[17],
                user_defined_name_idx: desc[18],
                supported_speed_mask: desc[19],
            },
        )
    }

    /// The highest speed the descriptor declares.
    pub fn supported_speed(&self) -> (r: Result<BusSpeed, U3vError>)
        ensures
            r == (match bus_speed_of_mask(self.supported_speed_mask) {
                Some(sp) => Ok::<BusSpeed, U3vError>(sp),
                None => Err::<BusSpeed, U3vError>(U3vError::InvalidDevice),
            }),
    {
        let mask = self.supported_speed_mask;
        if mask / 16 % 2 == 1 {
            Ok(BusSpeed::SuperSpeedPlus)
        } else if mask / 8 % 2 == 1 {
            Ok(BusSpeed::SuperSpeed)
        } else if mask / 4 % 2 == 1 {
            Ok(BusSpeed::HighSpeed)
        } else if mask / 2 % 2 == 1 {
            Ok(BusSpeed::FullSpeed)
        } else if mask % 2 == 1 {
            Ok(BusSpeed::LowSpeed)
        } else {
            Err(U3vError::InvalidDevice)
        }
    }

    /// Builds the device information, reading each string descriptor the
    /// descriptor names through `read`, in the order of the fields; the family
    /// name and the user defined name are not read when their index is 0.
    pub fn interpret<F: Fn(u8) -> Result<String, U3vError>>(&self, read: F) -> (r: Result<DeviceInfo, U3vError>)
        requires
            forall|idx: u8| #[trigger] read.requires((idx,)),
        ensures
            r matches Ok(info) ==> {
                &&& info.gencp_version_major == self.gencp_version_major
                &&& info.gencp_version_minor == self.gencp_version_minor
                &&& info.u3v_version_major == self.u3v_version_major
                &&& info.u3v_version_minor == self.u3v_version_minor
                &&& reads(read, self.guid_idx, info.guid)
                &&& reads(read, self.vendor_name_idx, info.vendor_name)
                &&& reads(read, self.model_name_idx, info.model_name)
                &&& optional_reads(read, self.family_name_idx, info.family_name)
                &&& reads(read, self.device_version_idx, info.device_version)
                &&& reads(read, self.manufacturer_info_idx, info.manufacturer_info)
                &&& reads(read, self.serial_number_idx, info.serial_number)
                &&& optional_reads(read, self.user_defined_name_idx, info.user_defined_name)
                &&& bus_speed_of_mask(self.supported_speed_mask) == Some(info.supported_speed)
            },
            bus_speed_of_mask(self.supported_speed_mask) is None ==> r is Err,
            (forall|idx: u8, res: Result<String, U3vError>| #[trigger] read.ensures((idx,), res) ==> res is Ok)
                && bus_speed_of_mask(self.supported_speed_mask) is Some ==> r is Ok,
            r matches Err(e) ==> (exists|idx: u8| #[trigger] read.ensures((idx,), Err::<String, U3vError>(e)))
                || (bus_speed_of_mask(self.supported_speed_mask) is None && e matches U3vError::InvalidDevice),
    {
        let guid = read(self.guid_idx)?;
        let vendor_name = read(self.vendor_name_idx)?;
        let model_name = read(self.model_name_idx)?;
        let family_name = if self.family_name_idx == 0 {
            None
        } else {
            Some(read(self.family_name_idx)?)
        };
        let device_version = read(self.device_version_idx)?;
        let manufacturer_info = read(self.manufacturer_info_idx)?;
        let serial_number = read(self.serial_number_idx)?;
        let user_defined_name = if self.user_defined_name_idx == 0 {
            None
        } else {
            Some(read(self.user_defined_name_idx)?)
        };
        let supported_speed = self.supported_speed()?;
        Ok(
            DeviceInfo {
                gencp_version_major: self.gencp_version_major,
                gencp_version_minor: self.gencp_version_minor,
                u3v_version_major: self.u3v_version_major,
                u3v_version_minor: self.u3v_version_minor,
                guid,
                vendor_name,
                model_name,
                family_name,
                device_version,
                manufacturer_info,
                serial_number,
                user_defined_name,
                supported_speed,
            },
        )
    }
}


/// Index of the first endpoint going in `dir`.
pub open spec fn first_ep_in_dir(eps: Seq<EndpointInfo>, dir: Direction, i: int) -> Option<int>
    decreases eps.len() - i,
{
    if i < 0 || i >= eps.len() {
        None
    } else if eps[i].direction == dir {
        Some(i)
    } else {
        first_ep_in_dir(eps, dir, i + 1)
    }
}

/// The control interface read from its first alternate setting: the USB3
/// Vision control class, two endpoints, the first in and the first out
/// endpoint both bulk.
pub open spec fn control_iface_spec(iface_number: u8, alts: Seq<AltSetting>) -> Option<ControlIfaceInfo> {
    if alts.len() == 0 {
        None
    } else {
        let d = alts[0];
        if d.class != MISCELLANEOUS_CLASS || d.subclass != USB3V_SUBCLASS || d.protocol
            != CONTROL_IFACE_PROTOCOL || d.endpoints@.len() != 2 {
            None
        } else {
            match (first_ep_in_dir(d.endpoints@, Direction::In, 0), first_ep_in_dir(d.endpoints@, Direction::Out, 0)) {
                (Some(i), Some(o)) => if d.endpoints@[i].transfer_type != TransferType::Bulk
                    || d.endpoints@[o].transfer_type != TransferType::Bulk {
                    None
                } else {
                    Some(ControlIfaceInfo {
                        iface_number,
                        bulk_in_ep: d.endpoints@[i].address,
                        bulk_out_ep: d.endpoints@[o].address,
                    })
                },
                _ => None,
            }
        }
    }
}

/// An event or stream interface, read from its first alternate setting
/// numbered 0: class, protocol, a single bulk in endpoint.
pub open spec fn receive_iface_spec(iface_number: u8, alts: Seq<AltSetting>, i: int) -> Option<(ReceiveIfaceInfo, ReceiveIfaceKind)>
    decreases alts.len() - i,
{
    if i < 0 || i >= alts.len() {
        None
    } else {
        let d = alts[i];
        if d.alternate_setting != 0 {
            receive_iface_spec(iface_number, alts, i + 1)
        } else if d.class != MISCELLANEOUS_CLASS || d.subclass != USB3V_SUBCLASS {
            None
        } else if d.protocol != EVENT_IFACE_PROTOCOL && d.protocol != STREAM_IFACE_PROTOCOL {
            None
        } else if d.num_endpoints != 1 || d.endpoints@.len() == 0 {
            None
        } else {
            let ep = d.endpoints@[0];
            if ep.transfer_type != TransferType::Bulk || ep.direction != Direction::In {
                None
            } else {
                Some((
                    ReceiveIfaceInfo { iface_number, bulk_in_ep: ep.address },
                    if d.protocol == EVENT_IFACE_PROTOCOL {
                        ReceiveIfaceKind::Event
                    } else {
                        ReceiveIfaceKind::Stream
                    },
                ))
            }
        }
    }
}

/// Reading the receive interface does not take the endpoint of a setting
/// that declares one endpoint but lists none.
pub open spec fn receive_iface_ok(alts: Seq<AltSetting>, i: int) -> bool
    decreases alts.len() - i,
{
    if i < 0 || i >= alts.len() {
        true
    } else {
        let d = alts[i];
        if d.alternate_setting != 0 {
            receive_iface_ok(alts, i + 1)
        } else if d.class != MISCELLANEOUS_CLASS || d.subclass != USB3V_SUBCLASS {
            true
        } else if d.protocol != EVENT_IFACE_PROTOCOL && d.protocol != STREAM_IFACE_PROTOCOL {
            true
        } else {
            d.num_endpoints == 1 ==> d.endpoints@.len() > 0
        }
    }
}

/// Event and stream interfaces of a device from the receive interfaces found
/// after the control interface: at most two, at most one of each kind.
pub open spec fn pair_spec(v: Seq<(ReceiveIfaceInfo, ReceiveIfaceKind)>) -> Result<(Option<ReceiveIfaceInfo>, Option<ReceiveIfaceInfo>), U3vError> {
    if v.len() > 2 {
        Err(U3vError::InvalidDevice)
    } else if v.len() == 0 {
        Ok((None, None))
    } else if v.len() == 1 {
        if v[0].1 == ReceiveIfaceKind::Event {
            Ok((Some(v[0].0), None))
        } else {
            Ok((None, Some(v[0].0)))
        }
    } else if v[1].1 == ReceiveIfaceKind::Event && v[0].1 == ReceiveIfaceKind::Stream {
        Ok((Some(v[1].0), Some(v[0].0)))
    } else if v[1].1 == ReceiveIfaceKind::Stream && v[0].1 == ReceiveIfaceKind::Event {
        Ok((Some(v[0].0), Some(v[1].0)))
    } else {
        Err(U3vError::InvalidDevice)
    }
}

impl ControlIfaceInfo {
    /// Reads the control interface's endpoints from its first alternate
    /// setting.
    pub fn new(iface_number: u8, alt_settings: &Vec<AltSetting>) -> (r: Result<ControlIfaceInfo, U3vError>)
        ensures
            r == (match control_iface_spec(iface_number, alt_settings@) {
                Some(info) => Ok::<ControlIfaceInfo, U3vError>(info),
                None => Err::<ControlIfaceInfo, U3vError>(U3vError::InvalidDevice),
            }),
    {
        proof {
            reveal_with_fuel(first_ep_in_dir, 3);
        }
        if alt_settings.len() == 0 {
            return Err(U3vError::InvalidDevice);
        }
        let iface_desc = &alt_settings[0];
        if iface_desc.class != MISCELLANEOUS_CLASS || iface_desc.subclass != USB3V_SUBCLASS
            || iface_desc.protocol != CONTROL_IFACE_PROTOCOL {
            return Err(U3vError::InvalidDevice);
        }
        let eps = &iface_desc.endpoints;
        if eps.len() != 2 {
            return Err(U3vError::InvalidDevice);
        }
        let ep_in = if eps[0].direction == Direction::In {
            &eps[0]
        } else if eps[1].direction == Direction::In {
            &eps[1]
        } else {
            return Err(U3vError::InvalidDevice);
        };
        let ep_out = if eps[0].direction == Direction::Out {
            &eps[0]
        } else if eps[1].direction == Direction::Out {
            &eps[1]
        } else {
            return Err(U3vError::InvalidDevice);
        };
        if ep_in.transfer_type != TransferType::Bulk || ep_out.transfer_type != TransferType::Bulk {
            return Err(U3vError::InvalidDevice);
        }
        Ok(ControlIfaceInfo { iface_number, bulk_in_ep: ep_in.address, bulk_out_ep: ep_out.address })
    }
}

impl ReceiveIfaceInfo {
    /// Reads an event or stream interface from its alternate settings.
    pub fn new(iface_number: u8, alt_settings: &Vec<AltSetting>) -> (r: Option<(ReceiveIfaceInfo, ReceiveIfaceKind)>)
        requires
            receive_iface_ok(alt_settings@, 0),
        ensures
            r == receive_iface_spec(iface_number, alt_settings@, 0),
    {
        let mut i: usize = 0;
        while i < alt_settings.len()
            invariant
                i <= alt_settings@.len(),
                receive_iface_spec(iface_number, alt_settings@, 0) == receive_iface_spec(
                    iface_number,
                    alt_settings@,
                    i as int,
                ),
                receive_iface_ok(alt_settings@, i as int),
            decreases alt_settings@.len() - i,
        {
            let desc = &alt_settings[i];
            if desc.alternate_setting != 0 {
                i += 1;
                continue;
            }
            if desc.class != MISCELLANEOUS_CLASS || desc.subclass != USB3V_SUBCLASS {
                return None;
            }
            let iface_kind = if desc.protocol == EVENT_IFACE_PROTOCOL {
                ReceiveIfaceKind::Event
            } else if desc.protocol == STREAM_IFACE_PROTOCOL {
                ReceiveIfaceKind::Stream
            } else {
                return None;
            };
            if desc.num_endpoints != 1 {
                return None;
            }
            let ep = &desc.endpoints[0];
            if ep.transfer_type != TransferType::Bulk || ep.direction != Direction::In {
                return None;
            }
            return Some((ReceiveIfaceInfo { iface_number, bulk_in_ep: ep.address }, iface_kind));
        }
        None
    }
}

/// The event and the stream interface do not depend on the order in which
/// the two interfaces come, and two interfaces of different kinds always
/// pair up.
pub proof fn lemma_pair_order_independent(
    a: (ReceiveIfaceInfo, ReceiveIfaceKind),
    b: (ReceiveIfaceInfo, ReceiveIfaceKind),
)
    requires
        a.1 != b.1,
    ensures
        pair_spec(seq![a, b]) == pair_spec(seq![b, a]),
        pair_spec(seq![a, b]) is Ok,
{
}

/// A successful pairing hands out each interface as the kind it was found
/// as: the event interface was found as an event interface, the stream
/// interface as a stream interface.
pub proof fn lemma_pair_keeps_kinds(v: Seq<(ReceiveIfaceInfo, ReceiveIfaceKind)>)
    ensures
        pair_spec(v) matches Ok((event, stream)) ==> {
            &&& (event matches Some(e) ==> exists|i: int| 0 <= i < v.len() && v[i] == (e, ReceiveIfaceKind::Event))
            &&& (stream matches Some(s) ==> exists|i: int| 0 <= i < v.len() && v[i] == (s, ReceiveIfaceKind::Stream))
        },
{
    if v.len() == 1 {
        assert(v[0] == (v[0].0, v[0].1));
    } else if v.len() == 2 {
        assert(v[0] == (v[0].0, v[0].1));
        assert(v[1] == (v[1].0, v[1].1));
    }
}

/// Takes the event and the stream interface out of the receive interfaces
/// found, from the last one back.
pub fn pair_receive_ifaces(receive_ifaces: Vec<(ReceiveIfaceInfo, ReceiveIfaceKind)>) -> (r: Result<(Option<ReceiveIfaceInfo>, Option<ReceiveIfaceInfo>), U3vError>)
    ensures
        r == pair_spec(receive_ifaces@),
{
    let mut receive_ifaces = receive_ifaces;
    if receive_ifaces.len() > 2 {
        return Err(U3vError::InvalidDevice);
    }
    match receive_ifaces.pop() {
        Some((event_iface, ReceiveIfaceKind::Event)) => match receive_ifaces.pop() {
            Some((stream_iface, ReceiveIfaceKind::Stream)) => Ok((Some(event_iface), Some(stream_iface))),
            None => Ok((Some(event_iface), None)),
            Some(_) => Err(U3vError::InvalidDevice),
        },
        Some((stream_iface, ReceiveIfaceKind::Stream)) => match receive_ifaces.pop() {
            Some((event_iface, ReceiveIfaceKind::Event)) => Ok((Some(event_iface), Some(stream_iface))),
            None => Ok((None, Some(stream_iface))),
            Some(_) => Err(U3vError::InvalidDevice),
        },
        None => Ok((None, None)),
    }
}


/// Outcome of looking for the device info descriptor among descriptors.
pub enum InfoScan {
    Found(DeviceInfoDescriptor),
    Missing,
    /// A descriptor too short to read its subtype comes first.
    Fault,
}

/// The first descriptor from `i` that decodes as a device info descriptor.
pub open spec fn info_scan(ds: Seq<Vec<u8>>, i: int) -> InfoScan
    decreases ds.len() - i,
{
    if i < 0 || i >= ds.len() {
        InfoScan::Missing
    } else {
        let b = ds[i]@;
        if !(b.len() >= 3 && b.len() >= b[0]) {
            InfoScan::Fault
        } else if info_desc_ok(b) {
            InfoScan::Found(info_desc_fields(b))
        } else {
            info_scan(ds, i + 1)
        }
    }
}

/// Index of the first interface numbered `number`.
pub open spec fn first_numbered(ifs: Seq<InterfaceInfo>, number: u8, i: int) -> Option<int>
    decreases ifs.len() - i,
{
    if i < 0 || i >= ifs.len() {
        None
    } else if ifs[i].interface_number == number {
        Some(i)
    } else {
        first_numbered(ifs, number, i + 1)
    }
}

/// The control interface of a device, its device info descriptor and the
/// interface's index; `None` where no device info descriptor can be read
/// from the control interface.
pub open spec fn control_spec(ifs: Seq<InterfaceInfo>, iad: IAD) -> Option<Result<(ControlIfaceInfo, DeviceInfoDescriptor, usize), U3vError>> {
    match first_numbered(ifs, iad.first_interface, 0) {
        None => Some(Err(U3vError::InvalidDevice)),
        Some(k) => match control_iface_spec(ifs[k].interface_number, ifs[k].alt_settings@) {
            None => Some(Err(U3vError::InvalidDevice)),
            Some(info) => match info_scan(ifs[k].alt_settings@[0].descriptors@, 0) {
                InfoScan::Found(d) => Some(Ok((info, d, k as usize))),
                _ => None,
            },
        },
    }
}

/// The receive interfaces among the interfaces from `i`, in order.
pub open spec fn receive_list(ifs: Seq<InterfaceInfo>, i: int) -> Seq<(ReceiveIfaceInfo, ReceiveIfaceKind)>
    decreases ifs.len() - i,
{
    if i < 0 || i >= ifs.len() {
        Seq::empty()
    } else {
        match receive_iface_spec(ifs[i].interface_number, ifs[i].alt_settings@, 0) {
            Some(p) => seq![p] + receive_list(ifs, i + 1),
            None => receive_list(ifs, i + 1),
        }
    }
}

pub open spec fn receive_list_ok(ifs: Seq<InterfaceInfo>, i: int) -> bool {
    forall|j: int| i <= j < ifs.len() ==> #[trigger] receive_iface_ok(ifs[j].alt_settings@, 0)
}

/// A device that carries a USB3 Vision association, with its interfaces.
#[derive(Debug, Clone)]
pub struct DeviceBuilder {
    pub u3v_iad: Iad,
    pub interfaces: Vec<InterfaceInfo>,
}

impl DeviceBuilder {
    /// Whether the association is the USB3 Vision one.
    pub fn is_u3v_iad(iad: &Iad) -> (r: bool)
        ensures
            r == spec_is_u3v_iad(*iad),
    {
        iad.function_class == MISCELLANEOUS_CLASS && iad.function_subclass == USB3V_SUBCLASS
            && iad.function_protocol == crate::usb3::IAD_FUNCTION_PROTOCOL
    }

    fn find_in_descs(descs: &Vec<Vec<u8>>) -> (r: Option<Iad>)
        requires
            !(descs_scan(descs@, 0) is Fault),
        ensures
            r == scan_found(descs_scan(descs@, 0)),
    {
        let mut i: usize = 0;
        while i < descs.len()
            invariant
                i <= descs@.len(),
                descs_scan(descs@, 0) == descs_scan(descs@, i as int),
                !(descs_scan(descs@, 0) is Fault),
            decreases descs@.len() - i,
        {
            if let Some(iad) = Iad::from_desc(descs[i].as_slice()) {
                if Self::is_u3v_iad(&iad) {
                    return Some(iad);
                }
            }
            i += 1;
        }
        None
    }

    /// The USB3 Vision association among an endpoint's descriptors.
    pub fn find_u3v_iad_in_ep(ep_desc: &EndpointInfo) -> (r: Option<Iad>)
        requires
            !(descs_scan(ep_desc.descriptors@, 0) is Fault),
        ensures
            r == scan_found(descs_scan(ep_desc.descriptors@, 0)),
    {
        Self::find_in_descs(&ep_desc.descriptors)
    }

    /// The USB3 Vision association in an alternate setting or its endpoints.
    pub fn find_u3v_iad_in_ifce(ifce: &AltSetting) -> (r: Option<Iad>)
        requires
            !(alt_scan(*ifce) is Fault),
        ensures
            r == scan_found(alt_scan(*ifce)),
    {
        if let Some(iad) = Self::find_in_descs(&ifce.descriptors) {
            return Some(iad);
        }
        let eps = &ifce.endpoints;
        let mut i: usize = 0;
        while i < eps.len()
            invariant
                i <= eps@.len(),
                alt_scan(*ifce) == eps_scan(eps@, i as int),
                !(alt_scan(*ifce) is Fault),
            decreases eps@.len() - i,
        {
            if let Some(iad) = Self::find_u3v_iad_in_ep(&eps[i]) {
                return Some(iad);
            }
            i += 1;
        }
        None
    }

    /// The USB3 Vision association in a configuration.
    pub fn find_u3v_iad_in_config(conf: &ConfigInfo) -> (r: Option<Iad>)
        requires
            !(conf_scan(*conf) is Fault),
        ensures
            r == scan_found(conf_scan(*conf)),
    {
        if let Some(iad) = Self::find_in_descs(&conf.descriptors) {
            return Some(iad);
        }
        let ifs = &conf.interfaces;
        let mut i: usize = 0;
        while i < ifs.len()
            invariant
                i <= ifs@.len(),
                conf_scan(*conf) == ifaces_scan(ifs@, i as int),
                !(conf_scan(*conf) is Fault),
            decreases ifs@.len() - i,
        {
            let alts = &ifs[i].alt_settings;
            let mut j: usize = 0;
            while j < alts.len()
                invariant
                    i < ifs@.len(),
                    alts@ == ifs@[i as int].alt_settings@,
                    j <= alts@.len(),
                    ifaces_scan(ifs@, i as int) == scan_then(
                        alts_scan(alts@, j as int),
                        ifaces_scan(ifs@, i + 1),
                    ),
                    conf_scan(*conf) == ifaces_scan(ifs@, i as int),
                    !(conf_scan(*conf) is Fault),
                decreases alts@.len() - j,
            {
                if let Some(iad) = Self::find_u3v_iad_in_ifce(&alts[j]) {
                    return Some(iad);
                }
                j += 1;
            }
            i += 1;
        }
        None
    }

    /// The search of a list of descriptors, as [`descs_scan`] gives it.
    fn scan_descs(descs: &Vec<Vec<u8>>) -> (r: IadScan)
        ensures
            r == descs_scan(descs@, 0),
    {
        let mut i: usize = 0;
        while i < descs.len()
            invariant
                i <= descs@.len(),
                descs_scan(descs@, 0) == descs_scan(descs@, i as int),
            decreases descs@.len() - i,
        {
            let d = descs[i].as_slice();
            if !IAD::desc_in_bounds(d) {
                return IadScan::Fault;
            }
            if let Some(iad) = Iad::from_desc(d) {
                if Self::is_u3v_iad(&iad) {
                    return IadScan::Found(iad);
                }
            }
            i += 1;
        }
        IadScan::Missing
    }

    /// The search of an alternate setting and its endpoints.
    fn scan_alt(alt: &AltSetting) -> (r: IadScan)
        ensures
            r == alt_scan(*alt),
    {
        match Self::scan_descs(&alt.descriptors) {
            IadScan::Missing => {},
            other => return other,
        }
        let eps = &alt.endpoints;
        let mut i: usize = 0;
        while i < eps.len()
            invariant
                i <= eps@.len(),
                alt_scan(*alt) == eps_scan(eps@, i as int),
            decreases eps@.len() - i,
        {
            match Self::scan_descs(&eps[i].descriptors) {
                IadScan::Missing => {},
                other => return other,
            }
            i += 1;
        }
        IadScan::Missing
    }

    /// The search of a configuration, as [`conf_scan`] gives it.
    fn scan_conf(conf: &ConfigInfo) -> (r: IadScan)
        ensures
            r == conf_scan(*conf),
    {
        match Self::scan_descs(&conf.descriptors) {
            IadScan::Missing => {},
            other => return other,
        }
        let ifs = &conf.interfaces;
        let mut i: usize = 0;
        while i < ifs.len()
            invariant
                i <= ifs@.len(),
                conf_scan(*conf) == ifaces_scan(ifs@, i as int),
            decreases ifs@.len() - i,
        {
            let alts = &ifs[i].alt_settings;
            let mut j: usize = 0;
            while j < alts.len()
                invariant
                    i < ifs@.len(),
                    alts@ == ifs@[i as int].alt_settings@,
                    j <= alts@.len(),
                    ifaces_scan(ifs@, i as int) == scan_then(
                        alts_scan(alts@, j as int),
                        ifaces_scan(ifs@, i + 1),
                    ),
                    conf_scan(*conf) == ifaces_scan(ifs@, i as int),
                decreases alts@.len() - j,
            {
                match Self::scan_alt(&alts[j]) {
                    IadScan::Missing => {},
                    other => return other,
                }
                j += 1;
            }
            i += 1;
        }
        IadScan::Missing
    }

    /// Whether searching the configurations for the association, in order,
    /// reads every descriptor within its bounds up to the association it
    /// finds: [`Self::find_u3v_iad`] needs it.
    pub fn configs_in_bounds(configs: &Vec<ConfigInfo>) -> (r: bool)
        ensures
            r == confs_scan_ok(configs@, 0),
    {
        let mut i: usize = 0;
        while i < configs.len()
            invariant
                i <= configs@.len(),
                confs_scan_ok(configs@, 0) == confs_scan_ok(configs@, i as int),
            decreases configs@.len() - i,
        {
            match Self::scan_conf(&configs[i]) {
                IadScan::Missing => {},
                IadScan::Fault => return false,
                IadScan::Found(_) => return true,
            }
            i += 1;
        }
        true
    }

    /// The first configuration, in order, that holds a USB3 Vision
    /// association, with that association.
    pub fn find_u3v_iad(configs: &Vec<ConfigInfo>) -> (r: Option<(Iad, usize)>)
        requires
            confs_scan_ok(configs@, 0),
        ensures
            r matches Some((iad, k)) ==> k < configs@.len() && confs_scan(configs@, 0) == Some(
                (iad, k as int),
            ),
            r is None ==> confs_scan(configs@, 0) is None,
    {
        let mut i: usize = 0;
        while i < configs.len()
            invariant
                i <= configs@.len(),
                confs_scan(configs@, 0) == confs_scan(configs@, i as int),
                confs_scan_ok(configs@, i as int),
            decreases configs@.len() - i,
        {
            if let Some(iad) = Self::find_u3v_iad_in_config(&configs[i]) {
                return Some((iad, i));
            }
            i += 1;
        }
        None
    }

    /// Keeps a device of the USB3 Vision device class that carries the
    /// association in one of its configurations.
    pub fn new(
        class: u8,
        subclass: u8,
        protocol: u8,
        configs: &Vec<ConfigInfo>,
        interfaces: Vec<InterfaceInfo>,
    ) -> (r: Option<DeviceBuilder>)
        requires
            (class == MISCELLANEOUS_CLASS && subclass == DEVICE_SUBCLASS && protocol == DEVICE_PROTOCOL)
                ==> confs_scan_ok(configs@, 0),
        ensures
            !(class == MISCELLANEOUS_CLASS && subclass == DEVICE_SUBCLASS && protocol
                == DEVICE_PROTOCOL) ==> r is None,
            (class == MISCELLANEOUS_CLASS && subclass == DEVICE_SUBCLASS && protocol
                == DEVICE_PROTOCOL) ==> match confs_scan(configs@, 0) {
                None => r is None,
                Some((iad, _)) => r matches Some(b) && b.u3v_iad == iad && b.interfaces == interfaces,
            },
    {
        if class == MISCELLANEOUS_CLASS && subclass == DEVICE_SUBCLASS && protocol == DEVICE_PROTOCOL {
            if let Some((iad, _conf)) = Self::find_u3v_iad(configs) {
                return Some(DeviceBuilder { u3v_iad: iad, interfaces });
            }
        }
        None
    }

    fn first_info_descriptor(descs: &Vec<Vec<u8>>) -> (r: DeviceInfoDescriptor)
        requires
            info_scan(descs@, 0) is Found,
        ensures
            info_scan(descs@, 0) == InfoScan::Found(r),
    {
        let mut i: usize = 0;
        while i < descs.len()
            invariant
                i <= descs@.len(),
                info_scan(descs@, 0) == info_scan(descs@, i as int),
                info_scan(descs@, 0) is Found,
            decreases descs@.len() - i,
        {
            if let Ok(d) = DeviceInfoDescriptor::from_desc(descs[i].as_slice()) {
                return d;
            }
            i += 1;
        }
        proof {
            assert(info_scan(descs@, i as int) is Missing);
        }
        loop
            invariant
                false,
            decreases 0nat,
        {
        }
    }

    /// Whether the device info descriptor of the control interface can be
    /// read where [`Self::control_interface`] reads it: `false` exactly where
    /// the control interface is there and valid, but no descriptor of its
    /// first alternate setting, before one too short to read, decodes as
    /// device information.
    pub fn control_interface_readable(&self) -> (r: bool)
        ensures
            r == (control_spec(self.interfaces@, self.u3v_iad) is Some),
    {
        let ifs = &self.interfaces;
        let mut i: usize = 0;
        while i < ifs.len()
            invariant
                i <= ifs@.len(),
                ifs@ == self.interfaces@,
                first_numbered(ifs@, self.u3v_iad.first_interface, 0) == first_numbered(
                    ifs@,
                    self.u3v_iad.first_interface,
                    i as int,
                ),
            decreases ifs@.len() - i,
        {
            if ifs[i].interface_number == self.u3v_iad.first_interface {
                let ctrl = &ifs[i];
                if ControlIfaceInfo::new(ctrl.interface_number, &ctrl.alt_settings).is_err() {
                    return true;
                }
                let descs = &ctrl.alt_settings[0].descriptors;
                assert(first_numbered(ifs@, self.u3v_iad.first_interface, 0) == Some(i as int));
                let mut j: usize = 0;
                while j < descs.len()
                    invariant
                        j <= descs@.len(),
                        i < ifs@.len(),
                        ifs@ == self.interfaces@,
                        first_numbered(ifs@, self.u3v_iad.first_interface, 0) == Some(i as int),
                        control_iface_spec(ifs@[i as int].interface_number, ifs@[i as int].alt_settings@) is Some,
                        ifs@[i as int].alt_settings@.len() > 0,
                        descs@ == ifs@[i as int].alt_settings@[0].descriptors@,
                        info_scan(descs@, 0) == info_scan(descs@, j as int),
                    decreases descs@.len() - j,
                {
                    let d = descs[j].as_slice();
                    if !(d.len() >= 3 && d.len() >= d[0] as usize) {
                        return false;
                    }
                    if DeviceInfoDescriptor::from_desc(d).is_ok() {
                        return true;
                    }
                    j += 1;
                }
                return false;
            }
            i += 1;
        }
        true
    }

    /// The control interface, the device info descriptor stored with it, and
    /// the index of the control interface.
    pub fn control_interface(&self) -> (r: Result<(ControlIfaceInfo, DeviceInfoDescriptor, usize), U3vError>)
        requires
            control_spec(self.interfaces@, self.u3v_iad) is Some,
        ensures
            Some(r) == control_spec(self.interfaces@, self.u3v_iad),
    {
        let ifs = &self.interfaces;
        let mut i: usize = 0;
        while i < ifs.len()
            invariant
                i <= ifs@.len(),
                ifs@ == self.interfaces@,
                first_numbered(ifs@, self.u3v_iad.first_interface, 0) == first_numbered(
                    ifs@,
                    self.u3v_iad.first_interface,
                    i as int,
                ),
                control_spec(self.interfaces@, self.u3v_iad) is Some,
            decreases ifs@.len() - i,
        {
            if ifs[i].interface_number == self.u3v_iad.first_interface {
                let ctrl = &ifs[i];
                let ctrl_iface_info = ControlIfaceInfo::new(ctrl.interface_number, &ctrl.alt_settings)?;
                let desc = Self::first_info_descriptor(&ctrl.alt_settings[0].descriptors);
                return Ok((ctrl_iface_info, desc, i));
            }
            i += 1;
        }
        Err(U3vError::InvalidDevice)
    }

    /// The event and stream interfaces among the interfaces that follow the
    /// control interface.
    pub fn receive_interfaces(&self, ctrl_index: usize) -> (r: Result<(Option<ReceiveIfaceInfo>, Option<ReceiveIfaceInfo>), U3vError>)
        requires
            ctrl_index < self.interfaces.len(),
            receive_list_ok(self.interfaces@, ctrl_index + 1),
        ensures
            r == pair_spec(receive_list(self.interfaces@, ctrl_index + 1)),
    {
        let ifs = &self.interfaces;
        let mut found: Vec<(ReceiveIfaceInfo, ReceiveIfaceKind)> = Vec::new();
        let mut i: usize = ctrl_index + 1;
        while i < ifs.len()
            invariant
                ctrl_index + 1 <= i <= ifs@.len(),
                ifs@ == self.interfaces@,
                receive_list_ok(ifs@, ctrl_index + 1),
                found@ + receive_list(ifs@, i as int) == receive_list(ifs@, ctrl_index + 1),
            decreases ifs@.len() - i,
        {
            let ghost before = found@;
            assert(receive_iface_ok(ifs@[i as int].alt_settings@, 0));
            match ReceiveIfaceInfo::new(ifs[i].interface_number, &ifs[i].alt_settings) {
                Some(p) => {
                    found.push(p);
                    assert(before + receive_list(ifs@, i as int) == found@ + receive_list(ifs@, i + 1));
                },
                None => {},
            }
            i += 1;
        }
        assert(found@ == receive_list(ifs@, ctrl_index + 1));
        pair_receive_ifaces(found)
    }
}

} // verus!
