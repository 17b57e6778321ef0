use cameleon::u3v::{
    pair_receive_ifaces, AltSetting, BusSpeed, ConfigInfo, ControlIfaceInfo, DeviceBuilder,
    DeviceInfoDescriptor, EndpointInfo, Iad, InterfaceInfo, ReceiveIfaceInfo, ReceiveIfaceKind,
    U3vError,
};
use cameleon::usb3::{Direction, TransferType};

fn u3v_iad_desc(first_interface: u8) -> Vec<u8> {
    vec![8, 0x0B, first_interface, 3, 0xEF, 0x05, 0x00, 0x00]
}

fn info_desc(speed_mask: u8) -> Vec<u8> {
    vec![20, 0x24, 0x01, 0x00, 0x00, 0x01, 0x00, 0x00, 0x00, 0x01, 0x00, 1, 2, 3, 0, 4, 5, 6, 0, speed_mask]
}

fn ep(address: u8, direction: Direction) -> EndpointInfo {
    EndpointInfo { address, direction, transfer_type: TransferType::Bulk, descriptors: vec![] }
}

fn alt(protocol: u8, endpoints: Vec<EndpointInfo>, descriptors: Vec<Vec<u8>>) -> AltSetting {
    AltSetting {
        alternate_setting: 0,
        class: 0xEF,
        subclass: 0x05,
        protocol,
        num_endpoints: endpoints.len() as u8,
        endpoints,
        descriptors,
    }
}

fn control_iface(number: u8) -> InterfaceInfo {
    InterfaceInfo {
        interface_number: number,
        alt_settings: vec![alt(
            0x00,
            vec![ep(0x81, Direction::In), ep(0x01, Direction::Out)],
            vec![vec![9, 0x21, 0, 0, 0, 0, 0, 0, 0], info_desc(0x08)],
        )],
    }
}

fn receive_iface(number: u8, protocol: u8, address: u8) -> InterfaceInfo {
    InterfaceInfo { interface_number: number, alt_settings: vec![alt(protocol, vec![ep(address, Direction::In)], vec![])] }
}

fn config() -> ConfigInfo {
    ConfigInfo { descriptors: vec![vec![9, 0x02, 0, 0, 0, 0, 0, 0, 0], u3v_iad_desc(0)], interfaces: vec![] }
}

#[test]
fn iad_from_desc_reads_one_descriptor() {
    let iad = Iad::from_desc(&u3v_iad_desc(1)).unwrap();
    assert_eq!(iad.length, 8);
    assert_eq!(iad.first_interface, 1);
    assert_eq!(iad.interface_count, 3);
    assert_eq!(iad.function_class, 0xEF);
    assert_eq!(Iad::from_desc(&[0]), None);
    assert_eq!(Iad::from_desc(&[9, 0x04]), None);
}

#[test]
fn info_descriptor_from_desc() {
    let d = DeviceInfoDescriptor::from_desc(&info_desc(0x04)).unwrap();
    assert_eq!(d.gencp_version_major, 1);
    assert_eq!(d.gencp_version_minor, 0);
    assert_eq!(d.u3v_version_major, 1);
    assert_eq!(d.family_name_idx, 0);
    assert_eq!(d.supported_speed(), Ok(BusSpeed::HighSpeed));
    let mut bad = info_desc(0x04);
    bad[2] = 7;
    assert_eq!(DeviceInfoDescriptor::from_desc(&bad), Err(U3vError::InvalidDevice));
    assert_eq!(DeviceInfoDescriptor::from_desc(&[9, 0x24, 0x01, 0, 0, 0, 0, 0, 0]), Err(U3vError::InvalidDevice));
}

#[test]
fn info_descriptor_interpret() {
    let d = DeviceInfoDescriptor::from_desc(&info_desc(0x10)).unwrap();
    let info = d.interpret(|idx: u8| Ok(format!("#{idx}"))).unwrap();
    assert_eq!(info.guid, "#1");
    assert_eq!(info.vendor_name, "#2");
    assert_eq!(info.model_name, "#3");
    assert_eq!(info.family_name, None);
    assert_eq!(info.device_version, "#4");
    assert_eq!(info.manufacturer_info, "#5");
    assert_eq!(info.serial_number, "#6");
    assert_eq!(info.user_defined_name, None);
    assert_eq!(info.supported_speed, BusSpeed::SuperSpeedPlus);
    let failing = d.interpret(|_| Err(U3vError::NUsb("stall".to_string())));
    assert_eq!(failing, Err(U3vError::NUsb("stall".to_string())));
}

#[test]
fn control_iface_from_alt_settings() {
    let iface = control_iface(0);
    assert_eq!(
        ControlIfaceInfo::new(0, &iface.alt_settings),
        Ok(ControlIfaceInfo { iface_number: 0, bulk_in_ep: 0x81, bulk_out_ep: 0x01 })
    );
    let swapped = vec![alt(0x00, vec![ep(0x02, Direction::Out), ep(0x82, Direction::In)], vec![])];
    assert_eq!(
        ControlIfaceInfo::new(2, &swapped),
        Ok(ControlIfaceInfo { iface_number: 2, bulk_in_ep: 0x82, bulk_out_ep: 0x02 })
    );
    assert_eq!(ControlIfaceInfo::new(0, &vec![]), Err(U3vError::InvalidDevice));
    let both_in = vec![alt(0x00, vec![ep(0x81, Direction::In), ep(0x82, Direction::In)], vec![])];
    assert_eq!(ControlIfaceInfo::new(0, &both_in), Err(U3vError::InvalidDevice));
}

#[test]
fn receive_iface_kinds() {
    assert_eq!(
        ReceiveIfaceInfo::new(1, &receive_iface(1, 0x01, 0x83).alt_settings),
        Some((ReceiveIfaceInfo { iface_number: 1, bulk_in_ep: 0x83 }, ReceiveIfaceKind::Event))
    );
    assert_eq!(
        ReceiveIfaceInfo::new(2, &receive_iface(2, 0x02, 0x84).alt_settings),
        Some((ReceiveIfaceInfo { iface_number: 2, bulk_in_ep: 0x84 }, ReceiveIfaceKind::Stream))
    );
    assert_eq!(ReceiveIfaceInfo::new(3, &receive_iface(3, 0x03, 0x85).alt_settings), None);
    let out_ep = vec![alt(0x02, vec![ep(0x05, Direction::Out)], vec![])];
    assert_eq!(ReceiveIfaceInfo::new(3, &out_ep), None);
}

#[test]
fn receive_iface_uses_alternate_setting_zero() {
    let mut other = alt(0x03, vec![ep(0x86, Direction::In)], vec![]);
    other.alternate_setting = 1;
    let alts = vec![other, alt(0x02, vec![ep(0x87, Direction::In)], vec![])];
    assert_eq!(
        ReceiveIfaceInfo::new(4, &alts),
        Some((ReceiveIfaceInfo { iface_number: 4, bulk_in_ep: 0x87 }, ReceiveIfaceKind::Stream))
    );
}

#[test]
fn pair_receive_ifaces_any_order() {
    let ev = ReceiveIfaceInfo { iface_number: 1, bulk_in_ep: 0x83 };
    let st = ReceiveIfaceInfo { iface_number: 2, bulk_in_ep: 0x84 };
    let a = pair_receive_ifaces(vec![(ev.clone(), ReceiveIfaceKind::Event), (st.clone(), ReceiveIfaceKind::Stream)]);
    let b = pair_receive_ifaces(vec![(st.clone(), ReceiveIfaceKind::Stream), (ev.clone(), ReceiveIfaceKind::Event)]);
    assert_eq!(a, Ok((Some(ev.clone()), Some(st.clone()))));
    assert_eq!(a, b);
    assert_eq!(pair_receive_ifaces(vec![]), Ok((None, None)));
    assert_eq!(pair_receive_ifaces(vec![(ev.clone(), ReceiveIfaceKind::Event)]), Ok((Some(ev.clone()), None)));
    assert_eq!(pair_receive_ifaces(vec![(st.clone(), ReceiveIfaceKind::Stream)]), Ok((None, Some(st.clone()))));
}

#[test]
fn pair_receive_ifaces_rejects_duplicates_and_extras() {
    let st = ReceiveIfaceInfo { iface_number: 2, bulk_in_ep: 0x84 };
    let two_streams = vec![(st.clone(), ReceiveIfaceKind::Stream), (st.clone(), ReceiveIfaceKind::Stream)];
    assert_eq!(pair_receive_ifaces(two_streams), Err(U3vError::InvalidDevice));
    let three = vec![
        (st.clone(), ReceiveIfaceKind::Stream),
        (st.clone(), ReceiveIfaceKind::Event),
        (st.clone(), ReceiveIfaceKind::Stream),
    ];
    assert_eq!(pair_receive_ifaces(three), Err(U3vError::InvalidDevice));
}

#[test]
fn find_u3v_iad_in_configs() {
    assert_eq!(DeviceBuilder::find_u3v_iad_in_config(&config()).unwrap().first_interface, 0);
    let mut ep_with_iad = ep(0x81, Direction::In);
    ep_with_iad.descriptors = vec![u3v_iad_desc(7)];
    assert_eq!(DeviceBuilder::find_u3v_iad_in_ep(&ep_with_iad).unwrap().first_interface, 7);
    let setting = alt(0x00, vec![ep_with_iad], vec![]);
    assert_eq!(DeviceBuilder::find_u3v_iad_in_ifce(&setting).unwrap().first_interface, 7);
    let empty = ConfigInfo { descriptors: vec![], interfaces: vec![] };
    assert_eq!(DeviceBuilder::find_u3v_iad(&vec![empty.clone(), config()]).map(|(i, k)| (i.first_interface, k)), Some((0, 1)));
    assert!(DeviceBuilder::find_u3v_iad(&vec![empty]).is_none());
}

#[test]
fn device_builder_control_and_receive_interfaces() {
    let interfaces = vec![control_iface(0), receive_iface(1, 0x01, 0x83), receive_iface(2, 0x02, 0x84)];
    assert!(DeviceBuilder::new(0xEF, 0x02, 0x00, &vec![config()], interfaces.clone()).is_none());
    let builder = DeviceBuilder::new(0xEF, 0x02, 0x01, &vec![config()], interfaces).unwrap();
    let (ctrl, desc, index) = builder.control_interface().unwrap();
    assert_eq!(ctrl, ControlIfaceInfo { iface_number: 0, bulk_in_ep: 0x81, bulk_out_ep: 0x01 });
    assert_eq!(desc.supported_speed_mask, 0x08);
    assert_eq!(index, 0);
    assert_eq!(
        builder.receive_interfaces(index),
        Ok((
            Some(ReceiveIfaceInfo { iface_number: 1, bulk_in_ep: 0x83 }),
            Some(ReceiveIfaceInfo { iface_number: 2, bulk_in_ep: 0x84 })
        ))
    );
}

#[test]
fn device_builder_missing_control_interface() {
    let builder = DeviceBuilder::new(0xEF, 0x02, 0x01, &vec![config()], vec![receive_iface(1, 0x02, 0x84)]).unwrap();
    assert!(matches!(builder.control_interface(), Err(U3vError::InvalidDevice)));
}

#[test]
fn desc_in_bounds_detects_short_associations() {
    assert!(Iad::desc_in_bounds(&u3v_iad_desc(0)));
    assert!(Iad::desc_in_bounds(&[0]));
    assert!(Iad::desc_in_bounds(&[9, 0x04]));
    assert!(!Iad::desc_in_bounds(&[]));
    assert!(!Iad::desc_in_bounds(&[8]));
    assert!(!Iad::desc_in_bounds(&[8, 0x0B, 0, 1]));
}

#[test]
fn u3v_error_messages() {
    assert_eq!(U3vError::InvalidPacket("short".to_string()).message(), "packet is broken: short");
    assert_eq!(U3vError::NoInterface.message(), "No open interface found");
    assert_eq!(U3vError::InvalidDevice.message(), "device doesn't follow the specification");
}

#[test]
fn configs_in_bounds_stops_at_the_association() {
    assert!(DeviceBuilder::configs_in_bounds(&vec![config()]));
    let short = ConfigInfo { descriptors: vec![vec![8, 0x0B, 0]], interfaces: vec![] };
    assert!(!DeviceBuilder::configs_in_bounds(&vec![short.clone()]));
    assert!(!DeviceBuilder::configs_in_bounds(&vec![short.clone(), config()]));
    assert!(DeviceBuilder::configs_in_bounds(&vec![config(), short.clone()]));
    let found_then_short = ConfigInfo { descriptors: vec![u3v_iad_desc(0), vec![8, 0x0B, 0]], interfaces: vec![] };
    assert!(DeviceBuilder::configs_in_bounds(&vec![found_then_short]));
    assert!(DeviceBuilder::configs_in_bounds(&vec![]));
}

#[test]
fn control_interface_readable_where_info_descriptor_is_found() {
    let iad = Iad::from_desc(&u3v_iad_desc(0)).unwrap();
    let builder = DeviceBuilder { u3v_iad: iad, interfaces: vec![control_iface(0)] };
    assert!(builder.control_interface_readable());
    let mut no_info = control_iface(0);
    no_info.alt_settings[0].descriptors = vec![vec![9, 0x21, 0, 0, 0, 0, 0, 0, 0]];
    let builder = DeviceBuilder { u3v_iad: iad, interfaces: vec![no_info] };
    assert!(!builder.control_interface_readable());
    let mut short_first = control_iface(0);
    short_first.alt_settings[0].descriptors.insert(0, vec![2, 0x24]);
    let builder = DeviceBuilder { u3v_iad: iad, interfaces: vec![short_first] };
    assert!(!builder.control_interface_readable());
    let builder = DeviceBuilder { u3v_iad: iad, interfaces: vec![control_iface(4)] };
    assert!(builder.control_interface_readable());
    assert!(matches!(builder.control_interface(), Err(U3vError::InvalidDevice)));
}
