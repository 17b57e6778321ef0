use cameleon::usb3::{
    ConfigDesc, ControlIfaceInfo, DeviceBuilder, DeviceInfo, DeviceInfoDescriptor, Direction,
    EndpointDesc, Error, Interface, InterfaceDesc, SupportedSpeed, TransferType, IAD,
};

fn u3v_iad_bytes(first_interface: u8) -> Vec<u8> {
    vec![8, 0x0B, first_interface, 3, 0xEF, 0x05, 0x00, 0x00]
}

fn info_desc_bytes(speed_mask: u8) -> Vec<u8> {
    vec![
        20, 0x24, 0x01, // length, type, subtype
        0x02, 0x00, // GenCP minor
        0x01, 0x00, // GenCP major
        0x03, 0x00, // U3V minor
        0x01, 0x00, // U3V major
        1, 2, 3, 4, 5, 6, 7, 8, // string indices
        speed_mask,
    ]
}

fn bulk(address: u8, direction: Direction) -> EndpointDesc {
    EndpointDesc { address, direction, transfer_type: TransferType::Bulk, extra: None }
}

fn control_desc(extra: Option<Vec<u8>>) -> InterfaceDesc {
    InterfaceDesc {
        class_code: 0xEF,
        sub_class_code: 0x05,
        protocol_code: 0x00,
        endpoints: vec![bulk(0x81, Direction::In), bulk(0x01, Direction::Out)],
        extra,
    }
}

fn u3v_config() -> ConfigDesc {
    ConfigDesc {
        number: 1,
        interfaces: vec![Interface { number: 0, descriptors: vec![control_desc(Some(info_desc_bytes(0x08)))] }],
        extra: Some(u3v_iad_bytes(0)),
    }
}

#[test]
fn iad_from_bytes_skips_other_descriptors() {
    let mut bytes = vec![9, 0x04, 0, 0, 0, 0, 0, 0, 0];
    bytes.extend(u3v_iad_bytes(2));
    let iad = IAD::from_bytes(&bytes).unwrap();
    assert_eq!(
        iad,
        IAD {
            length: 8,
            descriptor_type: 0x0B,
            first_interface: 2,
            interface_count: 3,
            function_class: 0xEF,
            function_subclass: 0x05,
            function_protocol: 0x00,
            function: 0x00,
        }
    );
}

#[test]
fn iad_from_bytes_length_one_steps_a_byte() {
    let mut bytes = vec![1];
    bytes.extend(u3v_iad_bytes(4));
    assert_eq!(IAD::from_bytes(&bytes).unwrap().first_interface, 4);
}

#[test]
fn iad_from_bytes_zero_length_ends_the_walk() {
    let mut bytes = vec![0];
    bytes.extend(u3v_iad_bytes(0));
    assert_eq!(IAD::from_bytes(&bytes), None);
    assert_eq!(IAD::from_bytes(&[]), None);
}

#[test]
fn device_info_descriptor_from_bytes_decodes_fields() {
    let desc = DeviceInfoDescriptor::from_bytes(&info_desc_bytes(0x08)).unwrap();
    assert_eq!(desc.length, 20);
    assert_eq!(desc.gen_cp_version_minor, 2);
    assert_eq!(desc.gen_cp_version_major, 1);
    assert_eq!(desc.u3v_version_minor, 3);
    assert_eq!(desc.u3v_version_major, 1);
    assert_eq!(desc.guid_idx, 1);
    assert_eq!(desc.vendor_name_idx, 2);
    assert_eq!(desc.model_name_idx, 3);
    assert_eq!(desc.family_name_idx, 4);
    assert_eq!(desc.device_version_idx, 5);
    assert_eq!(desc.manufacture_info_idx, 6);
    assert_eq!(desc.serial_number_idx, 7);
    assert_eq!(desc.user_defined_name_idx, 8);
    assert_eq!(desc.supported_speed_mask, 0x08);
}

#[test]
fn device_info_descriptor_from_bytes_rejects_bad_input() {
    let good = info_desc_bytes(0x08);
    assert_eq!(DeviceInfoDescriptor::from_bytes(&good[..19]), Err(Error::InvalidDevice));
    let mut bad_type = good.clone();
    bad_type[1] = 0x25;
    assert_eq!(DeviceInfoDescriptor::from_bytes(&bad_type), Err(Error::InvalidDevice));
    let mut bad_subtype = good.clone();
    bad_subtype[2] = 0x02;
    assert_eq!(DeviceInfoDescriptor::from_bytes(&bad_subtype), Err(Error::InvalidDevice));
    let mut short_length = good.clone();
    short_length[0] = 19;
    assert_eq!(DeviceInfoDescriptor::from_bytes(&short_length), Err(Error::InvalidDevice));
}

#[test]
fn supported_speed_takes_the_highest_bit() {
    let speed = |mask: u8| DeviceInfoDescriptor::from_bytes(&info_desc_bytes(mask)).unwrap().supported_speed();
    assert_eq!(speed(0x1F), Ok(SupportedSpeed::SuperSpeedPlus));
    assert_eq!(speed(0x0F), Ok(SupportedSpeed::SuperSpeed));
    assert_eq!(speed(0x04), Ok(SupportedSpeed::HighSpeed));
    assert_eq!(speed(0x03), Ok(SupportedSpeed::FullSpeed));
    assert_eq!(speed(0x01), Ok(SupportedSpeed::LowSpeed));
    assert_eq!(speed(0x00), Err(Error::InvalidDevice));
    assert_eq!(speed(0x20), Err(Error::InvalidDevice));
}

#[test]
fn interpret_reads_the_named_strings() {
    let mut bytes = info_desc_bytes(0x08);
    bytes[14] = 0; // no family name
    let desc = DeviceInfoDescriptor::from_bytes(&bytes).unwrap();
    let info = desc.interpret(|idx: u8| Ok(format!("s{idx}"))).unwrap();
    assert_eq!(
        info,
        DeviceInfo {
            gen_cp_version_major: 1,
            gen_cp_version_minor: 2,
            u3v_version_major: 1,
            u3v_version_minor: 3,
            guid: "s1".to_string(),
            vendor_name: "s2".to_string(),
            model_name: "s3".to_string(),
            family_name: None,
            device_version: "s5".to_string(),
            manufacture_info: "s6".to_string(),
            serial_number: "s7".to_string(),
            user_defined_name: Some("s8".to_string()),
            supported_speed: SupportedSpeed::SuperSpeed,
        }
    );
}

#[test]
fn interpret_passes_on_read_errors() {
    let desc = DeviceInfoDescriptor::from_bytes(&info_desc_bytes(0x08)).unwrap();
    let r = desc.interpret(|idx: u8| {
        if idx == 3 {
            Err(Error::LibUsb("pipe".to_string()))
        } else {
            Ok(String::new())
        }
    });
    assert_eq!(r, Err(Error::LibUsb("pipe".to_string())));
    let no_speed = DeviceInfoDescriptor::from_bytes(&info_desc_bytes(0)).unwrap();
    assert_eq!(no_speed.interpret(|_| Ok(String::new())), Err(Error::InvalidDevice));
}

#[test]
fn control_iface_info_takes_either_endpoint_order() {
    let d = control_desc(None);
    assert_eq!(
        ControlIfaceInfo::new(0, &d),
        Ok(ControlIfaceInfo { iface_number: 0, bulk_in_ep: 0x81, bulk_out_ep: 0x01 })
    );
    let mut swapped = control_desc(None);
    swapped.endpoints = vec![bulk(0x02, Direction::Out), bulk(0x82, Direction::In)];
    assert_eq!(
        ControlIfaceInfo::new(3, &swapped),
        Ok(ControlIfaceInfo { iface_number: 3, bulk_in_ep: 0x82, bulk_out_ep: 0x02 })
    );
}

#[test]
fn control_iface_info_rejects_other_interfaces() {
    let mut wrong_class = control_desc(None);
    wrong_class.protocol_code = 0x01;
    assert_eq!(ControlIfaceInfo::new(0, &wrong_class), Err(Error::InvalidDevice));
    let mut one_ep = control_desc(None);
    one_ep.endpoints.pop();
    assert_eq!(ControlIfaceInfo::new(0, &one_ep), Err(Error::InvalidDevice));
    let mut same_dir = control_desc(None);
    same_dir.endpoints = vec![bulk(0x81, Direction::In), bulk(0x82, Direction::In)];
    assert_eq!(ControlIfaceInfo::new(0, &same_dir), Err(Error::InvalidDevice));
    let mut interrupt = control_desc(None);
    interrupt.endpoints[1].transfer_type = TransferType::Interrupt;
    assert_eq!(ControlIfaceInfo::new(0, &interrupt), Err(Error::InvalidDevice));
}

#[test]
fn is_u3v_iad_checks_class_subclass_protocol() {
    let iad = IAD::from_bytes(&u3v_iad_bytes(0)).unwrap();
    assert!(DeviceBuilder::is_u3v_iad(&iad));
    let other = IAD { function_subclass: 0x06, ..iad };
    assert!(!DeviceBuilder::is_u3v_iad(&other));
}

#[test]
fn find_u3v_iad_searches_every_level() {
    let in_ep = EndpointDesc { extra: Some(u3v_iad_bytes(5)), ..bulk(0x81, Direction::In) };
    assert_eq!(DeviceBuilder::find_u3v_iad_in_ep_desc(&in_ep).unwrap().first_interface, 5);
    let mut desc = control_desc(None);
    desc.endpoints[1] = EndpointDesc { extra: Some(u3v_iad_bytes(6)), ..bulk(0x01, Direction::Out) };
    assert_eq!(DeviceBuilder::find_u3v_iad_in_if_desc(&desc).unwrap().first_interface, 6);
    let config = ConfigDesc {
        number: 1,
        interfaces: vec![Interface { number: 0, descriptors: vec![desc] }],
        extra: None,
    };
    assert_eq!(DeviceBuilder::find_u3v_iad_in_config_desc(&config).unwrap().first_interface, 6);
    let empty = ConfigDesc { number: 0, interfaces: vec![], extra: None };
    let found = DeviceBuilder::find_u3v_iad(&vec![empty.clone(), config]).unwrap();
    assert_eq!(found.0.first_interface, 6);
    assert_eq!(found.1, 1);
    assert_eq!(DeviceBuilder::find_u3v_iad(&vec![empty]), None);
}

#[test]
fn find_u3v_iad_ignores_other_associations() {
    let mut other = u3v_iad_bytes(0);
    other[4] = 0x0E; // video class
    let ep = EndpointDesc { extra: Some(other), ..bulk(0x81, Direction::In) };
    assert_eq!(DeviceBuilder::find_u3v_iad_in_ep_desc(&ep), None);
}

#[test]
fn device_builder_keeps_only_u3v_devices() {
    assert!(DeviceBuilder::new(0x00, 0x00, 0x00, vec![u3v_config()]).is_none());
    assert!(DeviceBuilder::new(0xEF, 0x02, 0x01, vec![]).is_none());
    let builder = DeviceBuilder::new(0xEF, 0x02, 0x01, vec![u3v_config()]).unwrap();
    assert_eq!(builder.u3v_iad.first_interface, 0);
    assert_eq!(builder.config_desc.number, 1);
}

#[test]
fn device_builder_build_reads_control_interface() {
    let builder = DeviceBuilder::new(0xEF, 0x02, 0x01, vec![u3v_config()]).unwrap();
    let (ctrl, desc) = builder.build().unwrap();
    assert_eq!(ctrl, ControlIfaceInfo { iface_number: 0, bulk_in_ep: 0x81, bulk_out_ep: 0x01 });
    assert_eq!(desc, DeviceInfoDescriptor::from_bytes(&info_desc_bytes(0x08)).unwrap());
}

#[test]
fn device_builder_build_errors() {
    let mut builder = DeviceBuilder::new(0xEF, 0x02, 0x01, vec![u3v_config()]).unwrap();
    builder.u3v_iad.first_interface = 9;
    assert_eq!(builder.build(), Err(Error::InvalidDevice));

    let mut no_info = DeviceBuilder::new(0xEF, 0x02, 0x01, vec![u3v_config()]).unwrap();
    no_info.config_desc.interfaces[0].descriptors[0].extra = None;
    assert_eq!(no_info.build(), Err(Error::InvalidDevice));

    let mut no_alt = DeviceBuilder::new(0xEF, 0x02, 0x01, vec![u3v_config()]).unwrap();
    no_alt.config_desc.interfaces[0].descriptors.clear();
    assert_eq!(no_alt.build(), Err(Error::InvalidDevice));
}

#[test]
fn walk_in_bounds_detects_truncated_descriptors() {
    assert!(IAD::walk_in_bounds(&u3v_iad_bytes(0)));
    assert!(IAD::walk_in_bounds(&[]));
    assert!(IAD::walk_in_bounds(&[0, 0x0B]));
    assert!(!IAD::walk_in_bounds(&[8, 0x0B, 0, 3]));
    assert!(!IAD::walk_in_bounds(&[9]));
    assert!(IAD::walk_in_bounds(&[3, 0x04, 0]));
}

#[test]
fn config_in_bounds_follows_the_search() {
    assert!(DeviceBuilder::config_in_bounds(&u3v_config()));
    let truncated = ConfigDesc { number: 1, interfaces: vec![], extra: Some(vec![5, 0x0B]) };
    assert!(!DeviceBuilder::config_in_bounds(&truncated));
    let mut desc = control_desc(None);
    desc.endpoints[1] = EndpointDesc { extra: Some(vec![9, 0x0B, 0]), ..bulk(0x01, Direction::Out) };
    let late = ConfigDesc { number: 1, interfaces: vec![Interface { number: 0, descriptors: vec![desc] }], extra: None };
    assert!(!DeviceBuilder::config_in_bounds(&late));
    let found_first = ConfigDesc { extra: Some(u3v_iad_bytes(0)), ..late };
    assert!(DeviceBuilder::config_in_bounds(&found_first));
    assert_eq!(DeviceBuilder::find_u3v_iad_in_config_desc(&found_first).unwrap().first_interface, 0);
}
