use cameleon::genapi::{ImmOrPNode, NameSpace, NodeId, NodeStore, Parser, StringNode, Visibility};
use cameleon::xml;

#[test]
fn test_parser() {
    let xml = r#"
        <RegisterDescription
          ModelName="CameleonModel"
          VendorName="CameleonVendor"
          StandardNameSpace="None"
          SchemaMajorVersion="1"
          SchemaMinorVersion="1"
          SchemaSubMinorVersion="0"
          MajorVersion="1"
          MinorVersion="2"
          SubMinorVersion="3"
          ToolTip="ToolTiptest"
          ProductGuid="01234567-0123-0123-0123-0123456789ab"
          VersionGuid="76543210-3210-3210-3210-ba9876543210"
          xmlns="http://www.genicam.org/GenApi/Version_1_0"
          xmlns:xsi="http://www.w3.org/2001/XMLSchema-instance"
          xsi:schemaLocation="http://www.genicam.org/GenApi/Version_1_0 GenApiSchema.xsd">

            <Category Name="Root" NameSpace="Standard">
                <pFeature>MyInt</pFeature>
            </Category>

            <Integer Name="MyInt">
                <Value>10</Value>
            </Integer>

        </RegisterDescription>
        "#;
    let parser = Parser::from_bytes(xml.as_bytes()).unwrap();
    parser.parse().unwrap();
}

#[test]
fn test_string_with_imm() {
    let xml = r#"
        <String Name="TestNode">
            <Streamable>Yes</Streamable>
            <Value>Immediate String</Value>
        </String>
        "#;

    let mut store = NodeStore::new();
    let node: StringNode = xml::Document::from_str(&xml)
        .unwrap()
        .root_node()
        .parse(&mut store);

    assert_eq!(node.streamable(), true);
    assert_eq!(node.value(), &ImmOrPNode::Imm("Immediate String".into()));
}

#[test]
fn test_string_with_p_node() {
    let xml = r#"
        <String Name="TestNode">
            <pValue>AnotherStringNode</pValue>
        </String>
        "#;

    let mut store = NodeStore::new();
    let node: StringNode = xml::Document::from_str(&xml)
        .unwrap()
        .root_node()
        .parse(&mut store);

    assert_eq!(node.streamable(), false);
    assert_eq!(
        node.value(),
        &ImmOrPNode::PNode(store.id_by_name("AnotherStringNode"))
    );
}

#[test]
fn parser_reads_description_attributes_and_nodes() {
    let xml = r#"<RegisterDescription ModelName="M" VendorName="V">
        <Category Name="Root"/><Integer Name="MyInt"/><Integer/></RegisterDescription>"#;
    let parser = Parser::from_bytes(xml.as_bytes()).unwrap();
    assert_eq!(parser.inner_str(), xml);
    let (desc, store) = parser.parse().unwrap();
    assert_eq!(desc.model_name.as_deref(), Some("M"));
    assert_eq!(desc.vendor_name.as_deref(), Some("V"));
    assert_eq!(desc.tooltip, None);
    assert_eq!(desc.nodes, vec![NodeId(0), NodeId(1)]);
    assert_eq!(store.name_by_id(NodeId(1)), Some("MyInt"));
    assert_eq!(store.len(), 2);
}

#[test]
fn parser_rejects_invalid_utf8_and_xml() {
    let bad_utf8: &[u8] = &[0x3c, 0xff, 0xfe, 0x3e];
    assert!(matches!(
        Parser::from_bytes(bad_utf8),
        Err(cameleon::genapi::ParseError::Utf8Error(_))
    ));
    assert!(matches!(
        Parser::from_bytes(b"<a><b></a>"),
        Err(cameleon::genapi::ParseError::InvalidSyntax(_))
    ));
}

#[test]
fn string_node_reads_base_and_invalidators() {
    let xml = r#"<String Name="S" NameSpace="Standard">
            <ToolTip>tip</ToolTip>
            <Visibility>Guru</Visibility>
            <pInvalidator>A</pInvalidator>
            <pInvalidator>B</pInvalidator>
            <pInvalidator>A</pInvalidator>
            <Value>v</Value>
        </String>"#;
    let mut store = NodeStore::new();
    let node: StringNode = xml::Document::from_str(xml).unwrap().root_node().parse(&mut store);
    let base = node.node_base();
    assert_eq!(base.id(), NodeId(0));
    assert_eq!(base.name_space(), NameSpace::Standard);
    assert_eq!(base.tooltip(), Some("tip"));
    assert_eq!(base.visibility(), Visibility::Guru);
    assert_eq!(node.p_invalidators(), &[NodeId(1), NodeId(2), NodeId(1)]);
    assert_eq!(node.streamable(), false);
    assert_eq!(node.value(), &ImmOrPNode::Imm("v".to_string()));
}

#[test]
fn node_store_keeps_ids() {
    let mut store = NodeStore::new();
    let a = store.id_by_name("a");
    let b = store.id_by_name("b");
    assert_ne!(a, b);
    assert_eq!(store.id_by_name("a"), a);
    assert_eq!(store.id_by_name("b"), b);
    assert_eq!(store.len(), 2);
    assert_eq!(store.name_by_id(a), Some("a"));
    assert_eq!(store.name_by_id(NodeId(7)), None);
}

#[test]
fn xml_node_cursor_consumes_children_in_order() {
    let doc = xml::Document::from_str(r#"<r k="v"><a>1</a><b/><c>3</c></r>"#).unwrap();
    let mut node = doc.root_node();
    assert_eq!(node.tag_name(), "r");
    assert_eq!(node.attribute_of("k"), Some("v"));
    assert_eq!(node.attribute_of("x"), None);
    assert!(node.next_if("b").is_none());
    assert_eq!(node.next_if("a").unwrap().text(), "1");
    assert_eq!(node.next_text(), Some(""));
    assert_eq!(node.next().unwrap().tag_name(), "c");
    assert!(node.next().is_none());
}
