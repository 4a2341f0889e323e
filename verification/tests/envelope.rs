use epp_client::binding::ResponseKind;
use epp_client::namestore::NameStore;
use epp_client::response::{decode_response, ResponseExtensionValue};
use epp_client::xml::{XmlAttr, XmlElement};

fn text_elem(name: &str, text: &str) -> XmlElement {
    XmlElement {
        name: name.to_string(),
        attrs: vec![],
        text: Some(text.to_string()),
        children: vec![],
    }
}

fn plain_response(code: &str) -> XmlElement {
    let result = XmlElement {
        name: "result".to_string(),
        attrs: vec![XmlAttr { name: "code".to_string(), value: code.to_string() }],
        text: None,
        children: vec![text_elem("msg", "Command completed successfully")],
    };
    let tr_id = XmlElement {
        name: "trID".to_string(),
        attrs: vec![],
        text: None,
        children: vec![text_elem("svTRID", "SRV-42")],
    };
    let response = XmlElement {
        name: "response".to_string(),
        attrs: vec![],
        text: None,
        children: vec![result, tr_id],
    };
    XmlElement { name: "epp".to_string(), attrs: vec![], text: None, children: vec![response] }
}

#[test]
fn absent_extension_wrapper_yields_none_not_an_error() {
    let doc = plain_response("1000");
    let env = decode_response(&doc, ResponseKind::RgpRequest).unwrap();
    assert_eq!(env.result.code, 1000);
    assert_eq!(env.result.message, "Command completed successfully");
    assert!(env.extension.is_none());
    assert!(env.tr_ids.client_tr_id.is_none());
    assert_eq!(env.tr_ids.server_tr_id, "SRV-42");
}

#[test]
fn non_numeric_result_code_is_rejected() {
    let doc = plain_response("ok");
    assert!(decode_response(&doc, ResponseKind::NoResponse).is_err());
}

#[test]
fn result_code_above_the_wire_range_is_rejected() {
    let doc = plain_response("70000");
    assert!(decode_response(&doc, ResponseKind::NoResponse).is_err());
}

#[test]
fn missing_result_element_is_rejected() {
    let mut doc = plain_response("1000");
    doc.children[0].children.remove(0);
    assert!(decode_response(&doc, ResponseKind::NoResponse).is_err());
}

fn response_with_extension(fragment: XmlElement) -> XmlElement {
    let mut doc = plain_response("1000");
    let wrapper = XmlElement {
        name: "extension".to_string(),
        attrs: vec![],
        text: None,
        children: vec![fragment],
    };
    doc.children[0].children.insert(1, wrapper);
    doc
}

#[test]
fn namestore_response_extension_decodes_typed() {
    let doc = response_with_extension(NameStore::new("com").encode());
    let env = decode_response(&doc, ResponseKind::NameStore).unwrap();
    match env.extension.unwrap() {
        ResponseExtensionValue::NameStore(ns) => assert_eq!(ns.data.subproduct, "com"),
        _ => panic!("Unexpected response type"),
    }
}

#[test]
fn unexpected_extension_is_ignored_when_none_is_expected() {
    let doc = response_with_extension(NameStore::new("com").encode());
    let env = decode_response(&doc, ResponseKind::NoResponse).unwrap();
    assert!(env.extension.is_none());
}

#[test]
fn mismatched_extension_shape_is_rejected() {
    let doc = response_with_extension(NameStore::new("com").encode());
    assert!(decode_response(&doc, ResponseKind::RgpRequest).is_err());
}
