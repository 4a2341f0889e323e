use epp_client::domain::{Availability, DomainCheckResult};
use epp_client::namestore::NameStore;
use epp_client::xml::{XmlAttr, XmlElement};

#[test]
fn namestore_roundtrips_through_the_codec() {
    let ns = NameStore::new("com");
    assert_eq!(ns.data.xmlns, "http://www.verisign-grs.com/epp/namestoreExt-1.1");
    assert_eq!(ns.data.subproduct, "com");
    let encoded = ns.encode();
    let back = NameStore::decode(&encoded).unwrap();
    assert_eq!(back, ns);
}

#[test]
fn namestore_decodes_with_bare_names() {
    let ns = NameStore::new("dotorg");
    let mut encoded = ns.encode();
    encoded.name = String::from("namestoreExt");
    encoded.attrs[0].name = String::from("xmlns");
    encoded.children[0].name = String::from("subProduct");
    let back = NameStore::decode(&encoded).unwrap();
    assert_eq!(back, ns);
}

#[test]
fn namestore_decode_reports_what_is_missing() {
    let ns = NameStore::new("com");
    let mut encoded = ns.encode();
    encoded.attrs.clear();
    assert!(NameStore::decode(&encoded).is_err());

    let mut no_child = ns.encode();
    no_child.children.clear();
    assert!(NameStore::decode(&no_child).is_err());
}

#[test]
fn rendered_text_escapes_markup() {
    let ns = NameStore::new("a&b<c>");
    let text = ns.encode().render();
    assert_eq!(
        text,
        "<namestoreExt:namestoreExt xmlns:namestoreExt=\"http://www.verisign-grs.com/epp/namestoreExt-1.1\">\
         <namestoreExt:subProduct>a&amp;b&lt;c&gt;</namestoreExt:subProduct>\
         </namestoreExt:namestoreExt>"
    );
}

fn cd_entry(name: &str, avail: &str, reason: Option<&str>) -> XmlElement {
    let mut children = vec![XmlElement {
        name: "domain:name".to_string(),
        attrs: vec![XmlAttr { name: "avail".to_string(), value: avail.to_string() }],
        text: Some(name.to_string()),
        children: vec![],
    }];
    if let Some(r) = reason {
        children.push(XmlElement {
            name: "domain:reason".to_string(),
            attrs: vec![],
            text: Some(r.to_string()),
            children: vec![],
        });
    }
    XmlElement { name: "domain:cd".to_string(), attrs: vec![], text: None, children }
}

#[test]
fn check_data_decodes_in_document_order() {
    let chk = XmlElement {
        name: "domain:chkData".to_string(),
        attrs: vec![],
        text: None,
        children: vec![
            cd_entry("eppdev.com", "1", None),
            cd_entry("eppdev.net", "0", Some("In use")),
        ],
    };
    let result = DomainCheckResult::decode(&chk).unwrap();
    let list = &result.check_data.domain_list;
    assert_eq!(list.len(), 2);
    assert_eq!(list[0].name.name, "eppdev.com");
    assert_eq!(list[0].name.avail, 1);
    assert!(list[0].reason.is_none());
    assert_eq!(list[1].name.name, "eppdev.net");
    assert_eq!(list[1].name.avail, 0);
    assert_eq!(list[1].reason.as_deref(), Some("In use"));
    assert_eq!(Availability::from_avail(list[0].name.avail), Availability::Available);
    assert_eq!(Availability::from_avail(list[1].name.avail), Availability::Unavailable);
}

#[test]
fn check_data_decodes_with_bare_names() {
    let chk = XmlElement {
        name: "chkData".to_string(),
        attrs: vec![],
        text: None,
        children: vec![XmlElement {
            name: "cd".to_string(),
            attrs: vec![],
            text: None,
            children: vec![XmlElement {
                name: "name".to_string(),
                attrs: vec![XmlAttr { name: "avail".to_string(), value: "1".to_string() }],
                text: Some("eppdev.com".to_string()),
                children: vec![],
            }],
        }],
    };
    let result = DomainCheckResult::decode(&chk).unwrap();
    assert_eq!(result.check_data.domain_list[0].name.name, "eppdev.com");
}

#[test]
fn check_data_rejects_a_bad_avail_flag() {
    let chk = XmlElement {
        name: "domain:chkData".to_string(),
        attrs: vec![],
        text: None,
        children: vec![cd_entry("eppdev.com", "yes", None)],
    };
    assert!(DomainCheckResult::decode(&chk).is_err());
}

#[test]
fn attribute_values_escape_quotes() {
    let elem = XmlElement {
        name: "restore".to_string(),
        attrs: vec![XmlAttr { name: "op".to_string(), value: "a\"b".to_string() }],
        text: None,
        children: vec![],
    };
    assert_eq!(elem.render(), "<restore op=\"a&quot;b\"/>");
}
