use epp_client::binding::{Command, CommandKind, ExtensionValue};
use epp_client::consolidate::{GMonthDay, Update, UpdateWithNameStore};

#[test]
fn command() {
    let exp = GMonthDay::new(5, 31, None).unwrap();

    let consolidate_ext = Update::new(exp);
    assert_eq!(consolidate_ext.exp, "--05-31");

    let object = Command::new(CommandKind::DomainUpdate);
    let bound = object
        .attach(ExtensionValue::SyncUpdate(consolidate_ext))
        .unwrap();

    let section = bound.encode_extension_section().unwrap();
    assert_eq!(
        section.render(),
        "<extension><update xmlns=\"http://www.verisign.com/epp/sync-1.0\">\
         <expMonthDay>--05-31</expMonthDay></update></extension>"
    );
}

#[test]
fn command_with_namestore() {
    let exp = GMonthDay::new(5, 31, None).unwrap();

    let consolidate_ext = UpdateWithNameStore::new(exp, "com");

    let object = Command::new(CommandKind::DomainUpdate);
    let bound = object
        .attach(ExtensionValue::SyncUpdateWithNameStore(consolidate_ext))
        .unwrap();

    let section = bound.encode_extension_section().unwrap();
    assert_eq!(
        section.render(),
        "<extension><update xmlns=\"http://www.verisign.com/epp/sync-1.0\">\
         <expMonthDay>--05-31</expMonthDay>\
         <namestoreExt:namestoreExt xmlns:namestoreExt=\"http://www.verisign-grs.com/epp/namestoreExt-1.1\">\
         <namestoreExt:subProduct>com</namestoreExt:subProduct>\
         </namestoreExt:namestoreExt></update></extension>"
    );
}

#[test]
fn update_roundtrips_through_the_codec() {
    let exp = GMonthDay::new(2, 29, None).unwrap();
    let ext = Update::new(exp);
    let encoded = ext.encode();
    let back = Update::decode(&encoded).unwrap();
    assert_eq!(back, ext);
}

#[test]
fn composite_encodes_without_extra_wrapper() {
    let exp = GMonthDay::new(5, 31, None).unwrap();
    let ext = UpdateWithNameStore::new(exp, "com");
    let encoded = ext.encode();

    assert_eq!(encoded.name, "update");
    assert_eq!(encoded.children.len(), 2);
    assert_eq!(encoded.children[0].name, "expMonthDay");
    assert_eq!(encoded.children[0].text.as_deref(), Some("--05-31"));
    assert_eq!(encoded.children[1].name, "namestoreExt:namestoreExt");
    assert_eq!(encoded.children[1].children.len(), 1);
    assert_eq!(encoded.children[1].children[0].name, "namestoreExt:subProduct");
    assert_eq!(encoded.children[1].children[0].text.as_deref(), Some("com"));

    let back = UpdateWithNameStore::decode(&encoded).unwrap();
    assert_eq!(back, ext);
}

#[test]
fn composite_decodes_with_bare_names() {
    let exp = GMonthDay::new(5, 31, None).unwrap();
    let ext = UpdateWithNameStore::new(exp, "com");
    let mut encoded = ext.encode();

    encoded.children[1].name = String::from("namestoreExt");
    encoded.children[1].attrs[0].name = String::from("xmlns");
    encoded.children[1].children[0].name = String::from("subProduct");

    let back = UpdateWithNameStore::decode(&encoded).unwrap();
    assert_eq!(back.sync, ext.sync);
    assert_eq!(back.namestore, ext.namestore);
}

#[test]
fn update_decode_rejects_other_elements() {
    let exp = GMonthDay::new(5, 31, None).unwrap();
    let mut encoded = Update::new(exp).encode();
    encoded.name = String::from("restore");
    assert!(Update::decode(&encoded).is_err());
}
