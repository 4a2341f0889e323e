use epp_client::ack::MessageAck;
use epp_client::binding::{
    compatible, response_kind, Command, CommandKind, ExtensionKind, ExtensionValue, ResponseKind,
};
use epp_client::consolidate::{GMonthDay, Update};
use epp_client::error::ConfigurationError;
use epp_client::namestore::NameStore;
use epp_client::request::NoExtension;

#[test]
fn message_ack_encodes_operation_and_id() {
    let ack: MessageAck<NoExtension> = MessageAck::<NoExtension>::new(12345);
    assert_eq!(ack.request.op, "ack");
    assert_eq!(ack.request.message_id, "12345");

    let encoded = ack.request.encode();
    assert_eq!(encoded.render(), "<poll op=\"ack\"><msgID>12345</msgID></poll>");

    let (request, extension) = ack.into_parts();
    assert_eq!(request.op, "ack");
    assert!(extension.is_none());
}

#[test]
fn message_ack_rebinds_its_extension_slot() {
    let ack: MessageAck<NoExtension> = MessageAck::<NoExtension>::new(7);
    assert_eq!(ack.request.message_id, "7");
    let with_ns: MessageAck<NameStore> = ack.with_extension(NameStore::new("com"));
    let (request, extension) = with_ns.into_parts();
    assert_eq!(request.op, "ack");
    assert_eq!(extension.unwrap().data.subproduct, "com");
}

#[test]
fn undeclared_pairing_is_rejected_before_encode() {
    let exp = GMonthDay::new(5, 31, None).unwrap();
    let cmd = Command::new(CommandKind::DomainCheck);
    let rejected = cmd.attach(ExtensionValue::SyncUpdate(Update::new(exp)));
    assert_eq!(rejected, Err(ConfigurationError::IncompatibleExtension));
}

#[test]
fn declared_pairings_are_accepted() {
    let cmd = Command::new(CommandKind::DomainCheck);
    let bound = cmd
        .attach(ExtensionValue::NameStore(NameStore::new("com")))
        .unwrap();
    assert_eq!(bound.kind, CommandKind::DomainCheck);
    assert_eq!(bound.expected_response(), ResponseKind::NameStore);

    assert!(compatible(CommandKind::DomainUpdate, ExtensionKind::RgpRestore));
    assert!(compatible(CommandKind::DomainInfo, ExtensionKind::RgpRestore));
    assert!(compatible(CommandKind::DomainUpdate, ExtensionKind::SyncUpdate));
    assert!(!compatible(CommandKind::DomainInfo, ExtensionKind::SyncUpdate));
    assert!(!compatible(CommandKind::PollAck, ExtensionKind::RgpRestore));
    assert!(compatible(CommandKind::PollAck, ExtensionKind::NoExtension));
}

#[test]
fn response_type_is_fixed_by_the_extension_alone() {
    assert_eq!(response_kind(ExtensionKind::NoExtension), ResponseKind::NoResponse);
    assert_eq!(response_kind(ExtensionKind::NameStore), ResponseKind::NameStore);
    assert_eq!(response_kind(ExtensionKind::SyncUpdate), ResponseKind::NoResponse);
    assert_eq!(
        response_kind(ExtensionKind::SyncUpdateWithNameStore),
        ResponseKind::NameStore
    );
    assert_eq!(response_kind(ExtensionKind::RgpRestore), ResponseKind::RgpRequest);
}

#[test]
fn sentinel_extension_produces_no_section() {
    let cmd = Command::new(CommandKind::PollAck);
    assert!(cmd.encode_extension_section().is_none());
}

#[test]
fn attached_extension_produces_one_wrapper() {
    let cmd = Command::new(CommandKind::DomainCheck);
    let bound = cmd
        .attach(ExtensionValue::NameStore(NameStore::new("com")))
        .unwrap();
    let section = bound.encode_extension_section().unwrap();
    assert_eq!(section.name, "extension");
    assert_eq!(section.children.len(), 1);
    assert_eq!(section.children[0].name, "namestoreExt:namestoreExt");
}

#[test]
fn attaching_again_replaces_the_slot() {
    let cmd = Command::new(CommandKind::DomainCheck);
    let first = cmd
        .attach(ExtensionValue::NameStore(NameStore::new("com")))
        .unwrap();
    let second = first
        .attach(ExtensionValue::NameStore(NameStore::new("net")))
        .unwrap();
    match second.extension {
        ExtensionValue::NameStore(ns) => assert_eq!(ns.data.subproduct, "net"),
        _ => panic!("Unexpected extension"),
    }
}
