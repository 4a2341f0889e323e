use epp_client::binding::ResponseKind;
use epp_client::error::ParseError;
use epp_client::response::{decode_response, ResponseExtensionValue};
use epp_client::rgp::{
    RgpRequestInfoResponse, RgpRequestResponse, RgpRequestUpdateResponse, RgpRestoreRequest,
    RgpStatus, Update,
};
use epp_client::xml::{XmlAttr, XmlElement};

const SUCCESS_MSG: &str = "Command completed successfully";
const SVTRID: &str = "RO-9936-1729450829433216";

fn text_elem(name: &str, text: &str) -> XmlElement {
    XmlElement {
        name: name.to_string(),
        attrs: vec![],
        text: Some(text.to_string()),
        children: vec![],
    }
}

fn status_elem(token: &str) -> XmlElement {
    XmlElement {
        name: "rgp:rgpStatus".to_string(),
        attrs: vec![XmlAttr { name: "s".to_string(), value: token.to_string() }],
        text: None,
        children: vec![],
    }
}

/// A success response document whose extension section wraps `data` under
/// the grace-period `update` element.
fn response_doc(data: XmlElement) -> XmlElement {
    let result = XmlElement {
        name: "result".to_string(),
        attrs: vec![XmlAttr { name: "code".to_string(), value: "1000".to_string() }],
        text: None,
        children: vec![text_elem("msg", SUCCESS_MSG)],
    };
    let wrapper = XmlElement {
        name: "extension".to_string(),
        attrs: vec![],
        text: None,
        children: vec![XmlElement {
            name: "rgp:update".to_string(),
            attrs: vec![XmlAttr {
                name: "xmlns:rgp".to_string(),
                value: "urn:ietf:params:xml:ns:rgp-1.0".to_string(),
            }],
            text: None,
            children: vec![data],
        }],
    };
    let tr_id = XmlElement {
        name: "trID".to_string(),
        attrs: vec![],
        text: None,
        children: vec![
            text_elem("clTRID", "cltrid:1626454866"),
            text_elem("svTRID", SVTRID),
        ],
    };
    let response = XmlElement {
        name: "response".to_string(),
        attrs: vec![],
        text: None,
        children: vec![result, wrapper, tr_id],
    };
    XmlElement {
        name: "epp".to_string(),
        attrs: vec![],
        text: None,
        children: vec![response],
    }
}

#[test]
fn request_command() {
    let domain_restore_request = Update { data: RgpRestoreRequest::default() };

    assert_eq!(
        domain_restore_request.encode().render(),
        "<rgp:update xmlns:rgp=\"urn:ietf:params:xml:ns:rgp-1.0\">\
         <rgp:restore op=\"request\"/></rgp:update>"
    );
}

#[test]
fn request_response() {
    let doc = response_doc(XmlElement {
        name: "rgp:upData".to_string(),
        attrs: vec![],
        text: None,
        children: vec![status_elem("pendingRestore")],
    });
    let object = decode_response(&doc, ResponseKind::RgpRequest).unwrap();
    let ext = match object.extension.unwrap() {
        ResponseExtensionValue::RgpRequest(u) => u,
        _ => panic!("Unexpected response type"),
    };

    assert_eq!(object.result.code, 1000);
    assert_eq!(object.result.message, SUCCESS_MSG);

    let data = match ext.data {
        RgpRequestResponse::Update(data) => data,
        _ => panic!("Unexpected response type"),
    };

    assert_eq!(data.rgp_status[0], RgpStatus::PendingRestore);
    assert_eq!(object.tr_ids.server_tr_id, SVTRID);
}

#[test]
fn domain_info_request_response() {
    let doc = response_doc(XmlElement {
        name: "rgp:infData".to_string(),
        attrs: vec![],
        text: None,
        children: vec![status_elem("addPeriod"), status_elem("renewPeriod")],
    });
    let object = decode_response(&doc, ResponseKind::RgpRequest).unwrap();
    let ext = match object.extension.unwrap() {
        ResponseExtensionValue::RgpRequest(u) => u,
        _ => panic!("Unexpected response type"),
    };

    let data = match ext.data {
        RgpRequestResponse::Info(data) => data,
        _ => panic!("Unexpected response type"),
    };

    assert_eq!(data.rgp_status[0], RgpStatus::AddPeriod);
    assert_eq!(data.rgp_status[1], RgpStatus::RenewPeriod);
}

#[test]
fn resolver_picks_the_update_shape() {
    let frag = XmlElement {
        name: "upData".to_string(),
        attrs: vec![],
        text: None,
        children: vec![status_elem("pendingRestore")],
    };
    match RgpRequestResponse::decode(&frag).unwrap() {
        RgpRequestResponse::Update(u) => {
            assert_eq!(u.rgp_status, vec![RgpStatus::PendingRestore]);
        }
        _ => panic!("Unexpected response type"),
    }
}

#[test]
fn resolver_picks_the_info_shape() {
    let frag = XmlElement {
        name: "infData".to_string(),
        attrs: vec![],
        text: None,
        children: vec![status_elem("redemptionPeriod")],
    };
    match RgpRequestResponse::decode(&frag).unwrap() {
        RgpRequestResponse::Info(u) => {
            assert_eq!(u.rgp_status, vec![RgpStatus::RedemptionPeriod]);
        }
        _ => panic!("Unexpected response type"),
    }
}

#[test]
fn resolver_rejects_an_unknown_shape() {
    let frag = XmlElement {
        name: "otherData".to_string(),
        attrs: vec![],
        text: None,
        children: vec![],
    };
    assert_eq!(
        RgpRequestResponse::decode(&frag),
        Err(ParseError::UnrecognizedShape)
    );
}

#[test]
fn restore_request_roundtrips_through_the_codec() {
    let req = RgpRestoreRequest::default();
    assert_eq!(req.op, "request");
    let encoded = req.encode();
    let back = RgpRestoreRequest::decode(&encoded).unwrap();
    assert_eq!(back, req);
}

#[test]
fn statuses_decode_with_bare_names() {
    let frag = XmlElement {
        name: "upData".to_string(),
        attrs: vec![],
        text: None,
        children: vec![XmlElement {
            name: "rgpStatus".to_string(),
            attrs: vec![XmlAttr { name: "s".to_string(), value: "transferPeriod".to_string() }],
            text: None,
            children: vec![],
        }],
    };
    match RgpRequestResponse::decode(&frag).unwrap() {
        RgpRequestResponse::Update(u) => {
            assert_eq!(u.rgp_status, vec![RgpStatus::TransferPeriod]);
        }
        _ => panic!("Unexpected response type"),
    }
}

#[test]
fn bad_status_token_is_rejected() {
    let frag = XmlElement {
        name: "upData".to_string(),
        attrs: vec![],
        text: None,
        children: vec![status_elem("holdPeriod")],
    };
    assert_eq!(
        RgpRequestResponse::decode(&frag),
        Err(ParseError::InvalidText("holdPeriod".to_string()))
    );
}

#[test]
fn response_shapes_roundtrip_through_the_codec() {
    let up = RgpRequestUpdateResponse {
        rgp_status: vec![RgpStatus::AddPeriod, RgpStatus::PendingDelete],
    };
    match RgpRequestResponse::decode(&up.encode()).unwrap() {
        RgpRequestResponse::Update(back) => assert_eq!(back, up),
        _ => panic!("Unexpected response type"),
    }
    let inf = RgpRequestInfoResponse { rgp_status: vec![RgpStatus::AutoRenewPeriod] };
    match RgpRequestResponse::decode(&inf.encode()).unwrap() {
        RgpRequestResponse::Info(back) => assert_eq!(back, inf),
        _ => panic!("Unexpected response type"),
    }
}
