use pve_client::envelope::{
    decode_login, decode_response, payload_or_error, string_member, tokens_or_error,
    unwrap_envelope,
};
use pve_client::resources::cluster::{
    IntOrString, Log, LogOptions, MigrationOptions, NextId, NextIdOptions, Options,
    ResourceOptions, ResourceType, Status, Task,
};
use pve_client::{RequestError, TokenResponse};

#[test]
fn payload_is_the_inner_object() {
    let body = "{\"data\": {\"id\": \"node/pve1\", \"maxcpu\": 8, \"cpu\": 0.25, \"node\": \"pve1\"}}";
    let payload = decode_response(Ok(body.to_string())).unwrap();
    let got: serde_json::Value = serde_json::from_str(&payload).unwrap();
    let want: serde_json::Value =
        serde_json::from_str("{\"id\":\"node/pve1\",\"maxcpu\":8,\"cpu\":0.25,\"node\":\"pve1\"}")
            .unwrap();
    assert_eq!(got, want);
    assert_eq!(got.get("id").and_then(|v| v.as_str()), Some("node/pve1"));
    assert_eq!(got.get("maxcpu").and_then(|v| v.as_u64()), Some(8));
    assert_eq!(got.get("cpu").and_then(|v| v.as_f64()), Some(0.25));
}

#[test]
fn payload_text_is_compact_json() {
    assert_eq!(unwrap_envelope("{ \"data\" : [ 1 , 2 ] }"), Ok("[1,2]".to_string()));
    assert_eq!(unwrap_envelope("{\"data\":\"101\"}"), Ok("\"101\"".to_string()));
    assert_eq!(unwrap_envelope("{\"data\":null}"), Ok("null".to_string()));
    assert_eq!(unwrap_envelope("{\"data\":{\"b\":1},\"other\":2}"), Ok("{\"b\":1}".to_string()));
}

#[test]
fn reply_without_data_is_a_deserialization_error() {
    assert_eq!(
        decode_response(Ok("{\"id\":\"node/pve1\"}".to_string())),
        Err(RequestError::DeserializationError)
    );
    assert_eq!(unwrap_envelope("{}"), Err(RequestError::DeserializationError));
}

#[test]
fn reply_that_is_no_object_is_a_deserialization_error() {
    assert_eq!(unwrap_envelope("[1,2]"), Err(RequestError::DeserializationError));
    assert_eq!(unwrap_envelope("\"data\""), Err(RequestError::DeserializationError));
    assert_eq!(unwrap_envelope(""), Err(RequestError::DeserializationError));
    assert_eq!(unwrap_envelope("{\"data\":"), Err(RequestError::DeserializationError));
}

#[test]
fn transport_failure_is_passed_on() {
    assert_eq!(
        decode_response(Err("timed out".to_string())),
        Err(RequestError::TransportError("timed out".to_string()))
    );
    assert_eq!(
        decode_login(Err("timed out".to_string())),
        Err(RequestError::TransportError("timed out".to_string()))
    );
}

#[test]
fn payload_or_error_on_each_case() {
    assert_eq!(payload_or_error(Some("{}".to_string())), Ok("{}".to_string()));
    assert_eq!(payload_or_error(None), Err(RequestError::DeserializationError));
}

#[test]
fn tokens_or_error_on_each_case() {
    let t = TokenResponse {
        csrf_token: "c".to_string(),
        auth_token: "a".to_string(),
        username: "u".to_string(),
    };
    assert_eq!(tokens_or_error(Some(t.clone())), Ok(t));
    assert_eq!(tokens_or_error(None), Err(RequestError::DeserializationError));
}

#[test]
fn token_response_needs_all_three_members() {
    let s = |t: &str| Some(t.to_string());
    assert_eq!(
        TokenResponse::from_fields(s("c"), s("a"), s("u")),
        Some(TokenResponse {
            csrf_token: "c".to_string(),
            auth_token: "a".to_string(),
            username: "u".to_string(),
        })
    );
    assert_eq!(TokenResponse::from_fields(None, s("a"), s("u")), None);
    assert_eq!(TokenResponse::from_fields(s("c"), None, s("u")), None);
    assert_eq!(TokenResponse::from_fields(s("c"), s("a"), None), None);
    assert_eq!(TokenResponse::from_fields(None, None, None), None);
}

#[test]
fn token_response_is_read_from_the_envelope() {
    let body = "{\"data\":{\"username\":\"root@pam\",\"ticket\":\"PVE:x\",\"CSRFPreventionToken\":\"4E:y\",\"cap\":{}}}";
    assert_eq!(
        TokenResponse::parse(body),
        Some(TokenResponse {
            csrf_token: "4E:y".to_string(),
            auth_token: "PVE:x".to_string(),
            username: "root@pam".to_string(),
        })
    );
    assert_eq!(decode_login(Ok(body.to_string())), Ok(TokenResponse::parse(body).unwrap()));
}

#[test]
fn token_response_without_username_is_refused() {
    let body = "{\"data\":{\"ticket\":\"PVE:x\",\"CSRFPreventionToken\":\"4E:y\"}}";
    assert_eq!(TokenResponse::parse(body), None);
    assert_eq!(decode_login(Ok(body.to_string())), Err(RequestError::DeserializationError));
}

#[test]
fn string_member_reads_strings_only() {
    let doc = "{\"a\":\"x\\ny\",\"b\":7,\"c\":null,\"d\":[\"x\"]}";
    assert_eq!(string_member(doc, "a"), Some("x\ny".to_string()));
    assert_eq!(string_member(doc, "b"), None);
    assert_eq!(string_member(doc, "c"), None);
    assert_eq!(string_member(doc, "d"), None);
    assert_eq!(string_member(doc, "e"), None);
    assert_eq!(string_member("nonsense", "a"), None);
}

#[test]
fn option_types_default_to_unset() {
    assert_eq!(LogOptions::default().max, None);
    assert_eq!(NextIdOptions::default().vmid, None);
    assert_eq!(ResourceOptions::default().type_, None);
}

#[test]
fn resource_types_hold_their_fields() {
    let log = Log {
        id: "1".to_string(),
        message: "started".to_string(),
        node: "pve1".to_string(),
        pid: 42,
        priority: 6,
        tag: "pvedaemon".to_string(),
        time: 1700000000,
        uid: "u".to_string(),
        user: "root@pam".to_string(),
    };
    assert_eq!(log.clone(), log);
    let options = Options {
        keyboard: "de".to_string(),
        mac_prefix: "BC:24".to_string(),
        migration: MigrationOptions { network: "10.0.0.0/24".to_string(), type_: "secure".to_string() },
    };
    assert_eq!(options.migration.type_, "secure");
    assert_eq!(NextId("101".to_string()).0, "101");
    assert_eq!(ResourceOptions { type_: Some(ResourceType::Vm) }.type_, Some(ResourceType::Vm));
    let status = Status::Cluster {
        id: "cluster".to_string(),
        name: "lab".to_string(),
        nodes: 3,
        quorate: 1,
        version: 7,
    };
    assert!(matches!(status, Status::Cluster { nodes: 3, .. }));
    let task = Task {
        endtime: 2,
        id: "100".to_string(),
        node: "pve1".to_string(),
        saved: "1".to_string(),
        starttime: IntOrString::Int(1),
        status: "OK".to_string(),
        type_: "qmstart".to_string(),
        upid: "UPID:pve1".to_string(),
        user: "root@pam".to_string(),
    };
    assert_eq!(task.starttime, IntOrString::Int(1));
    assert_ne!(task.starttime, IntOrString::Str("1".to_string()));
}
