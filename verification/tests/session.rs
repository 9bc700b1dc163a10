use wrtcli::commands::{get_status, reboot_device, status_calls};
use wrtcli::json::{Json, JsonNumber};
use wrtcli::models::Device;
use wrtcli::session::{
    get_luci_session, luci_auth, luci_request, session_token, ubus_call, ubus_login, AuthError,
    HttpBody, HttpMethod, HttpRequest, RpcArgs, RpcCall, ANONYMOUS_SESSION, LUCI_BACKUP_PATH,
};

fn device() -> Device {
    Device::new(
        "router1".to_string(),
        "10.0.0.1".to_string(),
        "root".to_string(),
        "secret".to_string(),
    )
}

fn text(s: &str) -> Json {
    Json::Text(s.to_string())
}

fn object(fields: Vec<(&str, Json)>) -> Json {
    Json::Object(fields.into_iter().map(|(k, v)| (k.to_string(), v)).collect())
}

fn number(n: u64) -> Json {
    Json::Number(JsonNumber::Unsigned(n))
}

fn ubus_answer(payload: Json) -> Json {
    object(vec![
        ("jsonrpc", text("2.0")),
        ("id", number(1)),
        ("result", Json::Array(vec![number(0), payload])),
    ])
}

fn wire(document: &Json) -> String {
    fn value(document: &Json) -> serde_json::Value {
        match document {
            Json::Null => serde_json::Value::Null,
            Json::Bool(b) => serde_json::Value::Bool(*b),
            Json::Number(JsonNumber::Unsigned(u)) => serde_json::Value::from(*u),
            Json::Number(JsonNumber::Signed(i)) => serde_json::Value::from(*i),
            Json::Number(JsonNumber::Float { bits }) => {
                serde_json::Value::from(f64::from_bits(*bits))
            }
            Json::Text(s) => serde_json::Value::String(s.clone()),
            Json::Array(items) => serde_json::Value::Array(items.iter().map(value).collect()),
            Json::Object(fields) => serde_json::Value::Object(
                fields.iter().map(|(k, v)| (k.clone(), value(v))).collect(),
            ),
        }
    }
    serde_json::to_string(&value(document)).unwrap()
}

fn rpc(request: &HttpRequest) -> &RpcCall {
    match &request.body {
        HttpBody::Rpc(call) => call,
        _ => panic!("a ubus request carries a call"),
    }
}

#[test]
fn json_member_takes_the_first_field_of_a_name() {
    let doc = object(vec![("a", number(1)), ("b", number(2)), ("a", number(3))]);
    assert_eq!(doc.member("a").unwrap().as_unsigned(), Some(1));
    assert_eq!(doc.member("b").unwrap().as_unsigned(), Some(2));
    assert!(doc.member("c").is_none());
    assert!(doc.member("").is_none());
    assert!(Json::Null.member("a").is_none());
    assert!(Json::Array(vec![number(1)]).member("a").is_none());
    assert!(text("a").member("a").is_none());
}

#[test]
fn json_element_is_bounded_by_the_array() {
    let doc = Json::Array(vec![number(5), text("x")]);
    assert_eq!(doc.element(0).unwrap().as_unsigned(), Some(5));
    assert_eq!(doc.element(1).unwrap().as_text(), Some("x"));
    assert!(doc.element(2).is_none());
    assert!(doc.element(usize::MAX).is_none());
    assert!(object(vec![("1", number(1))]).element(1).is_none());
    assert!(Json::Null.element(0).is_none());
}

#[test]
fn json_scalars() {
    assert_eq!(text("abc").as_text(), Some("abc"));
    assert_eq!(text("").as_text(), Some(""));
    assert_eq!(number(7).as_text(), None);
    assert_eq!(Json::Null.as_text(), None);
    assert_eq!(Json::Bool(true).as_text(), None);
    assert_eq!(number(7).as_unsigned(), Some(7));
    assert_eq!(number(u64::MAX).as_unsigned(), Some(u64::MAX));
    assert_eq!(Json::Number(JsonNumber::Signed(-7)).as_unsigned(), None);
    assert_eq!(Json::Number(JsonNumber::Float { bits: 0 }).as_unsigned(), None);
    assert_eq!(text("7").as_unsigned(), None);
}

#[test]
fn ubus_login_calls_the_session_object_anonymously() {
    let request = ubus_login(&device());
    assert_eq!(request.method, HttpMethod::Post);
    assert_eq!(request.url, "http://10.0.0.1/ubus");
    assert_eq!(request.cookie, None);
    let call = rpc(&request);
    assert_eq!(call.id, 1);
    assert_eq!(call.session, "00000000000000000000000000000000");
    assert_eq!(call.session, ANONYMOUS_SESSION);
    assert_eq!(call.session.len(), 32);
    assert_eq!(call.object, "session");
    assert_eq!(call.method, "login");
    match &call.args {
        RpcArgs::Login { username, password } => {
            assert_eq!(username, "root");
            assert_eq!(password, "secret");
        }
        _ => panic!("a login carries the credentials"),
    }
}

#[test]
fn login_call_on_the_wire() {
    let request = ubus_login(&device());
    let document = rpc(&request).to_json();
    match &document {
        Json::Object(fields) => {
            let names: Vec<&str> = fields.iter().map(|(k, _)| k.as_str()).collect();
            assert_eq!(names, vec!["jsonrpc", "id", "method", "params"]);
        }
        _ => panic!("a call is carried by an object"),
    }
    assert_eq!(
        wire(&document),
        "{\"id\":1,\"jsonrpc\":\"2.0\",\"method\":\"call\",\"params\":[\"00000000000000000000000000000000\",\"session\",\"login\",{\"password\":\"secret\",\"username\":\"root\"}]}"
    );
}

#[test]
fn calls_on_the_wire() {
    let request = ubus_call(&device(), 3, "tok", "system", "info", RpcArgs::Empty);
    assert_eq!(
        wire(&rpc(&request).to_json()),
        "{\"id\":3,\"jsonrpc\":\"2.0\",\"method\":\"call\",\"params\":[\"tok\",\"system\",\"info\",{}]}"
    );
    let request = ubus_call(
        &device(),
        2,
        "tok",
        "system",
        "restore",
        RpcArgs::Restore { backup: vec![0, 31, 139, 255] },
    );
    assert_eq!(
        wire(&rpc(&request).to_json()),
        "{\"id\":2,\"jsonrpc\":\"2.0\",\"method\":\"call\",\"params\":[\"tok\",\"system\",\"restore\",{\"backup\":[0,31,139,255]}]}"
    );
    assert_eq!(wire(&RpcArgs::Empty.to_json()), "{}");
    assert_eq!(
        wire(&RpcArgs::Restore { backup: vec![] }.to_json()),
        "{\"backup\":[]}"
    );
}

#[test]
fn json_is_built_from_parts() {
    assert_eq!(wire(&Json::text("a\"b")), "\"a\\\"b\"");
    assert_eq!(wire(&Json::unsigned(u64::MAX)), "18446744073709551615");
    assert_eq!(wire(&Json::array(vec![Json::Null, Json::Bool(true)])), "[null,true]");
    assert_eq!(
        wire(&Json::object(vec![("k".to_string(), Json::unsigned(1))])),
        "{\"k\":1}"
    );
    assert_eq!(wire(&Json::byte_array(&vec![1, 2, 255])), "[1,2,255]");
    assert_eq!(wire(&Json::byte_array(&vec![])), "[]");
}

#[test]
fn ubus_call_carries_what_it_is_given() {
    let request = ubus_call(&device(), 9, "tok", "system", "board", RpcArgs::Empty);
    assert_eq!(request.method, HttpMethod::Post);
    assert_eq!(request.url, "http://10.0.0.1/ubus");
    assert_eq!(request.cookie, None);
    let call = rpc(&request);
    assert_eq!(call.id, 9);
    assert_eq!(call.session, "tok");
    assert_eq!(call.object, "system");
    assert_eq!(call.method, "board");
    assert!(matches!(call.args, RpcArgs::Empty));
}

#[test]
fn ubus_session_is_read_from_the_nested_result() {
    let answer = ubus_answer(object(vec![
        ("ubus_rpc_session", text("c1ed6c7b025d0caca723a816fa61b668")),
        ("timeout", number(300)),
    ]));
    assert_eq!(
        session_token(&answer),
        Ok("c1ed6c7b025d0caca723a816fa61b668".to_string())
    );
}

#[test]
fn ubus_answer_without_session_is_an_error() {
    let missing = AuthError::MissingSessionToken;
    assert_eq!(session_token(&Json::Null), Err(missing));
    assert_eq!(session_token(&object(vec![])), Err(missing));
    assert_eq!(session_token(&object(vec![("result", Json::Null)])), Err(missing));
    assert_eq!(
        session_token(&object(vec![("result", Json::Array(vec![number(6)]))])),
        Err(missing)
    );
    assert_eq!(session_token(&ubus_answer(Json::Null)), Err(missing));
    assert_eq!(session_token(&ubus_answer(object(vec![]))), Err(missing));
    assert_eq!(
        session_token(&ubus_answer(object(vec![("ubus_rpc_session", number(1))]))),
        Err(missing)
    );
    assert_eq!(
        session_token(&object(vec![(
            "result",
            object(vec![("1", object(vec![("ubus_rpc_session", text("tok"))]))])
        )])),
        Err(missing)
    );
    assert_eq!(
        session_token(&object(vec![(
            "result",
            Json::Array(vec![object(vec![("ubus_rpc_session", text("tok"))])])
        )])),
        Err(missing)
    );
}

#[test]
fn luci_login_posts_the_credentials_as_a_form() {
    let request = luci_auth(&device());
    assert_eq!(request.method, HttpMethod::Post);
    assert_eq!(request.url, "http://10.0.0.1/cgi-bin/luci/rpc/auth");
    assert_eq!(request.cookie, None);
    match &request.body {
        HttpBody::Form(fields) => {
            assert_eq!(
                fields,
                &vec![
                    ("username".to_string(), "root".to_string()),
                    ("password".to_string(), "secret".to_string())
                ]
            );
        }
        _ => panic!("a LuCI login is a form"),
    }
}

#[test]
fn luci_session_is_read_from_the_result() {
    assert_eq!(
        get_luci_session(&object(vec![("id", number(1)), ("result", text("abc123"))])),
        Ok("abc123".to_string())
    );
    assert_eq!(
        get_luci_session(&object(vec![("result", text(""))])),
        Ok("".to_string())
    );
}

#[test]
fn luci_answer_without_session_is_an_error() {
    let missing = AuthError::MissingLuciToken;
    assert_eq!(get_luci_session(&Json::Null), Err(missing));
    assert_eq!(get_luci_session(&object(vec![])), Err(missing));
    assert_eq!(get_luci_session(&object(vec![("result", Json::Null)])), Err(missing));
    assert_eq!(get_luci_session(&object(vec![("result", number(5))])), Err(missing));
    assert_eq!(
        get_luci_session(&object(vec![("error", text("denied"))])),
        Err(missing)
    );
    assert_eq!(get_luci_session(&text("abc123")), Err(missing));
}

#[test]
fn luci_request_sends_the_session_as_a_cookie() {
    let request = luci_request(
        &device(),
        HttpMethod::Get,
        LUCI_BACKUP_PATH,
        "abc123",
        HttpBody::Empty,
    );
    assert_eq!(request.method, HttpMethod::Get);
    assert_eq!(
        request.url,
        "http://10.0.0.1/cgi-bin/luci/admin/system/flashops/backup"
    );
    assert_eq!(request.cookie, Some("sysauth=abc123".to_string()));
    assert!(matches!(request.body, HttpBody::Empty));
}

#[test]
fn auth_error_messages() {
    assert_eq!(AuthError::MissingSessionToken.message(), "Failed to get session token");
    assert_eq!(AuthError::MissingLuciToken.message(), "Failed to get LuCI session token");
}

#[test]
fn status_is_asked_within_the_granted_session() {
    let login = ubus_answer(object(vec![("ubus_rpc_session", text("tok"))]));
    let (board, info) = status_calls(&device(), &login).unwrap();
    assert_eq!(board.url, "http://10.0.0.1/ubus");
    assert_eq!(rpc(&board).id, 2);
    assert_eq!(rpc(&board).session, "tok");
    assert_eq!(rpc(&board).object, "system");
    assert_eq!(rpc(&board).method, "board");
    assert!(matches!(rpc(&board).args, RpcArgs::Empty));
    assert_eq!(rpc(&info).id, 3);
    assert_eq!(rpc(&info).session, "tok");
    assert_eq!(rpc(&info).object, "system");
    assert_eq!(rpc(&info).method, "info");
    assert!(matches!(rpc(&info).args, RpcArgs::Empty));
    assert!(matches!(
        status_calls(&device(), &Json::Null),
        Err(AuthError::MissingSessionToken)
    ));
}

#[test]
fn reboot_is_asked_within_the_granted_session() {
    let login = ubus_answer(object(vec![("ubus_rpc_session", text("tok"))]));
    let request = reboot_device(&device(), &login).unwrap();
    assert_eq!(request.url, "http://10.0.0.1/ubus");
    assert_eq!(request.method, HttpMethod::Post);
    assert_eq!(rpc(&request).id, 2);
    assert_eq!(rpc(&request).session, "tok");
    assert_eq!(rpc(&request).object, "system");
    assert_eq!(rpc(&request).method, "reboot");
    assert!(matches!(rpc(&request).args, RpcArgs::Empty));
    assert!(matches!(
        reboot_device(&device(), &object(vec![])),
        Err(AuthError::MissingSessionToken)
    ));
}

#[test]
fn status_is_read_from_the_answers() {
    let board = ubus_answer(object(vec![
        ("model", text("Linksys WRT3200ACM")),
        ("hostname", text("OpenWrt")),
    ]));
    let info = ubus_answer(object(vec![
        ("uptime", number(90061)),
        ("load", Json::Array(vec![number(1234), number(0), number(0)])),
        (
            "memory",
            object(vec![("total", number(512000)), ("free", number(256000))]),
        ),
    ]));
    let status = get_status(&board, &info);
    assert_eq!(status.model, "Linksys WRT3200ACM");
    assert_eq!(status.hostname, "OpenWrt");
    assert_eq!(status.uptime, 90061);
    assert_eq!(status.total_memory, 512000);
    assert_eq!(status.free_memory, 256000);
}

#[test]
fn status_falls_back_where_an_answer_lacks_a_field() {
    let status = get_status(&Json::Null, &Json::Null);
    assert_eq!(status.model, "Unknown");
    assert_eq!(status.hostname, "Unknown");
    assert_eq!(status.uptime, 0);
    assert_eq!(status.total_memory, 0);
    assert_eq!(status.free_memory, 0);
    let board = ubus_answer(object(vec![("model", number(5))]));
    let info = ubus_answer(object(vec![
        ("uptime", Json::Number(JsonNumber::Signed(-1))),
        ("memory", object(vec![("total", text("many"))])),
    ]));
    let status = get_status(&board, &info);
    assert_eq!(status.model, "Unknown");
    assert_eq!(status.hostname, "Unknown");
    assert_eq!(status.uptime, 0);
    assert_eq!(status.total_memory, 0);
    assert_eq!(status.free_memory, 0);
}
