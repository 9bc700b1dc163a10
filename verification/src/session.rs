//! The requests of the two device protocols, and how a session is obtained.
//!
//! The ubus protocol posts JSON-RPC calls to one address; a call names a
//! session, an object, a method and its arguments. The LuCI protocol posts a
//! form to log in and then sends the session back as a cookie.

use vstd::prelude::*;
use vstd::string::*;
use crate::json::{
    byte_array_of, element_of, element_views, field_views, member_of, text_of, Json, JsonNumber,
    JsonView,
};
use crate::models::{luci_url_of, ubus_url_of, Device};
use crate::text::catenate;

verus! {

/// The seconds a request of a backup or a restore may take.
pub const TRANSFER_TIMEOUT_SECS: u64 = 30;

/// The seconds a request for the state of a device or for a reboot may take.
pub const STATUS_TIMEOUT_SECS: u64 = 10;

/// The session of a ubus call that is made before login.
pub const ANONYMOUS_SESSION: &'static str = "00000000000000000000000000000000";

/// Where LuCI takes a login.
pub const LUCI_AUTH_PATH: &'static str = "/cgi-bin/luci/rpc/auth";

/// Where LuCI hands out a backup.
pub const LUCI_BACKUP_PATH: &'static str = "/cgi-bin/luci/admin/system/flashops/backup";

/// Where LuCI takes a backup to restore.
pub const LUCI_RESTORE_PATH: &'static str = "/cgi-bin/luci/admin/system/flashops/restore";

/// Where LuCI is told to reboot the device.
pub const LUCI_REBOOT_PATH: &'static str = "/cgi-bin/luci/admin/system/reboot";

/// What precedes the session in the cookie of a LuCI request.
pub const COOKIE_PREFIX: &'static str = "sysauth=";

/// The form field that carries the archive of a LuCI restore.
pub const ARCHIVE_FIELD: &'static str = "archive";

/// The arguments of a ubus call.
#[derive(Debug)]
pub enum RpcArgs {
    /// The empty object.
    Empty,
    /// `{username, password}`.
    Login { username: String, password: String },
    /// `{backup}`, the bytes of an archive.
    Restore { backup: Vec<u8> },
}

/// What [`RpcArgs`] hold, as plain values.
pub enum RpcArgsView {
    Empty,
    Login { username: Seq<char>, password: Seq<char> },
    Restore { backup: Seq<u8> },
}

impl View for RpcArgs {
    type V = RpcArgsView;

    open spec fn view(&self) -> RpcArgsView {
        match self {
            RpcArgs::Empty => RpcArgsView::Empty,
            RpcArgs::Login { username, password } => RpcArgsView::Login {
                username: username@,
                password: password@,
            },
            RpcArgs::Restore { backup } => RpcArgsView::Restore { backup: backup@ },
        }
    }
}

/// A ubus call: the envelope `{jsonrpc: "2.0", id, method: "call", params:
/// [session, object, method, args]}`.
#[derive(Debug)]
pub struct RpcCall {
    pub id: u64,
    pub session: String,
    pub object: String,
    pub method: String,
    pub args: RpcArgs,
}

/// What an [`RpcCall`] holds, as plain values.
pub struct RpcCallView {
    pub id: u64,
    pub session: Seq<char>,
    pub object: Seq<char>,
    pub method: Seq<char>,
    pub args: RpcArgsView,
}

impl View for RpcCall {
    type V = RpcCallView;

    open spec fn view(&self) -> RpcCallView {
        RpcCallView {
            id: self.id,
            session: self.session@,
            object: self.object@,
            method: self.method@,
            args: self.args@,
        }
    }
}

/// The arguments of a call as a JSON object.
pub open spec fn args_json_of(args: RpcArgsView) -> JsonView {
    match args {
        RpcArgsView::Empty => JsonView::Object(Seq::empty()),
        RpcArgsView::Login { username, password } => JsonView::Object(
            seq![("username"@, JsonView::Text(username)), ("password"@, JsonView::Text(password))],
        ),
        RpcArgsView::Restore { backup } => JsonView::Object(
            seq![("backup"@, byte_array_of(backup))],
        ),
    }
}

/// The JSON document that carries a call: version 2.0 of JSON-RPC, the id
/// of the call, the method `call`, and as its parameters the session, the
/// object, the method and the arguments.
pub open spec fn envelope_of(call: RpcCallView) -> JsonView {
    JsonView::Object(
        seq![
            ("jsonrpc"@, JsonView::Text("2.0"@)),
            ("id"@, JsonView::Number(JsonNumber::Unsigned(call.id))),
            ("method"@, JsonView::Text("call"@)),
            (
                "params"@,
                JsonView::Array(
                    seq![
                        JsonView::Text(call.session),
                        JsonView::Text(call.object),
                        JsonView::Text(call.method),
                        args_json_of(call.args),
                    ],
                ),
            ),
        ],
    )
}

fn field(name: &str, value: Json) -> (r: (String, Json))
    ensures
        r.0@ == name@,
        r.1@ == value@,
{
    (String::from_str(name), value)
}

impl RpcArgs {
    /// The arguments as a JSON object.
    pub fn to_json(&self) -> (r: Json)
        ensures
            r@ == args_json_of(self@),
    {
        let mut fields: Vec<(String, Json)> = Vec::new();
        match self {
            RpcArgs::Empty => {
                assert(field_views(fields@) =~= Seq::empty());
            },
            RpcArgs::Login { username, password } => {
                fields.push(field("username", Json::text(username.as_str())));
                fields.push(field("password", Json::text(password.as_str())));
                assert(field_views(fields@) =~= seq![
                    ("username"@, JsonView::Text(username@)),
                    ("password"@, JsonView::Text(password@)),
                ]);
            },
            RpcArgs::Restore { backup } => {
                fields.push(field("backup", Json::byte_array(backup)));
                assert(field_views(fields@) =~= seq![("backup"@, byte_array_of(backup@))]);
            },
        }
        Json::object(fields)
    }
}

impl RpcCall {
    /// The JSON document that carries the call.
    pub fn to_json(&self) -> (r: Json)
        ensures
            r@ == envelope_of(self@),
    {
        let mut params: Vec<Json> = Vec::new();
        params.push(Json::text(self.session.as_str()));
        params.push(Json::text(self.object.as_str()));
        params.push(Json::text(self.method.as_str()));
        params.push(self.args.to_json());
        assert(element_views(params@) =~= seq![
            JsonView::Text(self.session@),
            JsonView::Text(self.object@),
            JsonView::Text(self.method@),
            args_json_of(self.args@),
        ]);
        let mut fields: Vec<(String, Json)> = Vec::new();
        fields.push(field("jsonrpc", Json::text("2.0")));
        fields.push(field("id", Json::unsigned(self.id)));
        fields.push(field("method", Json::text("call")));
        fields.push(field("params", Json::array(params)));
        assert(field_views(fields@) =~= envelope_of(self@)->Object_0);
        Json::object(fields)
    }
}

#[derive(Clone, Copy, Debug, PartialEq, Eq, Structural)]
pub enum HttpMethod {
    Get,
    Post,
}

/// What a request carries.
#[derive(Debug)]
pub enum HttpBody {
    Empty,
    /// A ubus call, sent as JSON.
    Rpc(RpcCall),
    /// The fields of a form, sent URL-encoded.
    Form(Vec<(String, String)>),
    /// One file of a multipart form.
    Multipart { field: String, data: Vec<u8> },
}

/// What an [`HttpBody`] holds, as plain values.
pub enum HttpBodyView {
    Empty,
    Rpc(RpcCallView),
    Form(Seq<(Seq<char>, Seq<char>)>),
    Multipart { field: Seq<char>, data: Seq<u8> },
}

impl View for HttpBody {
    type V = HttpBodyView;

    open spec fn view(&self) -> HttpBodyView {
        match self {
            HttpBody::Empty => HttpBodyView::Empty,
            HttpBody::Rpc(call) => HttpBodyView::Rpc(call@),
            HttpBody::Form(fields) => HttpBodyView::Form(
                fields@.map_values(|f: (String, String)| (f.0@, f.1@)),
            ),
            HttpBody::Multipart { field, data } => HttpBodyView::Multipart {
                field: field@,
                data: data@,
            },
        }
    }
}

/// A request to a device.
#[derive(Debug)]
pub struct HttpRequest {
    pub method: HttpMethod,
    pub url: String,
    /// The value of the `Cookie` header, if the request has one.
    pub cookie: Option<String>,
    pub body: HttpBody,
}

/// What an [`HttpRequest`] holds, as plain values.
pub struct HttpRequestView {
    pub method: HttpMethod,
    pub url: Seq<char>,
    pub cookie: Option<Seq<char>>,
    pub body: HttpBodyView,
}

impl View for HttpRequest {
    type V = HttpRequestView;

    open spec fn view(&self) -> HttpRequestView {
        HttpRequestView {
            method: self.method,
            url: self.url@,
            cookie: match self.cookie {
                Some(c) => Some(c@),
                None => None,
            },
            body: self.body@,
        }
    }
}

/// Why no session was obtained.
#[derive(Clone, Copy, Debug, PartialEq, Eq, Structural)]
pub enum AuthError {
    /// The answer to a ubus login holds no session.
    MissingSessionToken,
    /// The answer to a LuCI login holds no session.
    MissingLuciToken,
}

impl AuthError {
    /// The message of the error, for the user.
    pub fn message(&self) -> (r: String)
        ensures
            r@ == match *self {
                AuthError::MissingSessionToken => "Failed to get session token"@,
                AuthError::MissingLuciToken => "Failed to get LuCI session token"@,
            },
    {
        match self {
            AuthError::MissingSessionToken => String::from_str("Failed to get session token"),
            AuthError::MissingLuciToken => String::from_str("Failed to get LuCI session token"),
        }
    }
}

/// The request that carries the ubus call `call` to the device at `ip`.
pub open spec fn ubus_request_of(ip: Seq<char>, call: RpcCallView) -> HttpRequestView {
    HttpRequestView {
        method: HttpMethod::Post,
        url: ubus_url_of(ip),
        cookie: None,
        body: HttpBodyView::Rpc(call),
    }
}

/// The ubus call that logs in: the method `login` of the object `session`,
/// called without a session.
pub open spec fn login_call_of(user: Seq<char>, password: Seq<char>) -> RpcCallView {
    RpcCallView {
        id: 1,
        session: ANONYMOUS_SESSION@,
        object: "session"@,
        method: "login"@,
        args: RpcArgsView::Login { username: user, password },
    }
}

/// The session in the answer to a ubus login: the text at
/// `result[1].ubus_rpc_session`.
pub open spec fn ubus_token_of(response: JsonView) -> Option<Seq<char>> {
    match member_of(response, "result"@) {
        Some(result) => match element_of(result, 1) {
            Some(payload) => match member_of(payload, "ubus_rpc_session"@) {
                Some(token) => text_of(token),
                None => None,
            },
            None => None,
        },
        None => None,
    }
}

/// The session in the answer to a LuCI login: the text at `result`.
pub open spec fn luci_token_of(response: JsonView) -> Option<Seq<char>> {
    match member_of(response, "result"@) {
        Some(token) => text_of(token),
        None => None,
    }
}

/// The cookie that carries the LuCI session `token`.
pub open spec fn cookie_of(token: Seq<char>) -> Seq<char> {
    COOKIE_PREFIX@ + token
}

/// The LuCI login of a device.
pub open spec fn luci_auth_of(device: crate::models::DeviceView) -> HttpRequestView {
    HttpRequestView {
        method: HttpMethod::Post,
        url: luci_url_of(device.ip) + LUCI_AUTH_PATH@,
        cookie: None,
        body: HttpBodyView::Form(
            seq![("username"@, device.user), ("password"@, device.password)],
        ),
    }
}

/// A LuCI request within the session `token`.
pub open spec fn luci_request_of(
    ip: Seq<char>,
    method: HttpMethod,
    path: Seq<char>,
    token: Seq<char>,
    body: HttpBodyView,
) -> HttpRequestView {
    HttpRequestView { method, url: luci_url_of(ip) + path, cookie: Some(cookie_of(token)), body }
}

/// The request that carries a ubus call to `device`.
pub fn ubus_call(
    device: &Device,
    id: u64,
    session: &str,
    object: &str,
    method: &str,
    args: RpcArgs,
) -> (r: HttpRequest)
    ensures
        r@ == ubus_request_of(
            device.ip@,
            RpcCallView { id, session: session@, object: object@, method: method@, args: args@ },
        ),
{
    HttpRequest {
        method: HttpMethod::Post,
        url: device.ubus_url(),
        cookie: None,
        body: HttpBody::Rpc(
            RpcCall {
                id,
                session: String::from_str(session),
                object: String::from_str(object),
                method: String::from_str(method),
                args,
            },
        ),
    }
}

/// The request that logs in to the ubus API of `device`.
pub fn ubus_login(device: &Device) -> (r: HttpRequest)
    ensures
        r@ == ubus_request_of(device.ip@, login_call_of(device.user@, device.password@)),
{
    ubus_call(
        device,
        1,
        ANONYMOUS_SESSION,
        "session",
        "login",
        RpcArgs::Login { username: device.user.clone(), password: device.password.clone() },
    )
}

/// The session that the answer to a ubus login grants. An answer without a
/// session at the expected place is an error.
pub fn session_token(response: &Json) -> (r: Result<String, AuthError>)
    ensures
        match ubus_token_of(response@) {
            Some(token) => r is Ok && r->Ok_0@ == token,
            None => r == Err::<String, AuthError>(AuthError::MissingSessionToken),
        },
{
    let result = match response.member("result") {
        Some(v) => v,
        None => {
            return Err(AuthError::MissingSessionToken);
        },
    };
    let payload = match result.element(1) {
        Some(v) => v,
        None => {
            return Err(AuthError::MissingSessionToken);
        },
    };
    let token = match payload.member("ubus_rpc_session") {
        Some(v) => v,
        None => {
            return Err(AuthError::MissingSessionToken);
        },
    };
    match token.as_text() {
        Some(s) => Ok(String::from_str(s)),
        None => Err(AuthError::MissingSessionToken),
    }
}

/// The request that logs in to the LuCI API of `device`.
pub fn luci_auth(device: &Device) -> (r: HttpRequest)
    ensures
        r@ == luci_auth_of(device@),
{
    let mut fields: Vec<(String, String)> = Vec::new();
    fields.push((String::from_str("username"), device.user.clone()));
    fields.push((String::from_str("password"), device.password.clone()));
    let body = HttpBody::Form(fields);
    assert(body@ == HttpBodyView::Form(
        seq![("username"@, device.user@), ("password"@, device.password@)],
    )) by {
        assert(fields@.map_values(|f: (String, String)| (f.0@, f.1@)) =~= seq![
            ("username"@, device.user@),
            ("password"@, device.password@),
        ]);
    }
    HttpRequest {
        method: HttpMethod::Post,
        url: catenate(device.luci_url().as_str(), LUCI_AUTH_PATH),
        cookie: None,
        body,
    }
}

/// The session that the answer to a LuCI login grants. An answer without a
/// session is an error.
pub fn get_luci_session(response: &Json) -> (r: Result<String, AuthError>)
    ensures
        match luci_token_of(response@) {
            Some(token) => r is Ok && r->Ok_0@ == token,
            None => r == Err::<String, AuthError>(AuthError::MissingLuciToken),
        },
{
    match response.member("result") {
        Some(v) => match v.as_text() {
            Some(s) => Ok(String::from_str(s)),
            None => Err(AuthError::MissingLuciToken),
        },
        None => Err(AuthError::MissingLuciToken),
    }
}

/// A LuCI request to `path` of `device` within the session `token`.
pub fn luci_request(
    device: &Device,
    method: HttpMethod,
    path: &str,
    token: &str,
    body: HttpBody,
) -> (r: HttpRequest)
    ensures
        r@ == luci_request_of(device.ip@, method, path@, token@, body@),
{
    HttpRequest {
        method,
        url: catenate(device.luci_url().as_str(), path),
        cookie: Some(catenate(COOKIE_PREFIX, token)),
        body,
    }
}

} // verus!
