use vstd::prelude::*;
use vstd::string::*;

use crate::error::{ErrorView, UnifiError};
use crate::models::{Device, PoeMode, UnifiResponse};
use crate::text::{decimal, decimal_text, join};

verus! {

/// The HTTP method of a call to the controller.
#[derive(Clone, Copy, Debug, PartialEq, Eq, Structural)]
pub enum Method {
    Get,
    Post,
}

/// Which endpoint of the controller a call goes to, and so what its reply holds.
#[derive(Clone, Copy, Debug, PartialEq, Eq, Structural)]
pub enum CallKind {
    /// The login; the reply matters by its status only.
    Login,
    /// The device listing; the reply holds the devices.
    ListDevices,
    /// A port override; the reply matters by its status only.
    PortOverride,
}

/// A call to the controller's REST API: what it is for, a method, a path
/// below the controller's base address, and a JSON body for a `Post`.
#[derive(Debug)]
pub struct HttpCall {
    pub kind: CallKind,
    pub method: Method,
    pub path: String,
    pub body: Option<String>,
}

/// An `HttpCall` with its texts as sequences of characters.
pub struct CallView {
    pub kind: CallKind,
    pub method: Method,
    pub path: Seq<char>,
    pub body: Option<Seq<char>>,
}

impl View for HttpCall {
    type V = CallView;

    open spec fn view(&self) -> CallView {
        CallView {
            kind: self.kind,
            method: self.method,
            path: self.path@,
            body: match self.body {
                Some(b) => Some(b@),
                None => None,
            },
        }
    }
}

/// What came back from a call to the controller.
#[derive(Debug)]
pub enum Event {
    /// The device listing was answered with this HTTP status, and its body
    /// decoded to this envelope, or could not be decoded for this reason.
    DevicesListed(u16, Result<UnifiResponse<Vec<Device>>, String>),
    /// A call whose reply body is of no interest (login, port override) was
    /// answered with this HTTP status.
    Answered(u16),
    /// The call did not complete (no connection, a timeout): what went wrong.
    CallFailed(String),
}

/// Whether an HTTP status reports success (2xx).
pub open spec fn is_success(status: u16) -> bool {
    200 <= status <= 299
}

/// The detail of a failure reported by an HTTP status.
pub open spec fn status_detail(status: u16) -> Seq<char> {
    "HTTP status "@ + decimal(status as nat)
}

/// The text of a PoE setting in the controller's JSON.
pub open spec fn mode_text(mode: PoeMode) -> Seq<char> {
    match mode {
        PoeMode::Auto => "auto"@,
        PoeMode::Off => "off"@,
    }
}

/// The JSON body that sets port `port` of a device to `mode`.
pub open spec fn override_body(port: usize, mode: PoeMode) -> Seq<char> {
    "{\"port_overrides\":[{\"port_idx\":"@ + decimal(port as nat) + ",\"poe_mode\":\""@
        + mode_text(mode) + "\"}]}"@
}

/// The login call, with the credentials as a JSON body.
pub open spec fn login_call_of(credentials: Seq<char>) -> CallView {
    CallView {
        kind: CallKind::Login,
        method: Method::Post,
        path: "/api/login"@,
        body: Some(credentials),
    }
}

/// The call that lists every device the controller knows.
pub open spec fn listing_call() -> CallView {
    CallView {
        kind: CallKind::ListDevices,
        method: Method::Get,
        path: "/api/s/default/stat/device"@,
        body: None,
    }
}

/// The call that sets port `port` of the device `handle` to `mode`.
pub open spec fn override_call(handle: Seq<char>, port: usize, mode: PoeMode) -> CallView {
    CallView {
        kind: CallKind::PortOverride,
        method: Method::Post,
        path: "/api/s/default/rest/device/"@ + handle,
        body: Some(override_body(port, mode)),
    }
}

/// Why a call whose reply body is of no interest failed; `None` where the
/// controller answered with success.
pub open spec fn reply_failure(e: Event) -> Option<Seq<char>> {
    match e {
        Event::Answered(s) => if is_success(s) {
            None
        } else {
            Some(status_detail(s))
        },
        Event::DevicesListed(s, _) => if is_success(s) {
            None
        } else {
            Some(status_detail(s))
        },
        Event::CallFailed(m) => Some(m@),
    }
}

/// The devices that a reply to the listing call reports, or why it reports none.
pub open spec fn listing_of(e: Event) -> Result<Seq<Device>, ErrorView> {
    match e {
        Event::DevicesListed(s, body) => if !is_success(s) {
            Err(ErrorView::DeviceListError(status_detail(s)))
        } else {
            match body {
                Ok(r) => Ok(r.data@),
                Err(m) => Err(ErrorView::DeviceListError(m@)),
            }
        },
        Event::Answered(_) => Err(ErrorView::DeviceListError("the reply holds no device list"@)),
        Event::CallFailed(m) => Err(ErrorView::DeviceListError(m@)),
    }
}

pub fn status_detail_text(status: u16) -> (r: String)
    ensures
        r@ == status_detail(status),
{
    let digits = decimal_text(status as usize);
    join("HTTP status ", digits.as_str())
}

/// The JSON body that sets port `port` of a device to `mode`.
pub fn override_body_text(port: usize, mode: PoeMode) -> (r: String)
    ensures
        r@ == override_body(port, mode),
{
    let digits = decimal_text(port);
    let mut r = join("{\"port_overrides\":[{\"port_idx\":", digits.as_str());
    r.append(",\"poe_mode\":\"");
    match mode {
        PoeMode::Auto => r.append("auto"),
        PoeMode::Off => r.append("off"),
    }
    r.append("\"}]}");
    r
}

/// The login call, with the credentials already written as JSON.
pub fn login_call(credentials: String) -> (r: HttpCall)
    ensures
        r@ == login_call_of(credentials@),
{
    HttpCall {
        kind: CallKind::Login,
        method: Method::Post,
        path: String::from_str("/api/login"),
        body: Some(credentials),
    }
}

/// The call that lists every device the controller knows.
pub fn devices_call() -> (r: HttpCall)
    ensures
        r@ == listing_call(),
{
    HttpCall {
        kind: CallKind::ListDevices,
        method: Method::Get,
        path: String::from_str("/api/s/default/stat/device"),
        body: None,
    }
}

/// The call that sets port `port` of the device `handle` to `mode`.
pub fn port_override_call(handle: &str, port: usize, mode: PoeMode) -> (r: HttpCall)
    ensures
        r@ == override_call(handle@, port, mode),
{
    HttpCall {
        kind: CallKind::PortOverride,
        method: Method::Post,
        path: join("/api/s/default/rest/device/", handle),
        body: Some(override_body_text(port, mode)),
    }
}

/// Why a call whose reply body is of no interest failed, or `None`.
pub fn failure_of(e: &Event) -> (r: Option<String>)
    ensures
        r matches Some(d) ==> reply_failure(*e) == Some(d@),
        r is None ==> reply_failure(*e) is None,
{
    match e {
        Event::Answered(s) | Event::DevicesListed(s, _) => if 200 <= *s && *s <= 299 {
            None
        } else {
            Some(status_detail_text(*s))
        },
        Event::CallFailed(m) => Some(m.clone()),
    }
}

/// The devices that a reply to the listing call reports.
pub fn listing(e: Event) -> (r: Result<Vec<Device>, UnifiError>)
    ensures
        r matches Ok(v) ==> listing_of(e) == Ok::<Seq<Device>, ErrorView>(v@),
        r matches Err(x) ==> listing_of(e) == Err::<Seq<Device>, ErrorView>(x@),
{
    match e {
        Event::DevicesListed(s, body) => if !(200 <= s && s <= 299) {
            Err(UnifiError::DeviceListError(status_detail_text(s)))
        } else {
            match body {
                Ok(r) => Ok(r.data),
                Err(m) => Err(UnifiError::DeviceListError(m)),
            }
        },
        Event::Answered(_) => Err(
            UnifiError::DeviceListError(String::from_str("the reply holds no device list")),
        ),
        Event::CallFailed(m) => Err(UnifiError::DeviceListError(m)),
    }
}

/// Whether the login succeeded: it does where the controller answered with a
/// 2xx status; otherwise `AuthError` says why not.
pub fn login_outcome(e: &Event) -> (r: Result<(), UnifiError>)
    ensures
        r is Ok <==> reply_failure(*e) is None,
        r matches Err(x) ==> reply_failure(*e) matches Some(d) && x@ == ErrorView::AuthError(d),
{
    match failure_of(e) {
        None => Ok(()),
        Some(d) => Err(UnifiError::AuthError(d)),
    }
}

} // verus!
