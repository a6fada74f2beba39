//! The pipeline stream: its address, how each incoming frame is handled,
//! which event an event type names, and when to reconnect.

use vstd::prelude::*;

use crate::auth::Config;
use crate::text::{concat, contains_seq, contains_str, equal_str, has_prefix, starts_with_str};

verus! {

/// The pipeline's host when no other address is configured.
pub const DEFAULT_PIPELINE_HOST: &'static str = "pipeline.vrchat.cloud";

/// The host part of `url` read as a URI, if it parses and has one.
pub uninterp spec fn uri_host(url: Seq<char>) -> Option<Seq<char>>;

/// Parses `url` as a `hyper::Uri` and takes its host (`Uri::from_str`,
/// then `Uri::host`). Its contract claims only that the result is a
/// function of the text: the parser's grammar is not restated.
#[verifier::external_body]
fn parse_uri_host(url: &str) -> (r: Option<String>)
    ensures
        match r {
            Some(h) => uri_host(url@) == Some(h@),
            None => uri_host(url@) is None,
        },
{
    match url.parse::<hyper::Uri>() {
        Ok(uri) => match uri.host() {
            Some(host) => Some(host.to_string()),
            None => None,
        },
        Err(_) => None,
    }
}

/// The host to connect to: the parsed host of the other address, or the
/// default pipeline host.
pub open spec fn host_or_default(parsed: Option<Seq<char>>) -> Seq<char> {
    match parsed {
        Some(h) => h,
        None => DEFAULT_PIPELINE_HOST@,
    }
}

/// The host to connect to, given the host parsed from the other address.
pub fn choose_host(parsed: Option<String>) -> (h: String)
    ensures
        h@ == host_or_default(
            match parsed {
                Some(p) => Some(p@),
                None => None,
            },
        ),
{
    match parsed {
        Some(h) => h,
        None => String::from_str(DEFAULT_PIPELINE_HOST),
    }
}

/// The pipeline's host for a configuration.
pub open spec fn config_host(alt_url: Option<String>) -> Seq<char> {
    match alt_url {
        Some(u) => host_or_default(uri_host(u@)),
        None => DEFAULT_PIPELINE_HOST@,
    }
}

/// The pipeline's host for a configuration: the host of its other address
/// when that parses, else the default host.
pub fn pipeline_host(config: &Config) -> (h: String)
    ensures
        h@ == config_host(config.alt_url),
{
    match &config.alt_url {
        Some(url) => choose_host(parse_uri_host(url.as_str())),
        None => String::from_str(DEFAULT_PIPELINE_HOST),
    }
}

/// The pipeline's address on `host` for `token`.
pub fn pipeline_url(host: &str, token: &str) -> (s: String)
    ensures
        s@ == "wss://"@ + host@ + "/?"@ + token@,
{
    let mut s = concat("wss://", host);
    s.append("/?");
    s.append(token);
    s
}

/// The pipeline's address for a configuration.
pub fn pipeline_address(config: &Config) -> (s: String)
    ensures
        s@ == "wss://"@ + config_host(config.alt_url) + "/?"@ + config.token@,
{
    let host = pipeline_host(config);
    pipeline_url(host.as_str(), config.token.as_str())
}

/// Why a connection to the pipeline ended.
pub enum WsError {
    /// The server closed the stream or broke the protocol.
    Disconnected,
    /// The token was refused.
    Token,
    /// Any other failure, with its description.
    Unknown(String),
    /// An input/output failure, with its description.
    IoErr(String),
}

/// One frame, or failure, as read from the stream.
pub enum Incoming {
    Text(String),
    Close,
    ProtocolError,
    IoError(String),
    OtherError(String),
    /// Binary, ping, pong and other frames.
    Other,
}

/// What to do with one frame.
pub enum Flow {
    /// Handle the text as an event.
    Process(String),
    /// End the connection for this reason.
    Stop(WsError),
    /// Read on.
    Skip,
}

/// The server's error messages begin so.
pub open spec fn error_prefix() -> Seq<char> {
    "{\"err"@
}

/// What to do with one frame: an error message from the server ends the
/// connection (a refused token when it speaks of "authToken"); other text
/// is an event; a close or a protocol error is a disconnection; failures
/// end the connection with their description; other frames are skipped.
pub fn classify(frame: Incoming) -> (f: Flow)
    ensures
        match frame {
            Incoming::Text(t) => if has_prefix(t@, error_prefix()) {
                if contains_seq(t@, "authToken"@) {
                    f is Stop && f->Stop_0 is Token
                } else {
                    f matches Flow::Stop(WsError::Unknown(m)) && m == t
                }
            } else {
                f matches Flow::Process(m) && m == t
            },
            Incoming::Close => f matches Flow::Stop(WsError::Disconnected),
            Incoming::ProtocolError => f matches Flow::Stop(WsError::Disconnected),
            Incoming::IoError(e) => f matches Flow::Stop(WsError::IoErr(m)) && m == e,
            Incoming::OtherError(e) => f matches Flow::Stop(WsError::Unknown(m)) && m == e,
            Incoming::Other => f is Skip,
        },
{
    match frame {
        Incoming::Text(text) => {
            if starts_with_str(text.as_str(), "{\"err") {
                if contains_str(text.as_str(), "authToken") {
                    Flow::Stop(WsError::Token)
                } else {
                    Flow::Stop(WsError::Unknown(text))
                }
            } else {
                Flow::Process(text)
            }
        },
        Incoming::Close => Flow::Stop(WsError::Disconnected),
        Incoming::ProtocolError => Flow::Stop(WsError::Disconnected),
        Incoming::IoError(e) => Flow::Stop(WsError::IoErr(e)),
        Incoming::OtherError(e) => Flow::Stop(WsError::Unknown(e)),
        Incoming::Other => Flow::Skip,
    }
}

/// Why connecting failed: an input/output failure or any other, with its
/// description.
pub fn connect_failure(is_io: bool, description: String) -> (e: WsError)
    ensures
        is_io ==> (e matches WsError::IoErr(m) && m == description),
        !is_io ==> (e matches WsError::Unknown(m) && m == description),
{
    if is_io {
        WsError::IoErr(description)
    } else {
        WsError::Unknown(description)
    }
}

/// The events of the pipeline stream.
#[derive(Clone, Copy, Debug, PartialEq, Eq, Structural)]
pub enum EventKind {
    /// `friend-online` or `friend-location`.
    FriendLocation,
    FriendActive,
    FriendAdd,
    FriendOffline,
    FriendDelete,
    UserLocation,
    /// One of the notification events, which change nothing here.
    Notification,
    Unknown,
}

/// The event that an event type names.
pub open spec fn event_kind_of(t: Seq<char>) -> EventKind {
    if t == "friend-online"@ || t == "friend-location"@ {
        EventKind::FriendLocation
    } else if t == "friend-active"@ {
        EventKind::FriendActive
    } else if t == "friend-add"@ {
        EventKind::FriendAdd
    } else if t == "friend-offline"@ {
        EventKind::FriendOffline
    } else if t == "friend-delete"@ {
        EventKind::FriendDelete
    } else if t == "user-location"@ {
        EventKind::UserLocation
    } else if t == "notification"@ || t == "see-notification"@ || t == "hide-notification"@ || t
        == "notification-v2"@ || t == "notification-v2-update"@ || t == "notification-v2-delete"@ {
        EventKind::Notification
    } else {
        EventKind::Unknown
    }
}

/// Each event type names its event: the two location types a location
/// change, the six notification types a notification, and so on; any other
/// type names no known event.
pub proof fn lemma_event_kinds(t: Seq<char>)
    ensures
        (event_kind_of(t) == EventKind::FriendLocation) == (t == "friend-online"@ || t == "friend-location"@),
        (event_kind_of(t) == EventKind::FriendActive) == (t == "friend-active"@),
        (event_kind_of(t) == EventKind::FriendAdd) == (t == "friend-add"@),
        (event_kind_of(t) == EventKind::FriendOffline) == (t == "friend-offline"@),
        (event_kind_of(t) == EventKind::FriendDelete) == (t == "friend-delete"@),
        (event_kind_of(t) == EventKind::UserLocation) == (t == "user-location"@),
        (event_kind_of(t) == EventKind::Notification) == (t == "notification"@ || t == "see-notification"@
            || t == "hide-notification"@ || t == "notification-v2"@ || t
            == "notification-v2-update"@ || t == "notification-v2-delete"@),
{
    reveal_strlit("friend-online");
    reveal_strlit("friend-location");
    reveal_strlit("friend-active");
    reveal_strlit("friend-add");
    reveal_strlit("friend-offline");
    reveal_strlit("friend-delete");
    reveal_strlit("user-location");
    reveal_strlit("notification");
    reveal_strlit("see-notification");
    reveal_strlit("hide-notification");
    reveal_strlit("notification-v2");
    reveal_strlit("notification-v2-update");
    reveal_strlit("notification-v2-delete");
    assert("friend-online"@.len() != "friend-location"@.len());
    assert("friend-online"@[7] != "friend-active"@[7]);
    assert("friend-online"@.len() != "friend-add"@.len());
    assert("friend-online"@.len() != "friend-offline"@.len());
    assert("friend-online"@[7] != "friend-delete"@[7]);
    assert("friend-online"@[0] != "user-location"@[0]);
    assert("friend-online"@.len() != "notification"@.len());
    assert("friend-online"@.len() != "see-notification"@.len());
    assert("friend-online"@.len() != "hide-notification"@.len());
    assert("friend-online"@.len() != "notification-v2"@.len());
    assert("friend-online"@.len() != "notification-v2-update"@.len());
    assert("friend-online"@.len() != "notification-v2-delete"@.len());
    assert("friend-location"@.len() != "friend-active"@.len());
    assert("friend-location"@.len() != "friend-add"@.len());
    assert("friend-location"@.len() != "friend-offline"@.len());
    assert("friend-location"@.len() != "friend-delete"@.len());
    assert("friend-location"@.len() != "user-location"@.len());
    assert("friend-location"@.len() != "notification"@.len());
    assert("friend-location"@.len() != "see-notification"@.len());
    assert("friend-location"@.len() != "hide-notification"@.len());
    assert("friend-location"@[0] != "notification-v2"@[0]);
    assert("friend-location"@.len() != "notification-v2-update"@.len());
    assert("friend-location"@.len() != "notification-v2-delete"@.len());
    assert("friend-active"@.len() != "friend-add"@.len());
    assert("friend-active"@.len() != "friend-offline"@.len());
    assert("friend-active"@[7] != "friend-delete"@[7]);
    assert("friend-active"@[0] != "user-location"@[0]);
    assert("friend-active"@.len() != "notification"@.len());
    assert("friend-active"@.len() != "see-notification"@.len());
    assert("friend-active"@.len() != "hide-notification"@.len());
    assert("friend-active"@.len() != "notification-v2"@.len());
    assert("friend-active"@.len() != "notification-v2-update"@.len());
    assert("friend-active"@.len() != "notification-v2-delete"@.len());
    assert("friend-add"@.len() != "friend-offline"@.len());
    assert("friend-add"@.len() != "friend-delete"@.len());
    assert("friend-add"@.len() != "user-location"@.len());
    assert("friend-add"@.len() != "notification"@.len());
    assert("friend-add"@.len() != "see-notification"@.len());
    assert("friend-add"@.len() != "hide-notification"@.len());
    assert("friend-add"@.len() != "notification-v2"@.len());
    assert("friend-add"@.len() != "notification-v2-update"@.len());
    assert("friend-add"@.len() != "notification-v2-delete"@.len());
    assert("friend-offline"@.len() != "friend-delete"@.len());
    assert("friend-offline"@.len() != "user-location"@.len());
    assert("friend-offline"@.len() != "notification"@.len());
    assert("friend-offline"@.len() != "see-notification"@.len());
    assert("friend-offline"@.len() != "hide-notification"@.len());
    assert("friend-offline"@.len() != "notification-v2"@.len());
    assert("friend-offline"@.len() != "notification-v2-update"@.len());
    assert("friend-offline"@.len() != "notification-v2-delete"@.len());
    assert("friend-delete"@[0] != "user-location"@[0]);
    assert("friend-delete"@.len() != "notification"@.len());
    assert("friend-delete"@.len() != "see-notification"@.len());
    assert("friend-delete"@.len() != "hide-notification"@.len());
    assert("friend-delete"@.len() != "notification-v2"@.len());
    assert("friend-delete"@.len() != "notification-v2-update"@.len());
    assert("friend-delete"@.len() != "notification-v2-delete"@.len());
    assert("user-location"@.len() != "notification"@.len());
    assert("user-location"@.len() != "see-notification"@.len());
    assert("user-location"@.len() != "hide-notification"@.len());
    assert("user-location"@.len() != "notification-v2"@.len());
    assert("user-location"@.len() != "notification-v2-update"@.len());
    assert("user-location"@.len() != "notification-v2-delete"@.len());
    assert("notification"@.len() != "see-notification"@.len());
    assert("notification"@.len() != "hide-notification"@.len());
    assert("notification"@.len() != "notification-v2"@.len());
    assert("notification"@.len() != "notification-v2-update"@.len());
    assert("notification"@.len() != "notification-v2-delete"@.len());
    assert("see-notification"@.len() != "hide-notification"@.len());
    assert("see-notification"@.len() != "notification-v2"@.len());
    assert("see-notification"@.len() != "notification-v2-update"@.len());
    assert("see-notification"@.len() != "notification-v2-delete"@.len());
    assert("hide-notification"@.len() != "notification-v2"@.len());
    assert("hide-notification"@.len() != "notification-v2-update"@.len());
    assert("hide-notification"@.len() != "notification-v2-delete"@.len());
    assert("notification-v2"@.len() != "notification-v2-update"@.len());
    assert("notification-v2"@.len() != "notification-v2-delete"@.len());
    assert("notification-v2-update"@[16] != "notification-v2-delete"@[16]);
}

/// The event that an event type names.
pub fn event_kind(t: &str) -> (k: EventKind)
    ensures
        k == event_kind_of(t@),
        (k == EventKind::FriendLocation) == (t@ == "friend-online"@ || t@ == "friend-location"@),
        (k == EventKind::FriendActive) == (t@ == "friend-active"@),
        (k == EventKind::FriendAdd) == (t@ == "friend-add"@),
        (k == EventKind::FriendOffline) == (t@ == "friend-offline"@),
        (k == EventKind::FriendDelete) == (t@ == "friend-delete"@),
        (k == EventKind::UserLocation) == (t@ == "user-location"@),
        (k == EventKind::Notification) == (t@ == "notification"@ || t@ == "see-notification"@
            || t@ == "hide-notification"@ || t@ == "notification-v2"@ || t@
            == "notification-v2-update"@ || t@ == "notification-v2-delete"@),
{
    proof {
        lemma_event_kinds(t@);
    }
    if equal_str(t, "friend-online") || equal_str(t, "friend-location") {
        EventKind::FriendLocation
    } else if equal_str(t, "friend-active") {
        EventKind::FriendActive
    } else if equal_str(t, "friend-add") {
        EventKind::FriendAdd
    } else if equal_str(t, "friend-offline") {
        EventKind::FriendOffline
    } else if equal_str(t, "friend-delete") {
        EventKind::FriendDelete
    } else if equal_str(t, "user-location") {
        EventKind::UserLocation
    } else if equal_str(t, "notification") || equal_str(t, "see-notification") || equal_str(
        t,
        "hide-notification",
    ) || equal_str(t, "notification-v2") || equal_str(t, "notification-v2-update") || equal_str(
        t,
        "notification-v2-delete",
    ) {
        EventKind::Notification
    } else {
        EventKind::Unknown
    }
}

/// What to do after a connection ended.
#[derive(Clone, Copy, Debug, PartialEq, Eq, Structural)]
pub enum Next {
    /// Connect again at once.
    Reconnect,
    /// Connect again after a pause.
    ReconnectAfterPause,
    /// Give up.
    Stop,
}

/// How many input/output failures in a row end the reconnecting.
pub const MAX_IO_ERRORS: u8 = 20;

/// The reconnecting policy's state: input/output failures since the last
/// clean disconnection.
pub struct Reconnect {
    pub io_errors: u8,
}

impl Reconnect {
    /// No failures yet.
    pub fn new() -> (r: Self)
        ensures
            r.io_errors == 0,
    {
        Reconnect { io_errors: 0 }
    }

    /// What to do after a connection ended so. A clean disconnection
    /// resets the count and reconnects; a refused token or an unknown
    /// failure gives up; an input/output failure is counted: the first is
    /// retried at once, the twentieth in a row gives up, the others are
    /// retried after a pause.
    pub fn on_end(&mut self, end: &WsError) -> (n: Next)
        requires
            old(self).io_errors < MAX_IO_ERRORS,
        ensures
            match end {
                WsError::Disconnected => n == Next::Reconnect && final(self).io_errors == 0,
                WsError::Token => n == Next::Stop && final(self).io_errors == old(
                    self,
                ).io_errors,
                WsError::Unknown(_) => n == Next::Stop && final(self).io_errors == old(
                    self,
                ).io_errors,
                WsError::IoErr(_) => final(self).io_errors == old(self).io_errors + 1 && n == (
                if final(self).io_errors == 1 {
                    Next::Reconnect
                } else if final(self).io_errors == MAX_IO_ERRORS {
                    Next::Stop
                } else {
                    Next::ReconnectAfterPause
                }),
            },
            n != Next::Stop ==> final(self).io_errors < MAX_IO_ERRORS,
    {
        match end {
            WsError::Disconnected => {
                self.io_errors = 0;
                Next::Reconnect
            },
            WsError::Token => Next::Stop,
            WsError::Unknown(_) => Next::Stop,
            WsError::IoErr(_) => {
                self.io_errors = self.io_errors + 1;
                if self.io_errors == 1 {
                    Next::Reconnect
                } else if self.io_errors == MAX_IO_ERRORS {
                    Next::Stop
                } else {
                    Next::ReconnectAfterPause
                }
            },
        }
    }
}

} // verus!
