//! Join notifications: what they say, whether one is due, and where they
//! are sent.

use vstd::prelude::*;

use crate::text::{concat, decimal, decimal_string, equal_str};

verus! {

/// The name under which this program identifies itself.
pub const APP_NAME: &'static str = "vrc-yutils";

/// What happened to a player or to the signed-in user's room.
#[derive(Clone, Copy, Debug, PartialEq, Eq, Structural)]
pub enum JoinType {
    PlayerJoining,
    PlayerJoined,
    PlayerLeft,
    JoinedRoom,
    LeftRoom,
}

/// The variant's name, as its `Debug` form writes it.
pub open spec fn join_type_name(t: JoinType) -> Seq<char> {
    match t {
        JoinType::PlayerJoining => "PlayerJoining"@,
        JoinType::PlayerJoined => "PlayerJoined"@,
        JoinType::PlayerLeft => "PlayerLeft"@,
        JoinType::JoinedRoom => "JoinedRoom"@,
        JoinType::LeftRoom => "LeftRoom"@,
    }
}

/// The event is about another player (not the signed-in user's room).
pub open spec fn is_player_event(t: JoinType) -> bool {
    t == JoinType::PlayerJoining || t == JoinType::PlayerJoined || t == JoinType::PlayerLeft
}

/// How a notification words a player event.
pub open spec fn join_type_phrase(t: JoinType) -> Seq<char> {
    match t {
        JoinType::PlayerJoining => "is joining"@,
        JoinType::PlayerJoined => "has joined"@,
        _ => "has left"@,
    }
}

impl JoinType {
    /// The variant's name (the notification title).
    pub fn name(&self) -> (s: String)
        ensures
            s@ == join_type_name(*self),
    {
        match self {
            JoinType::PlayerJoining => String::from_str("PlayerJoining"),
            JoinType::PlayerJoined => String::from_str("PlayerJoined"),
            JoinType::PlayerLeft => String::from_str("PlayerLeft"),
            JoinType::JoinedRoom => String::from_str("JoinedRoom"),
            JoinType::LeftRoom => String::from_str("LeftRoom"),
        }
    }

    /// How a notification words a player event ("is joining", "has
    /// joined", "has left"). Room events have no wording.
    pub fn phrase(&self) -> (s: String)
        requires
            is_player_event(*self),
        ensures
            s@ == join_type_phrase(*self),
    {
        match self {
            JoinType::PlayerJoining => String::from_str("is joining"),
            JoinType::PlayerJoined => String::from_str("has joined"),
            _ => String::from_str("has left"),
        }
    }
}

/// A notification is due: no location was given to check, or the given
/// location is not empty and is where the signed-in user is.
pub open spec fn notification_due(to: Option<Seq<char>>, self_location: Seq<char>) -> bool {
    match to {
        Some(t) => t.len() > 0 && t == self_location,
        None => true,
    }
}

/// A notification about a player heading somewhere is due exactly when
/// that place is not empty and is, character for character, where the
/// signed-in user is; one about no particular place is always due.
pub proof fn lemma_notification_due(t: Seq<char>, self_location: Seq<char>)
    ensures
        notification_due(Some(t), self_location) == (t.len() > 0 && t == self_location),
        notification_due(None, self_location),
{
}

/// Whether a notification is due for a player heading to `to`, the
/// signed-in user being at `self_location` (no check when `to` is none).
pub fn should_notify(to: Option<&str>, self_location: &str) -> (b: bool)
    ensures
        b == notification_due(
            match to {
                Some(t) => Some(t@),
                None => None,
            },
            self_location@,
        ),
        to matches Some(t) ==> (b == (t@.len() > 0 && t@ == self_location@)),
        to is None ==> b,
{
    match to {
        Some(t) => !t.is_empty() && equal_str(t, self_location),
        None => true,
    }
}

/// The title and the text of a notification about `display_name`.
pub fn notification_text(display_name: &str, join_type: JoinType) -> (r: (String, String))
    requires
        is_player_event(join_type),
    ensures
        r.0@ == join_type_name(join_type),
        r.1@ == display_name@ + " "@ + join_type_phrase(join_type) + "."@,
{
    let title = join_type.name();
    let mut content = concat(display_name, " ");
    let phrase = join_type.phrase();
    content.append(phrase.as_str());
    content.append(".");
    (title, content)
}

/// The UDP port that XSOverlay listens on.
pub const XSOVERLAY_PORT: u16 = 42069;

/// The UDP port that VRChat's OSC listens on.
pub const OSC_PORT: u16 = 9000;

/// The local UDP port a message goes to: the one asked for, XSOverlay's
/// when none is.
pub fn udp_port(port: Option<u16>) -> (p: u16)
    ensures
        p == match port {
            Some(n) => n,
            None => XSOVERLAY_PORT,
        },
{
    match port {
        Some(42069) | None => XSOVERLAY_PORT,
        Some(9000) => OSC_PORT,
        Some(n) => n,
    }
}

/// The address of XSOverlay's websocket on `port` (42070 by default).
pub open spec fn xsoverlay_ws_address(port: Option<u16>) -> Seq<char> {
    let p: u16 = match port {
        Some(n) => n,
        None => 42070,
    };
    "ws://localhost:"@ + decimal(p as nat) + "/?client="@ + APP_NAME@
}

/// The address of XSOverlay's websocket on `port` (42070 by default).
pub fn xsoverlay_ws_url(port: Option<u16>) -> (s: String)
    ensures
        s@ == xsoverlay_ws_address(port),
{
    let p: u16 = match port {
        Some(n) => n,
        None => 42070,
    };
    let mut s = String::from_str("ws://localhost:");
    let digits = decimal_string(p);
    s.append(digits.as_str());
    s.append("/?client=");
    s.append(APP_NAME);
    s
}

/// What to do after an attempt to send a message to XSOverlay.
#[derive(Clone, Copy, Debug, PartialEq, Eq, Structural)]
pub enum SendStep {
    /// The message went out.
    Done,
    /// Reconnect and try once more.
    Reconnect,
    /// Give up with the error.
    Fail,
}

/// A failed send is retried once on a fresh connection; a second failure
/// is given up.
pub fn after_send(sent: bool, retried: bool) -> (s: SendStep)
    ensures
        s == (if sent {
            SendStep::Done
        } else if !retried {
            SendStep::Reconnect
        } else {
            SendStep::Fail
        }),
{
    if sent {
        SendStep::Done
    } else if !retried {
        SendStep::Reconnect
    } else {
        SendStep::Fail
    }
}

} // verus!
