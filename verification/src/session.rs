//! Split control/media sessions: client roles, socket lanes, the session
//! markers that clients send, and the pairing state machine of one session.
use vstd::prelude::*;

use crate::text::{
    chars_of, dec, eq_str, lemma_split_nonempty, lower, lower_chars, push_chars, push_dec,
    push_str, sanitize_chars, sanitized, split, split_exec, split_once, split_once_exec,
    string_of, strip_trailing, strip_trailing_chars, trim, trim_chars, views,
};

verus! {

/// Role of a connected TCI client: the operator controls the radio, viewers watch.
#[derive(Clone, Copy, Debug, PartialEq, Eq, Structural)]
pub enum TciClientRole {
    Operator,
    Viewer,
}

/// Lane of one socket of a split session.
#[derive(Clone, Copy, Debug, PartialEq, Eq, Structural)]
pub enum SplitSocketKind {
    Control,
    Media,
}

pub open spec fn role_text(role: TciClientRole) -> Seq<char> {
    match role {
        TciClientRole::Operator => "operator"@,
        TciClientRole::Viewer => "viewer"@,
    }
}

/// `viewer` and `view` (any case, surrounding whitespace ignored) name the
/// viewer role; every other text names the operator role.
pub open spec fn role_from_text(value: Seq<char>) -> TciClientRole {
    let t = lower(trim(value));
    if t == "viewer"@ || t == "view"@ {
        TciClientRole::Viewer
    } else {
        TciClientRole::Operator
    }
}

pub open spec fn lane_text(lane: SplitSocketKind) -> Seq<char> {
    match lane {
        SplitSocketKind::Control => "control"@,
        SplitSocketKind::Media => "media"@,
    }
}

/// `control` and `media` (any case, surrounding whitespace ignored) name a lane.
pub open spec fn lane_from_text(value: Seq<char>) -> Option<SplitSocketKind> {
    let t = lower(trim(value));
    if t == "control"@ {
        Some(SplitSocketKind::Control)
    } else if t == "media"@ {
        Some(SplitSocketKind::Media)
    } else {
        None
    }
}

impl TciClientRole {
    pub fn as_tci(self) -> (r: &'static str)
        ensures
            r@ == role_text(self),
    {
        match self {
            TciClientRole::Operator => "operator",
            TciClientRole::Viewer => "viewer",
        }
    }

    pub fn from_tci(value: &str) -> (r: Self)
        ensures
            r == role_from_text(value@),
    {
        let v = chars_of(value);
        Self::from_chars(&v)
    }

    pub fn from_chars(value: &Vec<char>) -> (r: Self)
        ensures
            r == role_from_text(value@),
    {
        let t = lower_chars(&trim_chars(value));
        if eq_str(&t, "viewer") || eq_str(&t, "view") {
            TciClientRole::Viewer
        } else {
            TciClientRole::Operator
        }
    }
}

impl SplitSocketKind {
    pub fn as_tci(self) -> (r: &'static str)
        ensures
            r@ == lane_text(self),
    {
        match self {
            SplitSocketKind::Control => "control",
            SplitSocketKind::Media => "media",
        }
    }

    pub fn from_tci(value: &str) -> (r: Option<Self>)
        ensures
            r == lane_from_text(value@),
    {
        let v = chars_of(value);
        Self::from_chars(&v)
    }

    pub fn from_chars(value: &Vec<char>) -> (r: Option<Self>)
        ensures
            r == lane_from_text(value@),
    {
        let t = lower_chars(&trim_chars(value));
        if eq_str(&t, "control") {
            Some(SplitSocketKind::Control)
        } else if eq_str(&t, "media") {
            Some(SplitSocketKind::Media)
        } else {
            None
        }
    }
}

/// `remote_client_role:0,<role>,<client_id>;`
pub open spec fn role_message(client_id: u64, role: TciClientRole) -> Seq<char> {
    "remote_client_role:0,"@ + role_text(role) + ","@ + dec(client_id as nat) + ";"@
}

pub fn remote_client_role_message(client_id: u64, role: TciClientRole) -> (m: String)
    ensures
        m@ == role_message(client_id, role),
{
    let mut m = String::new();
    push_str(&mut m, "remote_client_role:0,");
    push_str(&mut m, role.as_tci());
    push_str(&mut m, ",");
    push_dec(&mut m, client_id);
    push_str(&mut m, ";");
    m
}

/// A session id is the sanitized token of at most 64 characters; an empty one is none.
pub open spec fn normalized_session_id(value: Seq<char>) -> Option<Seq<char>> {
    let t = sanitized(value, 64);
    if t.len() == 0 {
        None
    } else {
        Some(t)
    }
}

pub fn normalize_split_session_id_chars(value: &Vec<char>) -> (r: Option<Vec<char>>)
    ensures
        r matches Some(t) ==> normalized_session_id(value@) == Some(t@),
        r is None ==> normalized_session_id(value@) is None,
{
    let t = sanitize_chars(value, 64);
    if t.len() == 0 {
        None
    } else {
        Some(t)
    }
}

pub fn normalize_split_session_id(value: &str) -> (r: Option<String>)
    ensures
        r matches Some(t) ==> normalized_session_id(value@) == Some(t@),
        r is None ==> normalized_session_id(value@) is None,
{
    let v = chars_of(value);
    match normalize_split_session_id_chars(&v) {
        Some(t) => Some(string_of(&t)),
        None => None,
    }
}

/// `session_paired:<normalized id>;`, with an empty id where none is left.
pub open spec fn paired_message(session_id: Seq<char>) -> Seq<char> {
    let id = match normalized_session_id(session_id) {
        Some(t) => t,
        None => Seq::<char>::empty(),
    };
    "session_paired:"@ + id + ";"@
}

pub fn split_session_paired_message(session_id: &str) -> (m: String)
    ensures
        m@ == paired_message(session_id@),
{
    let mut m = String::new();
    push_str(&mut m, "session_paired:");
    let v = chars_of(session_id);
    match normalize_split_session_id_chars(&v) {
        Some(t) => push_chars(&mut m, &t),
        None => {
            assert(m@ + Seq::<char>::empty() =~= m@);
        },
    }
    push_str(&mut m, ";");
    m
}

/// The name and arguments of a session marker: the command trimmed, its
/// trailing `;` removed, then split once at `:` and the rest at `,`.
pub open spec fn marker_parts(command: Seq<char>) -> Option<(Seq<char>, Seq<Seq<char>>)> {
    match split_once(strip_trailing(trim(command), ';'), ':') {
        Some((name, rest)) => Some((name, split(rest, ','))),
        None => None,
    }
}

/// `session_open:<id>[,<role>];` with the name in any case; the role defaults to operator.
pub open spec fn session_open_marker(command: Seq<char>) -> Option<(Seq<char>, TciClientRole)> {
    match marker_parts(command) {
        Some((name, args)) => {
            if lower(name) != "session_open"@ {
                None
            } else {
                match normalized_session_id(args[0]) {
                    Some(id) => Some(
                        (
                            id,
                            if args.len() >= 2 {
                                role_from_text(args[1])
                            } else {
                                TciClientRole::Operator
                            },
                        ),
                    ),
                    None => None,
                }
            }
        },
        None => None,
    }
}

/// `session_lane:<id>,<lane>;` with the name in any case and a known lane.
pub open spec fn session_lane_marker(command: Seq<char>) -> Option<(Seq<char>, SplitSocketKind)> {
    match marker_parts(command) {
        Some((name, args)) => {
            if lower(name) != "session_lane"@ || args.len() < 2 {
                None
            } else {
                match (normalized_session_id(args[0]), lane_from_text(args[1])) {
                    (Some(id), Some(lane)) => Some((id, lane)),
                    _ => None,
                }
            }
        },
        None => None,
    }
}

fn marker_parts_exec(command: &str) -> (r: Option<(Vec<char>, Vec<Vec<char>>)>)
    ensures
        r is None <==> marker_parts(command@) is None,
        r matches Some((name, args)) ==> marker_parts(command@) == Some((name@, views(args@))),
{
    let v = chars_of(command);
    let t = strip_trailing_chars(&trim_chars(&v), ';');
    match split_once_exec(&t, ':') {
        Some((name, rest)) => {
            let args = split_exec(&rest, ',');
            Some((name, args))
        },
        None => None,
    }
}

pub fn parse_split_session_open(command: &str) -> (r: Option<(String, TciClientRole)>)
    ensures
        r matches Some((id, role)) ==> session_open_marker(command@) == Some((id@, role)),
        r is None ==> session_open_marker(command@) is None,
{
    let (name, args) = match marker_parts_exec(command) {
        Some(p) => p,
        None => return None,
    };
    let lname = lower_chars(&name);
    if !eq_str(&lname, "session_open") {
        return None;
    }
    proof {
        let (n, rest) = split_once(strip_trailing(trim(command@), ';'), ':').unwrap();
        lemma_split_nonempty(rest, ',');
    }
    let id = match normalize_split_session_id_chars(&args[0]) {
        Some(id) => id,
        None => return None,
    };
    let role = if args.len() >= 2 {
        TciClientRole::from_chars(&args[1])
    } else {
        TciClientRole::Operator
    };
    Some((string_of(&id), role))
}

pub fn parse_split_session_lane(command: &str) -> (r: Option<(String, SplitSocketKind)>)
    ensures
        r matches Some((id, lane)) ==> session_lane_marker(command@) == Some((id@, lane)),
        r is None ==> session_lane_marker(command@) is None,
{
    let (name, args) = match marker_parts_exec(command) {
        Some(p) => p,
        None => return None,
    };
    let lname = lower_chars(&name);
    if !eq_str(&lname, "session_lane") || args.len() < 2 {
        return None;
    }
    let id = match normalize_split_session_id_chars(&args[0]) {
        Some(id) => id,
        None => return None,
    };
    let lane = match SplitSocketKind::from_chars(&args[1]) {
        Some(lane) => lane,
        None => return None,
    };
    Some((string_of(&id), lane))
}

/// Nanoseconds a session may wait for its media socket.
pub const SPLIT_SESSION_PAIRING_TIMEOUT_NS: u64 = 30_000_000_000;

/// Nanoseconds during which media frames are ignored after a release.
pub const SPLIT_RELEASE_IGNORE_WINDOW_NS: u64 = 250_000_000;

/// Lifecycle of one split session.
#[derive(Clone, Copy, Debug, PartialEq, Eq, Structural)]
pub enum SplitSessionState {
    WaitingMedia,
    Paired,
    Keyed,
    Terminated,
}

/// What becomes of one media frame.
#[derive(Clone, Copy, Debug, PartialEq, Eq, Structural)]
pub enum SplitMediaFrameAction {
    Accept,
    DropNotKeyed,
    DropReleaseWindow,
}

/// What a lost socket asks of the transmitter and of the peer socket.
#[derive(Clone, Copy, Debug, PartialEq, Eq, Structural)]
pub struct SplitDisconnectAction {
    pub force_rx: bool,
    pub close_peer_socket: bool,
    pub state: SplitSessionState,
}

/// One split session; times are monotonic nanoseconds.
#[derive(Clone, Debug)]
pub struct SplitSession {
    pub session_id: String,
    pub state: SplitSessionState,
    pub control_connected: bool,
    pub media_connected: bool,
    pub created_at_ns: u64,
    pub ignore_media_until_ns: Option<u64>,
    pub release_window_drops: u64,
}

/// The release window is open at `now`.
pub open spec fn in_release_window(until: Option<u64>, now: u64) -> bool {
    match until {
        Some(t) => now < t,
        None => false,
    }
}

/// The action for a media frame at `now`, given the session's fields.
pub open spec fn frame_action(
    state: SplitSessionState,
    media_connected: bool,
    until: Option<u64>,
    now: u64,
) -> SplitMediaFrameAction {
    if in_release_window(until, now) {
        SplitMediaFrameAction::DropReleaseWindow
    } else if state == SplitSessionState::Keyed && media_connected {
        SplitMediaFrameAction::Accept
    } else {
        SplitMediaFrameAction::DropNotKeyed
    }
}

impl SplitSession {
    /// A session opened by its control socket; `None` where the id sanitizes to nothing.
    pub fn new_control(session_id: &str, now_ns: u64) -> (r: Option<Self>)
        ensures
            r is None <==> normalized_session_id(session_id@) is None,
            r matches Some(s) ==> {
                &&& normalized_session_id(session_id@) == Some(s.session_id@)
                &&& s.state == SplitSessionState::WaitingMedia
                &&& s.control_connected
                &&& !s.media_connected
                &&& s.created_at_ns == now_ns
                &&& s.ignore_media_until_ns is None
                &&& s.release_window_drops == 0
            },
    {
        let id = match normalize_split_session_id(session_id) {
            Some(id) => id,
            None => return None,
        };
        Some(
            SplitSession {
                session_id: id,
                state: SplitSessionState::WaitingMedia,
                control_connected: true,
                media_connected: false,
                created_at_ns: now_ns,
                ignore_media_until_ns: None,
                release_window_drops: 0,
            },
        )
    }

    /// The media socket arrives: the session pairs when its control socket is
    /// still there, and then answers with the paired marker.
    pub fn connect_media(&mut self) -> (r: Option<String>)
        ensures
            old(self).state == SplitSessionState::Terminated ==> r is None && *final(self)
                == *old(self),
            old(self).state != SplitSessionState::Terminated ==> {
                &&& final(self).media_connected
                &&& final(self).control_connected == old(self).control_connected
                &&& final(self).state == (if old(self).control_connected {
                    SplitSessionState::Paired
                } else {
                    old(self).state
                })
                &&& final(self).session_id == old(self).session_id
                &&& final(self).created_at_ns == old(self).created_at_ns
                &&& final(self).ignore_media_until_ns == old(self).ignore_media_until_ns
                &&& final(self).release_window_drops == old(self).release_window_drops
                &&& (old(self).control_connected <==> r is Some)
                &&& r matches Some(m) ==> m@ == paired_message(old(self).session_id@)
            },
    {
        if self.state == SplitSessionState::Terminated {
            return None;
        }
        self.media_connected = true;
        if self.control_connected {
            self.state = SplitSessionState::Paired;
            return Some(split_session_paired_message(self.session_id.as_str()));
        }
        None
    }

    /// The session still waits for media at least the pairing timeout after it opened.
    pub fn pairing_timed_out(&self, now_ns: u64) -> (b: bool)
        ensures
            b == (self.state == SplitSessionState::WaitingMedia && now_ns >= self.created_at_ns
                && now_ns - self.created_at_ns >= SPLIT_SESSION_PAIRING_TIMEOUT_NS),
    {
        self.state == SplitSessionState::WaitingMedia && now_ns >= self.created_at_ns && now_ns
            - self.created_at_ns >= SPLIT_SESSION_PAIRING_TIMEOUT_NS
    }

    /// A paired session keys; any other state refuses.
    pub fn key(&mut self) -> (b: bool)
        ensures
            b == (old(self).state == SplitSessionState::Paired),
            b ==> *final(self) == (SplitSession { state: SplitSessionState::Keyed, ..*old(self) }),
            !b ==> *final(self) == *old(self),
    {
        if self.state != SplitSessionState::Paired {
            return false;
        }
        self.state = SplitSessionState::Keyed;
        true
    }

    /// A keyed session releases back to paired and opens the media ignore window.
    pub fn release(&mut self, now_ns: u64) -> (b: bool)
        ensures
            b == (old(self).state == SplitSessionState::Keyed),
            b ==> *final(self) == (SplitSession {
                state: SplitSessionState::Paired,
                ignore_media_until_ns: Some(sat_add(now_ns, SPLIT_RELEASE_IGNORE_WINDOW_NS)),
                ..*old(self)
            }),
            !b ==> *final(self) == *old(self),
    {
        if self.state != SplitSessionState::Keyed {
            return false;
        }
        self.state = SplitSessionState::Paired;
        self.ignore_media_until_ns = Some(now_ns.saturating_add(SPLIT_RELEASE_IGNORE_WINDOW_NS));
        true
    }

    /// Accepts a media frame only while keyed with media connected and outside
    /// the release window; a frame inside the window is counted.
    pub fn media_frame_action(&mut self, now_ns: u64) -> (a: SplitMediaFrameAction)
        ensures
            a == frame_action(
                old(self).state,
                old(self).media_connected,
                old(self).ignore_media_until_ns,
                now_ns,
            ),
            *final(self) == (SplitSession {
                release_window_drops: if a == SplitMediaFrameAction::DropReleaseWindow {
                    sat_add(old(self).release_window_drops, 1)
                } else {
                    old(self).release_window_drops
                },
                ..*old(self)
            }),
    {
        let in_window = match self.ignore_media_until_ns {
            Some(until) => now_ns < until,
            None => false,
        };
        if in_window {
            self.release_window_drops = self.release_window_drops.saturating_add(1);
            return SplitMediaFrameAction::DropReleaseWindow;
        }
        if self.state == SplitSessionState::Keyed && self.media_connected {
            SplitMediaFrameAction::Accept
        } else {
            SplitMediaFrameAction::DropNotKeyed
        }
    }

    /// The control socket is gone: the session terminates, transmit is forced
    /// off and the media peer is closed.
    pub fn disconnect_control(&mut self) -> (a: SplitDisconnectAction)
        ensures
            *final(self) == (SplitSession {
                control_connected: false,
                media_connected: false,
                state: SplitSessionState::Terminated,
                ..*old(self)
            }),
            a == (SplitDisconnectAction {
                force_rx: true,
                close_peer_socket: true,
                state: SplitSessionState::Terminated,
            }),
    {
        self.control_connected = false;
        self.media_connected = false;
        self.state = SplitSessionState::Terminated;
        SplitDisconnectAction { force_rx: true, close_peer_socket: true, state: self.state }
    }

    /// The media socket is gone: a live session waits for media again, and
    /// transmit is forced off exactly when it was keyed.
    pub fn disconnect_media(&mut self) -> (a: SplitDisconnectAction)
        ensures
            final(self).state == (if old(self).state == SplitSessionState::Terminated {
                SplitSessionState::Terminated
            } else {
                SplitSessionState::WaitingMedia
            }),
            *final(self) == (SplitSession {
                media_connected: false,
                state: final(self).state,
                ..*old(self)
            }),
            a == (SplitDisconnectAction {
                force_rx: old(self).state == SplitSessionState::Keyed,
                close_peer_socket: false,
                state: final(self).state,
            }),
    {
        self.media_connected = false;
        let was_keyed = self.state == SplitSessionState::Keyed;
        if self.state != SplitSessionState::Terminated {
            self.state = SplitSessionState::WaitingMedia;
        }
        SplitDisconnectAction { force_rx: was_keyed, close_peer_socket: false, state: self.state }
    }
}

/// `u64::saturating_add`.
pub open spec fn sat_add(a: u64, b: u64) -> u64 {
    if a + b > u64::MAX {
        u64::MAX
    } else {
        (a + b) as u64
    }
}

} // verus!
