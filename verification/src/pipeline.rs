//! The lazily-resolved pipeline.
//!
//! One outgoing chat line becomes: login if needed, room resolution if
//! needed, filter creation if needed, one sync, an optional send, and one
//! more sync after a successful send.  The engine never performs a remote
//! call itself: each stage emits the call it wants made as a [`ProtocolCall`]
//! and the driver hands the result back through [`Mtxcli::step`].  Every
//! stage either fully commits its persisted state or changes nothing.

use vstd::prelude::*;

use crate::session::{current_version_key, get_default_spec, get_spec, Mtxcli, SessionView};
use crate::text;
use crate::text::{find_sub_from, starts_with_spec};

verus! {

/// The sync long-poll budget handed to the collaborator, in milliseconds.
pub const MTX_TIMEOUT: i32 = 300;

/// A remote operation the engine wants performed.
pub enum ProtocolCall {
    /// Does the server support password login?
    CheckLoginTypes { server: String },
    /// Is this credential still valid?
    Whoami { server: String, token: String },
    /// Exchange the configured identity and password for a credential.
    Authenticate { server: String, user: String, password: String },
    /// Resolve a room alias to its canonical identifier.
    ResolveRoom { server: String, alias: String, token: String },
    /// Create the server-side filter scoped to this session.
    CreateFilter { user: String, server: String, room_id: String, token: String },
    /// Long-poll for new messages from the given cursor.
    Sync {
        server: String,
        filter: String,
        since: String,
        timeout: i32,
        room_id: String,
        token: String,
    },
    /// Send one chat line to the room.
    Send { server: String, room_id: String, text: String, token: String },
}

/// The abstract form of a [`ProtocolCall`].
pub enum CallView {
    CheckLoginTypes { server: Seq<char> },
    Whoami { server: Seq<char>, token: Seq<char> },
    Authenticate { server: Seq<char>, user: Seq<char>, password: Seq<char> },
    ResolveRoom { server: Seq<char>, alias: Seq<char>, token: Seq<char> },
    CreateFilter { user: Seq<char>, server: Seq<char>, room_id: Seq<char>, token: Seq<char> },
    Sync {
        server: Seq<char>,
        filter: Seq<char>,
        since: Seq<char>,
        timeout: int,
        room_id: Seq<char>,
        token: Seq<char>,
    },
    Send { server: Seq<char>, room_id: Seq<char>, text: Seq<char>, token: Seq<char> },
}

impl View for ProtocolCall {
    type V = CallView;

    open spec fn view(&self) -> CallView {
        match self {
            ProtocolCall::CheckLoginTypes { server } => CallView::CheckLoginTypes {
                server: server@,
            },
            ProtocolCall::Whoami { server, token } => CallView::Whoami {
                server: server@,
                token: token@,
            },
            ProtocolCall::Authenticate { server, user, password } => CallView::Authenticate {
                server: server@,
                user: user@,
                password: password@,
            },
            ProtocolCall::ResolveRoom { server, alias, token } => CallView::ResolveRoom {
                server: server@,
                alias: alias@,
                token: token@,
            },
            ProtocolCall::CreateFilter { user, server, room_id, token } => CallView::CreateFilter {
                user: user@,
                server: server@,
                room_id: room_id@,
                token: token@,
            },
            ProtocolCall::Sync { server, filter, since, timeout, room_id, token } => CallView::Sync {
                server: server@,
                filter: filter@,
                since: since@,
                timeout: *timeout as int,
                room_id: room_id@,
                token: token@,
            },
            ProtocolCall::Send { server, room_id, text, token } => CallView::Send {
                server: server@,
                room_id: room_id@,
                text: text@,
                token: token@,
            },
        }
    }
}

/// What a successful sync brought back: the new cursor and the rendered
/// message text, possibly empty.
pub struct SyncUpdate {
    pub since: String,
    pub messages: String,
}

/// The result of a performed [`ProtocolCall`], handed back to the engine.
pub enum Reply {
    /// Outcome of a yes/no call: login-type check, credential check, send.
    Flag(bool),
    /// Outcome of authentication: a fresh credential, or refusal.
    Token(Option<String>),
    /// Outcome of room resolution or filter creation: an identifier, or
    /// failure.
    Id(Option<String>),
    /// Outcome of a sync: a cursor and message text, or failure.
    Synced(Option<SyncUpdate>),
}

/// The abstract form of a [`Reply`].
pub enum ReplyView {
    Flag(bool),
    Token(Option<Seq<char>>),
    Id(Option<Seq<char>>),
    Synced(Option<(Seq<char>, Seq<char>)>),
}

impl View for Reply {
    type V = ReplyView;

    open spec fn view(&self) -> ReplyView {
        match self {
            Reply::Flag(b) => ReplyView::Flag(*b),
            Reply::Token(o) => ReplyView::Token(
                match o {
                    Some(t) => Some(t@),
                    None => None,
                },
            ),
            Reply::Id(o) => ReplyView::Id(
                match o {
                    Some(t) => Some(t@),
                    None => None,
                },
            ),
            Reply::Synced(o) => ReplyView::Synced(
                match o {
                    Some(u) => Some((u.since@, u.messages@)),
                    None => None,
                },
            ),
        }
    }
}

/// How a finished flow ended; the driver words these for the operator.
#[derive(Clone, Copy, Debug, PartialEq, Eq, Structural)]
pub enum Outcome {
    /// The server supports no login type the engine speaks.
    LoginUnsupported,
    /// No password is configured; the operator must set identity and
    /// password first.
    MissingCredentials,
    /// The server refused the configured credentials.
    LoginRejected,
    /// A login-only flow succeeded.
    LoggedIn,
    /// No room is configured.
    RoomUnset,
    /// No server is configured.
    ServerUnset,
    /// The configured server names no host behind the secure scheme.
    ServerInvalid,
    /// The server could not resolve the room alias.
    RoomUnresolved,
    /// The server refused to create the filter.
    FilterFailed,
    /// The poll finished; there was nothing to send.
    Idle,
    /// The send failed: render the line locally with a failure marker; it
    /// will not be retried.
    SendFailed,
    /// The line was sent and the follow-up sync finished.
    Sent,
}

/// Which reply the flow is waiting for.
#[derive(Clone, Copy, Debug, PartialEq, Eq, Structural)]
pub enum Phase {
    AwaitWhoami,
    AwaitLoginTypes,
    AwaitAuth,
    AwaitRoom,
    AwaitFilter,
    AwaitSyncFirst,
    AwaitSend,
    AwaitSyncSecond,
    /// The flow has ended; it must not be stepped again.
    Complete,
}

/// What the flow is for: a bare login, or a full chat line.
#[derive(Clone, Copy, Debug, PartialEq, Eq, Structural)]
pub enum Goal {
    LoginOnly,
    Chat,
}

/// One in-flight pipeline run.
pub struct Flow {
    pub goal: Goal,
    pub phase: Phase,
    pub text: String,
}

/// The abstract form of a [`Flow`].
pub struct FlowView {
    pub goal: Goal,
    pub phase: Phase,
    pub text: Seq<char>,
}

impl View for Flow {
    type V = FlowView;

    open spec fn view(&self) -> FlowView {
        FlowView { goal: self.goal, phase: self.phase, text: self.text@ }
    }
}

/// What the engine asks of the driver next: perform a call, or finish.
pub enum Step {
    Call(ProtocolCall),
    Done(Outcome),
}

/// The abstract form of a [`Step`].
pub enum StepView {
    Call(CallView),
    Done(Outcome),
}

impl View for Step {
    type V = StepView;

    open spec fn view(&self) -> StepView {
        match self {
            Step::Call(c) => StepView::Call(c@),
            Step::Done(o) => StepView::Done(*o),
        }
    }
}

/// How a read-only stage begins: already satisfied, blocked on missing
/// configuration, or in need of one remote call.
pub enum StageStart {
    Ready,
    Blocked(Outcome),
    Request(ProtocolCall),
}

/// The abstract form of a [`StageStart`].
pub enum StageStartView {
    Ready,
    Blocked(Outcome),
    Request(CallView),
}

impl View for StageStart {
    type V = StageStartView;

    open spec fn view(&self) -> StageStartView {
        match self {
            StageStart::Ready => StageStartView::Ready,
            StageStart::Blocked(o) => StageStartView::Blocked(*o),
            StageStart::Request(c) => StageStartView::Request(c@),
        }
    }
}

/// Index of the host part of a configured server: just past the first
/// occurrence of the secure scheme, or the end when the scheme is absent.
pub open spec fn host_start(server: Seq<char>) -> int {
    match find_sub_from(server, "https://"@, 0) {
        Some(i) => i + 8,
        None => server.len() as int,
    }
}

/// The canonical room alias: a leading sigil, the room, a colon, the host
/// part of the server.
pub open spec fn alias_of(room: Seq<char>, server: Seq<char>) -> Seq<char> {
    let base = if starts_with_spec(room, "#"@) {
        room
    } else {
        "#"@ + room
    };
    base + ":"@ + server.skip(host_start(server))
}

/// The sync call for the session as it stands.
pub open spec fn sync_call(s: SessionView) -> CallView {
    CallView::Sync {
        server: s.server,
        filter: s.filter,
        since: s.since,
        timeout: MTX_TIMEOUT as int,
        room_id: s.room_id,
        token: s.token,
    }
}

/// How room resolution begins on the current session.
pub open spec fn room_start(s: SessionView) -> StageStartView {
    if s.room_id.len() > 0 {
        StageStartView::Ready
    } else {
        let room = get_default_spec(s, "room"@, Seq::empty());
        let server = get_default_spec(s, "server"@, Seq::empty());
        if room.len() == 0 {
            StageStartView::Blocked(Outcome::RoomUnset)
        } else if server.len() == 0 {
            StageStartView::Blocked(Outcome::ServerUnset)
        } else if host_start(server) >= server.len() {
            StageStartView::Blocked(Outcome::ServerInvalid)
        } else {
            StageStartView::Request(
                CallView::ResolveRoom {
                    server: s.server,
                    alias: alias_of(room, server),
                    token: s.token,
                },
            )
        }
    }
}

/// How filter creation begins on the current session.
pub open spec fn filter_start(s: SessionView) -> StageStartView {
    if s.filter.len() > 0 {
        StageStartView::Ready
    } else {
        StageStartView::Request(
            CallView::CreateFilter {
                user: s.user,
                server: s.server,
                room_id: s.room_id,
                token: s.token,
            },
        )
    }
}

/// The first sync of a flow: always performed.
pub open spec fn stage_sync_first(s: SessionView, g: Goal, text: Seq<char>) -> (FlowView, StepView) {
    (FlowView { goal: g, phase: Phase::AwaitSyncFirst, text }, StepView::Call(sync_call(s)))
}

/// After the filter stage: run the first sync.
pub open spec fn stage_filter(s: SessionView, g: Goal, text: Seq<char>) -> (FlowView, StepView) {
    match filter_start(s) {
        StageStartView::Ready => stage_sync_first(s, g, text),
        StageStartView::Blocked(o) => (
            FlowView { goal: g, phase: Phase::Complete, text },
            StepView::Done(o),
        ),
        StageStartView::Request(c) => (
            FlowView { goal: g, phase: Phase::AwaitFilter, text },
            StepView::Call(c),
        ),
    }
}

/// After login: resolve the room, then the filter, then sync.
pub open spec fn stage_room(s: SessionView, g: Goal, text: Seq<char>) -> (FlowView, StepView) {
    match room_start(s) {
        StageStartView::Ready => stage_filter(s, g, text),
        StageStartView::Blocked(o) => (
            FlowView { goal: g, phase: Phase::Complete, text },
            StepView::Done(o),
        ),
        StageStartView::Request(c) => (
            FlowView { goal: g, phase: Phase::AwaitRoom, text },
            StepView::Call(c),
        ),
    }
}

/// Login has succeeded: a login-only flow is finished, a chat flow moves on
/// to the room stage.
pub open spec fn login_done(s: SessionView, g: Goal, text: Seq<char>) -> (FlowView, StepView) {
    if g == Goal::LoginOnly {
        (FlowView { goal: g, phase: Phase::Complete, text }, StepView::Done(Outcome::LoggedIn))
    } else {
        stage_room(s, g, text)
    }
}

/// Login begins: the cached credential is re-read from the store; a
/// non-empty one is verified, otherwise the login types are queried.
pub open spec fn begin_login(s: SessionView, g: Goal, text: Seq<char>) -> (
    SessionView,
    FlowView,
    StepView,
) {
    let s1 = SessionView {
        token: get_default_spec(s, "_token"@, Seq::empty()),
        logged_in: false,
        ..s
    };
    if s1.token.len() > 0 {
        (
            s1,
            FlowView { goal: g, phase: Phase::AwaitWhoami, text },
            StepView::Call(CallView::Whoami { server: s1.server, token: s1.token }),
        )
    } else {
        (
            s1,
            FlowView { goal: g, phase: Phase::AwaitLoginTypes, text },
            StepView::Call(CallView::CheckLoginTypes { server: s1.server }),
        )
    }
}

/// A chat line begins: login if needed, else straight to the room stage.
pub open spec fn begin_chat(s: SessionView, text: Seq<char>) -> (SessionView, FlowView, StepView) {
    if !s.logged_in {
        begin_login(s, Goal::Chat, text)
    } else {
        let fs = stage_room(s, Goal::Chat, text);
        (s, fs.0, fs.1)
    }
}

/// After the first sync: an empty line was only a poll; otherwise the line
/// is sent.
pub open spec fn after_sync_first(s: SessionView, g: Goal, text: Seq<char>) -> (
    FlowView,
    StepView,
) {
    if text.len() == 0 {
        (FlowView { goal: g, phase: Phase::Complete, text }, StepView::Done(Outcome::Idle))
    } else {
        (
            FlowView { goal: g, phase: Phase::AwaitSend, text },
            StepView::Call(
                CallView::Send { server: s.server, room_id: s.room_id, text, token: s.token },
            ),
        )
    }
}

/// A successful sync persists the returned cursor; a failed one changes
/// nothing, so the next attempt re-reads from the old cursor.
pub open spec fn apply_sync(s: SessionView, o: Option<(Seq<char>, Seq<char>)>) -> SessionView {
    match o {
        Some(u) => SessionView { since: u.0, store: s.store.insert("_since"@, u.0), ..s },
        None => s,
    }
}

/// Which reply kind the phase awaits.
pub open spec fn reply_matches(p: Phase, r: ReplyView) -> bool {
    match p {
        Phase::AwaitWhoami => r is Flag,
        Phase::AwaitLoginTypes => r is Flag,
        Phase::AwaitAuth => r is Token,
        Phase::AwaitRoom => r is Id,
        Phase::AwaitFilter => r is Id,
        Phase::AwaitSyncFirst => r is Synced,
        Phase::AwaitSend => r is Flag,
        Phase::AwaitSyncSecond => r is Synced,
        Phase::Complete => false,
    }
}

/// One transition of the pipeline: the reply to the pending call is folded
/// into the session and the next step is chosen.
pub open spec fn next_spec(s: SessionView, f: FlowView, r: ReplyView) -> (
    SessionView,
    FlowView,
    StepView,
) {
    match f.phase {
        Phase::AwaitWhoami => {
            if (r matches ReplyView::Flag(b) && b) {
                let s1 = SessionView { logged_in: true, ..s };
                let fs = login_done(s1, f.goal, f.text);
                (s1, fs.0, fs.1)
            } else {
                (
                    s,
                    FlowView { phase: Phase::AwaitLoginTypes, ..f },
                    StepView::Call(CallView::CheckLoginTypes { server: s.server }),
                )
            }
        },
        Phase::AwaitLoginTypes => {
            if (r matches ReplyView::Flag(b) && b) {
                let user = get_default_spec(s, "user"@, "user"@);
                let password = get_default_spec(s, "password"@, Seq::empty());
                if password.len() == 0 {
                    (
                        s,
                        FlowView { phase: Phase::Complete, ..f },
                        StepView::Done(Outcome::MissingCredentials),
                    )
                } else {
                    (
                        s,
                        FlowView { phase: Phase::AwaitAuth, ..f },
                        StepView::Call(
                            CallView::Authenticate { server: s.server, user, password },
                        ),
                    )
                }
            } else {
                (
                    s,
                    FlowView { phase: Phase::Complete, ..f },
                    StepView::Done(Outcome::LoginUnsupported),
                )
            }
        },
        Phase::AwaitAuth => {
            if (r matches ReplyView::Token(o) && o is Some) {
                let t = (r->Token_0)->Some_0;
                let s1 = SessionView {
                    token: t,
                    logged_in: true,
                    store: s.store.insert("_token"@, t),
                    ..s
                };
                let fs = login_done(s1, f.goal, f.text);
                (s1, fs.0, fs.1)
            } else {
                (
                    s,
                    FlowView { phase: Phase::Complete, ..f },
                    StepView::Done(Outcome::LoginRejected),
                )
            }
        },
        Phase::AwaitRoom => {
            if (r matches ReplyView::Id(o) && o is Some) {
                let id = (r->Id_0)->Some_0;
                let s1 = SessionView { room_id: id, store: s.store.insert("_room_id"@, id), ..s };
                let fs = stage_filter(s1, f.goal, f.text);
                (s1, fs.0, fs.1)
            } else {
                (
                    s,
                    FlowView { phase: Phase::Complete, ..f },
                    StepView::Done(Outcome::RoomUnresolved),
                )
            }
        },
        Phase::AwaitFilter => {
            if (r matches ReplyView::Id(o) && o is Some) {
                let id = (r->Id_0)->Some_0;
                let s1 = SessionView { filter: id, store: s.store.insert("_filter"@, id), ..s };
                let fs = stage_sync_first(s1, f.goal, f.text);
                (s1, fs.0, fs.1)
            } else {
                (
                    s,
                    FlowView { phase: Phase::Complete, ..f },
                    StepView::Done(Outcome::FilterFailed),
                )
            }
        },
        Phase::AwaitSyncFirst => {
            let s1 = apply_sync(s, r->Synced_0);
            let fs = after_sync_first(s1, f.goal, f.text);
            (s1, fs.0, fs.1)
        },
        Phase::AwaitSend => {
            if (r matches ReplyView::Flag(b) && b) {
                (
                    s,
                    FlowView { phase: Phase::AwaitSyncSecond, ..f },
                    StepView::Call(sync_call(s)),
                )
            } else {
                (s, FlowView { phase: Phase::Complete, ..f }, StepView::Done(Outcome::SendFailed))
            }
        },
        Phase::AwaitSyncSecond => {
            let s1 = apply_sync(s, r->Synced_0);
            (s1, FlowView { phase: Phase::Complete, ..f }, StepView::Done(Outcome::Sent))
        },
        Phase::Complete => (s, f, StepView::Done(Outcome::Idle)),
    }
}

/// Emptiness of a string slice.
fn is_empty_str(s: &str) -> (r: bool)
    ensures
        r == (s@.len() == 0),
{
    s.unicode_len() == 0
}

impl Mtxcli {
    /// How room resolution stands: already resolved, blocked on missing or
    /// invalid configuration, or in need of one resolution call built from
    /// the canonical alias.
    pub fn get_room_id(&self) -> (r: StageStart)
        requires
            self.wf(),
        ensures
            r@ == room_start(self@),
    {
        proof {
            reveal_strlit("");
            assert(""@ =~= Seq::<char>::empty());
        }
        if !is_empty_str(self.room_id.as_str()) {
            return StageStart::Ready;
        }
        let room = self.get_default("room", "");
        let server = self.get_default("server", "");
        if is_empty_str(room.as_str()) {
            return StageStart::Blocked(Outcome::RoomUnset);
        }
        if is_empty_str(server.as_str()) {
            return StageStart::Blocked(Outcome::ServerUnset);
        }
        let n: usize = server.as_str().unicode_len();
        let i: usize = match text::find_sub(server.as_str(), "https://") {
            Some(idx) => {
                proof {
                    reveal_strlit("https://");
                }
                idx + 8
            },
            None => n,
        };
        if i >= n {
            return StageStart::Blocked(Outcome::ServerInvalid);
        }
        let mut alias: String = if text::starts_with(room.as_str(), "#") {
            room.clone()
        } else {
            let mut sigil: String = String::from_str("#");
            sigil.append(room.as_str());
            sigil
        };
        alias.append(":");
        alias.append(server.as_str().substring_char(i, n));
        proof {
            assert(server@.subrange(i as int, n as int) =~= server@.skip(host_start(server@)));
            assert(alias@ =~= alias_of(room@, server@));
        }
        StageStart::Request(
            ProtocolCall::ResolveRoom {
                server: self.server.clone(),
                alias,
                token: self.token.clone(),
            },
        )
    }

    /// How filter creation stands: already created, or in need of one
    /// creation call scoped to the session.
    pub fn get_filter(&self) -> (r: StageStart)
        requires
            self.wf(),
        ensures
            r@ == filter_start(self@),
    {
        if !is_empty_str(self.filter.as_str()) {
            StageStart::Ready
        } else {
            StageStart::Request(
                ProtocolCall::CreateFilter {
                    user: self.user.clone(),
                    server: self.server.clone(),
                    room_id: self.room_id.clone(),
                    token: self.token.clone(),
                },
            )
        }
    }

    /// The sync call for the session as it stands; its reply comes back
    /// through [`Mtxcli::step`], which advances the cursor only on success.
    pub fn read_messages(&self) -> (r: ProtocolCall)
        ensures
            r@ == sync_call(self@),
    {
        ProtocolCall::Sync {
            server: self.server.clone(),
            filter: self.filter.clone(),
            since: self.since.clone(),
            timeout: MTX_TIMEOUT,
            room_id: self.room_id.clone(),
            token: self.token.clone(),
        }
    }

    /// The first sync of a flow.
    fn proceed_sync_first(&self, goal: Goal, text: String) -> (r: (Flow, Step))
        ensures
            (r.0@, r.1@) == stage_sync_first(self@, goal, text@),
    {
        (
            Flow { goal, phase: Phase::AwaitSyncFirst, text },
            Step::Call(self.read_messages()),
        )
    }

    /// The filter stage and whatever follows it.
    fn proceed_filter(&self, goal: Goal, text: String) -> (r: (Flow, Step))
        requires
            self.wf(),
        ensures
            (r.0@, r.1@) == stage_filter(self@, goal, text@),
    {
        match self.get_filter() {
            StageStart::Ready => self.proceed_sync_first(goal, text),
            StageStart::Blocked(o) => (
                Flow { goal, phase: Phase::Complete, text },
                Step::Done(o),
            ),
            StageStart::Request(c) => (
                Flow { goal, phase: Phase::AwaitFilter, text },
                Step::Call(c),
            ),
        }
    }

    /// The room stage and whatever follows it.
    fn proceed_room(&self, goal: Goal, text: String) -> (r: (Flow, Step))
        requires
            self.wf(),
        ensures
            (r.0@, r.1@) == stage_room(self@, goal, text@),
    {
        match self.get_room_id() {
            StageStart::Ready => self.proceed_filter(goal, text),
            StageStart::Blocked(o) => (
                Flow { goal, phase: Phase::Complete, text },
                Step::Done(o),
            ),
            StageStart::Request(c) => (
                Flow { goal, phase: Phase::AwaitRoom, text },
                Step::Call(c),
            ),
        }
    }

    /// Login has succeeded: finish a bare login, or move a chat flow on.
    fn proceed_after_login(&self, goal: Goal, text: String) -> (r: (Flow, Step))
        requires
            self.wf(),
        ensures
            (r.0@, r.1@) == login_done(self@, goal, text@),
    {
        match goal {
            Goal::LoginOnly => (
                Flow { goal, phase: Phase::Complete, text },
                Step::Done(Outcome::LoggedIn),
            ),
            Goal::Chat => self.proceed_room(goal, text),
        }
    }

    /// Starts the login stage: re-reads the cached credential and asks for
    /// it to be verified, or for the server's login types when there is
    /// none.
    fn begin_login_exec(&mut self, goal: Goal, text: String) -> (r: (Flow, Step))
        requires
            old(self).wf(),
        ensures
            final(self).wf(),
            final(self)@ == begin_login(old(self)@, goal, text@).0,
            r.0@ == begin_login(old(self)@, goal, text@).1,
            r.1@ == begin_login(old(self)@, goal, text@).2,
    {
        proof {
            reveal_strlit("");
            assert(""@ =~= Seq::<char>::empty());
        }
        self.token = self.get_default("_token", "");
        self.logged_in = false;
        if !is_empty_str(self.token.as_str()) {
            (
                Flow { goal, phase: Phase::AwaitWhoami, text },
                Step::Call(
                    ProtocolCall::Whoami {
                        server: self.server.clone(),
                        token: self.token.clone(),
                    },
                ),
            )
        } else {
            (
                Flow { goal, phase: Phase::AwaitLoginTypes, text },
                Step::Call(ProtocolCall::CheckLoginTypes { server: self.server.clone() }),
            )
        }
    }

    /// A bare login flow, as the login command starts it.
    pub fn login(&mut self) -> (r: (Flow, Step))
        requires
            old(self).wf(),
        ensures
            final(self).wf(),
            final(self)@ == begin_login(old(self)@, Goal::LoginOnly, Seq::<char>::empty()).0,
            r.0@ == begin_login(old(self)@, Goal::LoginOnly, Seq::<char>::empty()).1,
            r.1@ == begin_login(old(self)@, Goal::LoginOnly, Seq::<char>::empty()).2,
    {
        self.begin_login_exec(Goal::LoginOnly, String::new())
    }

    /// One line from the operator starts a chat flow: login if needed, room
    /// resolution if needed, filter creation if needed, a sync, and a send
    /// when the line is not empty.
    pub fn user_says(&mut self, text: &str) -> (r: (Flow, Step))
        requires
            old(self).wf(),
        ensures
            final(self).wf(),
            final(self)@ == begin_chat(old(self)@, text@).0,
            r.0@ == begin_chat(old(self)@, text@).1,
            r.1@ == begin_chat(old(self)@, text@).2,
    {
        let owned: String = String::from_str(text);
        if !self.logged_in {
            self.begin_login_exec(Goal::Chat, owned)
        } else {
            self.proceed_room(Goal::Chat, owned)
        }
    }

    /// Folds the reply to the pending call into the session and returns the
    /// next step of the flow.
    pub fn step(&mut self, flow: Flow, reply: Reply) -> (r: (Flow, Step))
        requires
            old(self).wf(),
            reply_matches(flow.phase, reply@),
        ensures
            final(self).wf(),
            final(self)@ == next_spec(old(self)@, flow@, reply@).0,
            r.0@ == next_spec(old(self)@, flow@, reply@).1,
            r.1@ == next_spec(old(self)@, flow@, reply@).2,
    {
        match flow.phase {
            Phase::AwaitWhoami => match reply {
                Reply::Flag(b) => {
                    if b {
                        self.logged_in = true;
                        self.proceed_after_login(flow.goal, flow.text)
                    } else {
                        (
                            Flow { phase: Phase::AwaitLoginTypes, ..flow },
                            Step::Call(
                                ProtocolCall::CheckLoginTypes { server: self.server.clone() },
                            ),
                        )
                    }
                },
                _ => unreached(),
            },
            Phase::AwaitLoginTypes => match reply {
                Reply::Flag(b) => {
                    if b {
                        proof {
                            reveal_strlit("");
                            assert(""@ =~= Seq::<char>::empty());
                        }
                        let user = self.get_default("user", "user");
                        let password = self.get_default("password", "");
                        if is_empty_str(password.as_str()) {
                            (
                                Flow { phase: Phase::Complete, ..flow },
                                Step::Done(Outcome::MissingCredentials),
                            )
                        } else {
                            (
                                Flow { phase: Phase::AwaitAuth, ..flow },
                                Step::Call(
                                    ProtocolCall::Authenticate {
                                        server: self.server.clone(),
                                        user,
                                        password,
                                    },
                                ),
                            )
                        }
                    } else {
                        (
                            Flow { phase: Phase::Complete, ..flow },
                            Step::Done(Outcome::LoginUnsupported),
                        )
                    }
                },
                _ => unreached(),
            },
            Phase::AwaitAuth => match reply {
                Reply::Token(o) => match o {
                    Some(t) => {
                        self.store.put("_token", t.as_str());
                        self.token = t;
                        self.logged_in = true;
                        self.proceed_after_login(flow.goal, flow.text)
                    },
                    None => (
                        Flow { phase: Phase::Complete, ..flow },
                        Step::Done(Outcome::LoginRejected),
                    ),
                },
                _ => unreached(),
            },
            Phase::AwaitRoom => match reply {
                Reply::Id(o) => match o {
                    Some(id) => {
                        self.store.put("_room_id", id.as_str());
                        self.room_id = id;
                        self.proceed_filter(flow.goal, flow.text)
                    },
                    None => (
                        Flow { phase: Phase::Complete, ..flow },
                        Step::Done(Outcome::RoomUnresolved),
                    ),
                },
                _ => unreached(),
            },
            Phase::AwaitFilter => match reply {
                Reply::Id(o) => match o {
                    Some(id) => {
                        self.store.put("_filter", id.as_str());
                        self.filter = id;
                        self.proceed_sync_first(flow.goal, flow.text)
                    },
                    None => (
                        Flow { phase: Phase::Complete, ..flow },
                        Step::Done(Outcome::FilterFailed),
                    ),
                },
                _ => unreached(),
            },
            Phase::AwaitSyncFirst => match reply {
                Reply::Synced(o) => {
                    match o {
                        Some(u) => {
                            self.store.put("_since", u.since.as_str());
                            self.since = u.since;
                        },
                        None => {},
                    }
                    if is_empty_str(flow.text.as_str()) {
                        (Flow { phase: Phase::Complete, ..flow }, Step::Done(Outcome::Idle))
                    } else {
                        let line: String = flow.text.clone();
                        (
                            Flow { phase: Phase::AwaitSend, ..flow },
                            Step::Call(
                                ProtocolCall::Send {
                                    server: self.server.clone(),
                                    room_id: self.room_id.clone(),
                                    text: line,
                                    token: self.token.clone(),
                                },
                            ),
                        )
                    }
                },
                _ => unreached(),
            },
            Phase::AwaitSend => match reply {
                Reply::Flag(b) => {
                    if b {
                        (
                            Flow { phase: Phase::AwaitSyncSecond, ..flow },
                            Step::Call(self.read_messages()),
                        )
                    } else {
                        (
                            Flow { phase: Phase::Complete, ..flow },
                            Step::Done(Outcome::SendFailed),
                        )
                    }
                },
                _ => unreached(),
            },
            Phase::AwaitSyncSecond => match reply {
                Reply::Synced(o) => {
                    match o {
                        Some(u) => {
                            self.store.put("_since", u.since.as_str());
                            self.since = u.since;
                        },
                        None => {},
                    }
                    (Flow { phase: Phase::Complete, ..flow }, Step::Done(Outcome::Sent))
                },
                _ => unreached(),
            },
            Phase::Complete => unreached(),
        }
    }
}

/// The calls a flow performs when driven with the given replies, and the
/// step it stands at afterwards: each emitted call is answered by the next
/// reply in turn until the flow finishes or the replies run out.
pub open spec fn run_steps(
    s: SessionView,
    f: FlowView,
    st: StepView,
    replies: Seq<ReplyView>,
) -> (Seq<CallView>, StepView)
    decreases replies.len(),
{
    match st {
        StepView::Done(_) => (Seq::empty(), st),
        StepView::Call(c) => {
            if replies.len() == 0 {
                (seq![c], st)
            } else {
                let n = next_spec(s, f, replies[0]);
                let rest = run_steps(n.0, n.1, n.2, replies.drop_first());
                (seq![c] + rest.0, rest.1)
            }
        },
    }
}

/// The calls one chat line performs when driven with the given replies.
pub open spec fn chat_run(s: SessionView, text: Seq<char>, replies: Seq<ReplyView>) -> (
    Seq<CallView>,
    StepView,
) {
    let b = begin_chat(s, text);
    run_steps(b.0, b.1, b.2, replies)
}

/// An empty line on a fresh, fully configured session performs exactly the
/// login calls, one room resolution, one filter creation and one sync, in
/// that order, and sends nothing.
pub proof fn lemma_fresh_poll_trace(
    s: SessionView,
    t: Seq<char>,
    rid: Seq<char>,
    fid: Seq<char>,
    sy: Option<(Seq<char>, Seq<char>)>,
)
    requires
        !s.logged_in,
        !s.store.contains_key("_token"@),
        s.room_id.len() == 0,
        s.filter.len() == 0,
        s.store.contains_key("password"@) && s.store["password"@].len() > 0,
        s.store.contains_key("room"@) && s.store["room"@].len() > 0,
        s.store.contains_key("server"@) && host_start(s.store["server"@]) < s.store[
            "server"@
        ].len(),
    ensures
        ({
            let replies = seq![
                ReplyView::Flag(true),
                ReplyView::Token(Some(t)),
                ReplyView::Id(Some(rid)),
                ReplyView::Id(Some(fid)),
                ReplyView::Synced(sy),
            ];
            let r = chat_run(s, Seq::empty(), replies);
            r.0.len() == 5 && (r.0[0] is CheckLoginTypes) && (r.0[1] is Authenticate) && (r.0[2]
                is ResolveRoom) && (r.0[3] is CreateFilter) && (r.0[4] is Sync) && r.1
                == StepView::Done(Outcome::Idle)
        }),
{
    reveal_strlit("");
    reveal_strlit("user");
    reveal_strlit("password");
    reveal_strlit("room");
    reveal_strlit("server");
    reveal_strlit("_token");
    reveal_strlit("_room_id");
    reveal_strlit("_since");
    reveal_strlit("_filter");
    reveal_strlit("__version");
    assert(""@ =~= Seq::<char>::empty());
    let text = Seq::<char>::empty();
    let replies = seq![
        ReplyView::Flag(true),
        ReplyView::Token(Some(t)),
        ReplyView::Id(Some(rid)),
        ReplyView::Id(Some(fid)),
        ReplyView::Synced(sy),
    ];
    let b = begin_chat(s, text);
    assert("_token"@.len() == 6);
    assert(current_version_key().len() == 9);
    assert("_token"@ != current_version_key());
    assert(get_spec(s, "_token"@) is None);
    assert(get_default_spec(s, "_token"@, Seq::empty()) == Seq::<char>::empty());
    assert(b.2 is Call);
    assert(b.2->Call_0 is CheckLoginTypes);
    let n1 = next_spec(b.0, b.1, replies[0]);
    assert(n1.2 is Call);
    assert(n1.2->Call_0 is Authenticate);
    assert(replies.drop_first() =~= seq![
        ReplyView::Token(Some(t)),
        ReplyView::Id(Some(rid)),
        ReplyView::Id(Some(fid)),
        ReplyView::Synced(sy),
    ]);
    let n2 = next_spec(n1.0, n1.1, ReplyView::Token(Some(t)));
    assert(n2.0.room_id.len() == 0);
    assert(n2.2 is Call);
    assert(n2.2->Call_0 is ResolveRoom);
    assert(replies.drop_first().drop_first() =~= seq![
        ReplyView::Id(Some(rid)),
        ReplyView::Id(Some(fid)),
        ReplyView::Synced(sy),
    ]);
    let n3 = next_spec(n2.0, n2.1, ReplyView::Id(Some(rid)));
    assert(n3.0.filter.len() == 0);
    assert(n3.2 is Call);
    assert(n3.2->Call_0 is CreateFilter);
    assert(replies.drop_first().drop_first().drop_first() =~= seq![
        ReplyView::Id(Some(fid)),
        ReplyView::Synced(sy),
    ]);
    let n4 = next_spec(n3.0, n3.1, ReplyView::Id(Some(fid)));
    assert(n4.2 is Call);
    assert(n4.2->Call_0 is Sync);
    assert(replies.drop_first().drop_first().drop_first().drop_first() =~= seq![
        ReplyView::Synced(sy),
    ]);
    let n5 = next_spec(n4.0, n4.1, ReplyView::Synced(sy));
    assert(n5.2 == StepView::Done(Outcome::Idle));
    let rs4 = seq![ReplyView::Synced(sy)];
    assert(rs4.drop_first() =~= Seq::<ReplyView>::empty());
    let r5 = run_steps(n5.0, n5.1, n5.2, Seq::<ReplyView>::empty());
    assert(r5.0 =~= Seq::<CallView>::empty());
    let r4 = run_steps(n4.0, n4.1, n4.2, rs4);
    assert(r4.0 =~= seq![n4.2->Call_0] + r5.0);
    assert(r4.1 == n5.2);
    let rs3 = seq![ReplyView::Id(Some(fid)), ReplyView::Synced(sy)];
    assert(rs3.drop_first() =~= rs4);
    let r3 = run_steps(n3.0, n3.1, n3.2, rs3);
    assert(r3.0 =~= seq![n3.2->Call_0] + r4.0);
    let rs2 = seq![ReplyView::Id(Some(rid)), ReplyView::Id(Some(fid)), ReplyView::Synced(sy)];
    assert(rs2.drop_first() =~= rs3);
    let r2 = run_steps(n2.0, n2.1, n2.2, rs2);
    assert(r2.0 =~= seq![n2.2->Call_0] + r3.0);
    let rs1 = seq![
        ReplyView::Token(Some(t)),
        ReplyView::Id(Some(rid)),
        ReplyView::Id(Some(fid)),
        ReplyView::Synced(sy),
    ];
    assert(rs1.drop_first() =~= rs2);
    let r1 = run_steps(n1.0, n1.1, n1.2, rs1);
    assert(r1.0 =~= seq![n1.2->Call_0] + r2.0);
    assert(replies.drop_first() =~= rs1);
    let r = chat_run(s, text, replies);
    assert(r.0 =~= seq![b.2->Call_0] + r1.0);
    assert(r.0 =~= seq![
        b.2->Call_0,
        n1.2->Call_0,
        n2.2->Call_0,
        n3.2->Call_0,
        n4.2->Call_0,
    ]);
    assert(r.1 == n5.2);
}

/// A non-empty line on an already-resolved session performs exactly one
/// sync, one send, and one more sync when the send succeeds; when the send
/// fails it stops after the send, the line is surfaced as failed, and
/// nothing is retried.
pub proof fn lemma_resolved_send_trace(
    s: SessionView,
    text: Seq<char>,
    sy1: Option<(Seq<char>, Seq<char>)>,
    ok: bool,
    sy2: Option<(Seq<char>, Seq<char>)>,
)
    requires
        s.logged_in,
        s.room_id.len() > 0,
        s.filter.len() > 0,
        text.len() > 0,
    ensures
        ok ==> ({
            let r = chat_run(
                s,
                text,
                seq![ReplyView::Synced(sy1), ReplyView::Flag(true), ReplyView::Synced(sy2)],
            );
            r.0.len() == 3 && (r.0[0] is Sync) && (r.0[1] is Send) && (r.0[2] is Sync) && r.1
                == StepView::Done(Outcome::Sent)
        }),
        !ok ==> ({
            let r = chat_run(s, text, seq![ReplyView::Synced(sy1), ReplyView::Flag(false)]);
            r.0.len() == 2 && (r.0[0] is Sync) && (r.0[1] is Send) && r.1 == StepView::Done(
                Outcome::SendFailed,
            )
        }),
{
    let b = begin_chat(s, text);
    assert(b.0 == s);
    assert(b.2 == StepView::Call(sync_call(s)));
    let n1 = next_spec(b.0, b.1, ReplyView::Synced(sy1));
    assert(n1.2 is Call);
    assert(n1.2->Call_0 is Send);
    if ok {
        let replies = seq![ReplyView::Synced(sy1), ReplyView::Flag(true), ReplyView::Synced(sy2)];
        assert(replies.drop_first() =~= seq![ReplyView::Flag(true), ReplyView::Synced(sy2)]);
        let n2 = next_spec(n1.0, n1.1, ReplyView::Flag(true));
        assert(n2.2 is Call);
        assert(n2.2->Call_0 is Sync);
        assert(replies.drop_first().drop_first() =~= seq![ReplyView::Synced(sy2)]);
        let n3 = next_spec(n2.0, n2.1, ReplyView::Synced(sy2));
        assert(n3.2 == StepView::Done(Outcome::Sent));
        let rs2 = seq![ReplyView::Synced(sy2)];
        assert(rs2.drop_first() =~= Seq::<ReplyView>::empty());
        let r3 = run_steps(n3.0, n3.1, n3.2, Seq::<ReplyView>::empty());
        assert(r3.0 =~= Seq::<CallView>::empty());
        let r2 = run_steps(n2.0, n2.1, n2.2, rs2);
        assert(r2.0 =~= seq![n2.2->Call_0] + r3.0);
        let rs1 = seq![ReplyView::Flag(true), ReplyView::Synced(sy2)];
        assert(rs1.drop_first() =~= rs2);
        let r1 = run_steps(n1.0, n1.1, n1.2, rs1);
        assert(r1.0 =~= seq![n1.2->Call_0] + r2.0);
        assert(replies.drop_first() =~= rs1);
        let r = chat_run(s, text, replies);
        assert(r.0 =~= seq![b.2->Call_0] + r1.0);
        assert(r.0 =~= seq![b.2->Call_0, n1.2->Call_0, n2.2->Call_0]);
        assert(r.1 == n3.2);
    } else {
        let replies = seq![ReplyView::Synced(sy1), ReplyView::Flag(false)];
        assert(replies.drop_first() =~= seq![ReplyView::Flag(false)]);
        let n2 = next_spec(n1.0, n1.1, ReplyView::Flag(false));
        assert(n2.0 == n1.0);
        assert(n2.2 == StepView::Done(Outcome::SendFailed));
        let rs1 = seq![ReplyView::Flag(false)];
        assert(rs1.drop_first() =~= Seq::<ReplyView>::empty());
        let r2 = run_steps(n2.0, n2.1, n2.2, Seq::<ReplyView>::empty());
        assert(r2.0 =~= Seq::<CallView>::empty());
        let r1 = run_steps(n1.0, n1.1, n1.2, rs1);
        assert(r1.0 =~= seq![n1.2->Call_0] + r2.0);
        assert(replies.drop_first() =~= rs1);
        let r = chat_run(s, text, replies);
        assert(r.0 =~= seq![b.2->Call_0] + r1.0);
        assert(r.0 =~= seq![b.2->Call_0, n1.2->Call_0]);
        assert(r.1 == n2.2);
    }
}

} // verus!
