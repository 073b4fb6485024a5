//! Session lifecycle: the state machine of one connection.
//!
//! A session walks through its phases in one direction: handshake, login,
//! character selection, world entry, play, and the end. The code that owns
//! the socket feeds each thing that happens to `Session::step`, which moves
//! the phase and says what to do next. Whatever way a session ends, the step
//! that closes it names what has to be released.

use crate::db::account::{password_hash, validate_password, AccountData};
use crate::protocol::opcodes::client;
use crate::protocol::server::login::{REASON_ACCESS_FAILED, REASON_ACCOUNT_IN_USE, REASON_LOGIN_OK};
use vstd::prelude::*;

verus! {

/// The phase of a session.
#[derive(Debug, Clone, Copy, PartialEq, Eq, Structural)]
pub enum SessionPhase {
    /// The handshake packet is sent; no client packet has arrived yet.
    Handshaking,
    /// The cipher is in use; the client has to log in.
    Authenticating,
    /// The account is logged in; the client picks or creates a character.
    SelectingCharacter,
    /// A character is picked; it is loaded and put into the world.
    EnteringWorld,
    /// The character is in the world.
    Active,
    /// The session is over.
    Closed,
}

/// What a login attempt comes to.
#[derive(Debug, Clone, Copy, PartialEq, Eq, Structural)]
pub enum LoginOutcome {
    Accepted,
    /// No such account, or the password does not match.
    BadCredentials,
    /// The account is logged in elsewhere.
    AlreadyOnline,
    /// The account is banned.
    Banned,
}

/// The kinds of request a client sends.
#[derive(Debug, Clone, Copy, PartialEq, Eq, Structural)]
pub enum RequestKind {
    ClientVersion,
    Login,
    CreateCharacter,
    SelectCharacter,
    Move,
    ChangeHeading,
    Attack,
    PickUp,
    UseItem,
    UseSkill,
    Chat,
    Clan,
    Teleport,
    Logout,
    /// A packet with an opcode that stands for no request.
    Unknown,
}

/// The kind of request an opcode stands for.
pub open spec fn kind_of(opcode: u8) -> RequestKind {
    if opcode == client::C_OPCODE_CLIENTVERSION {
        RequestKind::ClientVersion
    } else if opcode == client::C_OPCODE_LOGINPACKET || opcode == client::C_OPCODE_AUTHLOGIN {
        RequestKind::Login
    } else if opcode == client::C_OPCODE_NEWCHAR {
        RequestKind::CreateCharacter
    } else if opcode == client::C_OPCODE_LOGINTOSERVER {
        RequestKind::SelectCharacter
    } else if opcode == client::C_OPCODE_MOVECHAR {
        RequestKind::Move
    } else if opcode == client::C_OPCODE_CHANGEHEADING {
        RequestKind::ChangeHeading
    } else if opcode == client::C_OPCODE_ATTACK || opcode == client::C_OPCODE_ARROWATTACK {
        RequestKind::Attack
    } else if opcode == client::C_OPCODE_PICKUPITEM {
        RequestKind::PickUp
    } else if opcode == client::C_OPCODE_USEITEM {
        RequestKind::UseItem
    } else if opcode == client::C_OPCODE_USESKILL {
        RequestKind::UseSkill
    } else if opcode == client::C_OPCODE_CHAT {
        RequestKind::Chat
    } else if opcode == client::C_OPCODE_CREATECLAN || opcode == client::C_OPCODE_LEAVECLAN
        || opcode == client::C_OPCODE_BANCLAN || opcode == client::C_OPCODE_WAR || opcode
        == client::C_OPCODE_RANK {
        RequestKind::Clan
    } else if opcode == client::C_OPCODE_ENTERPORTAL || opcode == client::C_OPCODE_BOOKMARK
        || opcode == client::C_OPCODE_BOOKMARKDELETE {
        RequestKind::Teleport
    } else if opcode == client::C_OPCODE_QUITGAME {
        RequestKind::Logout
    } else {
        RequestKind::Unknown
    }
}

/// Tells the kind of request from the opcode of a packet.
pub fn classify(opcode: u8) -> (kind: RequestKind)
    ensures
        kind == kind_of(opcode),
{
    if opcode == client::C_OPCODE_CLIENTVERSION {
        RequestKind::ClientVersion
    } else if opcode == client::C_OPCODE_LOGINPACKET || opcode == client::C_OPCODE_AUTHLOGIN {
        RequestKind::Login
    } else if opcode == client::C_OPCODE_NEWCHAR {
        RequestKind::CreateCharacter
    } else if opcode == client::C_OPCODE_LOGINTOSERVER {
        RequestKind::SelectCharacter
    } else if opcode == client::C_OPCODE_MOVECHAR {
        RequestKind::Move
    } else if opcode == client::C_OPCODE_CHANGEHEADING {
        RequestKind::ChangeHeading
    } else if opcode == client::C_OPCODE_ATTACK || opcode == client::C_OPCODE_ARROWATTACK {
        RequestKind::Attack
    } else if opcode == client::C_OPCODE_PICKUPITEM {
        RequestKind::PickUp
    } else if opcode == client::C_OPCODE_USEITEM {
        RequestKind::UseItem
    } else if opcode == client::C_OPCODE_USESKILL {
        RequestKind::UseSkill
    } else if opcode == client::C_OPCODE_CHAT {
        RequestKind::Chat
    } else if opcode == client::C_OPCODE_CREATECLAN || opcode == client::C_OPCODE_LEAVECLAN
        || opcode == client::C_OPCODE_BANCLAN || opcode == client::C_OPCODE_WAR || opcode
        == client::C_OPCODE_RANK {
        RequestKind::Clan
    } else if opcode == client::C_OPCODE_ENTERPORTAL || opcode == client::C_OPCODE_BOOKMARK
        || opcode == client::C_OPCODE_BOOKMARKDELETE {
        RequestKind::Teleport
    } else if opcode == client::C_OPCODE_QUITGAME {
        RequestKind::Logout
    } else {
        RequestKind::Unknown
    }
}

/// What happens to a session.
#[derive(Debug, Clone, Copy, PartialEq, Eq, Structural)]
pub enum SessionEvent {
    /// The first client packet arrived and was decrypted.
    HandshakeDone,
    /// A login request was checked against the account store.
    LoginChecked(LoginOutcome),
    /// The client picked a character; `owned` says whether it belongs to the
    /// account of this session.
    CharacterChosen { object_id: i32, owned: bool },
    /// The character is loaded, registered and indexed, and the client has
    /// all it needs to render the world.
    WorldEntered,
    /// A request was decoded.
    Request(RequestKind),
    /// The connection failed or ended.
    ConnectionLost,
}

/// What the owner of the socket has to do after a step.
#[derive(Debug, Clone, Copy, PartialEq, Eq, Structural)]
pub enum SessionAction {
    /// Nothing.
    Proceed,
    /// Drop what arrived; the session goes on.
    Discard,
    /// Handle the request.
    Dispatch(RequestKind),
    /// Send the login result, mark the account online and list its
    /// characters.
    AcceptLogin { code: u8 },
    /// Send the login result; the client may try again.
    RejectLogin { code: u8 },
    /// Load the character, register it and index it, and send the packets
    /// for entering the world.
    EnterWorld { object_id: i32 },
    /// The session is over. Send `code` if there is one, take the character
    /// out of registry and index if `unregister` is set, and mark the account
    /// offline if `mark_offline` is set.
    Release { code: Option<u8>, unregister: bool, mark_offline: bool },
}

/// The outcome of a login attempt: an unknown account or a wrong password are
/// bad credentials; of an account with the right password, a banned one is
/// turned away as banned and one that is online as already online.
pub open spec fn login_outcome(account: Option<AccountData>, raw_password: Seq<char>) -> LoginOutcome {
    match account {
        None => LoginOutcome::BadCredentials,
        Some(a) => if password_hash(raw_password) != a.password@ {
            LoginOutcome::BadCredentials
        } else if a.banned != 0 {
            LoginOutcome::Banned
        } else if a.online != 0 {
            LoginOutcome::AlreadyOnline
        } else {
            LoginOutcome::Accepted
        },
    }
}

/// Checks a login attempt against the stored account, if there is one.
pub fn check_login(account: Option<&AccountData>, raw_password: &str) -> (outcome: LoginOutcome)
    ensures
        outcome == login_outcome(
            match account {
                Some(a) => Some(*a),
                None => None,
            },
            raw_password@,
        ),
{
    match account {
        None => LoginOutcome::BadCredentials,
        Some(a) => {
            if !validate_password(raw_password, a.password.as_str()) {
                LoginOutcome::BadCredentials
            } else if a.banned != 0 {
                LoginOutcome::Banned
            } else if a.online != 0 {
                LoginOutcome::AlreadyOnline
            } else {
                LoginOutcome::Accepted
            }
        },
    }
}

/// The result code sent for a login outcome.
pub open spec fn login_code(outcome: LoginOutcome) -> u8 {
    match outcome {
        LoginOutcome::Accepted => REASON_LOGIN_OK,
        LoginOutcome::AlreadyOnline => REASON_ACCOUNT_IN_USE,
        LoginOutcome::BadCredentials => REASON_ACCESS_FAILED,
        LoginOutcome::Banned => REASON_ACCESS_FAILED,
    }
}

/// The requests a phase accepts.
pub open spec fn accepts(phase: SessionPhase, kind: RequestKind) -> bool {
    match phase {
        SessionPhase::Handshaking => false,
        SessionPhase::Authenticating => kind == RequestKind::ClientVersion || kind
            == RequestKind::Login,
        SessionPhase::SelectingCharacter => kind == RequestKind::CreateCharacter || kind
            == RequestKind::SelectCharacter || kind == RequestKind::Logout,
        SessionPhase::EnteringWorld => false,
        SessionPhase::Active => kind == RequestKind::Move || kind == RequestKind::ChangeHeading
            || kind == RequestKind::Attack || kind == RequestKind::PickUp || kind
            == RequestKind::UseItem || kind == RequestKind::UseSkill || kind == RequestKind::Chat
            || kind == RequestKind::Clan || kind == RequestKind::Teleport || kind
            == RequestKind::Logout,
        SessionPhase::Closed => false,
    }
}

/// Position of a phase in the order in which a session walks through them.
pub open spec fn phase_rank(phase: SessionPhase) -> int {
    match phase {
        SessionPhase::Handshaking => 0,
        SessionPhase::Authenticating => 1,
        SessionPhase::SelectingCharacter => 2,
        SessionPhase::EnteringWorld => 3,
        SessionPhase::Active => 4,
        SessionPhase::Closed => 5,
    }
}

/// Whether the account of a session in this phase has been marked online.
pub open spec fn holds_account(phase: SessionPhase) -> bool {
    phase == SessionPhase::SelectingCharacter || phase == SessionPhase::EnteringWorld || phase
        == SessionPhase::Active
}

/// Whether the character of a session in this phase may be in registry and
/// index.
pub open spec fn holds_character(phase: SessionPhase) -> bool {
    phase == SessionPhase::EnteringWorld || phase == SessionPhase::Active
}

/// The mathematical state of a session.
pub struct SessionState {
    pub phase: SessionPhase,
    /// How often the client sent what the phase does not accept.
    pub violations: nat,
    /// How many violations are put up with.
    pub max_violations: nat,
    /// The character that was picked, once there is one.
    pub character: Option<i32>,
}

/// The release that closes a session in the given phase.
pub open spec fn release_of(phase: SessionPhase, code: Option<u8>) -> SessionAction {
    SessionAction::Release {
        code,
        unregister: holds_character(phase),
        mark_offline: holds_account(phase),
    }
}

/// What a violation does to a session: it is counted, and once there are more
/// than are put up with the session is closed.
pub open spec fn after_violation(s: SessionState) -> (SessionState, SessionAction) {
    if s.violations + 1 > s.max_violations {
        (
            SessionState { phase: SessionPhase::Closed, violations: s.violations + 1, ..s },
            release_of(s.phase, None),
        )
    } else {
        (SessionState { violations: s.violations + 1, ..s }, SessionAction::Discard)
    }
}

/// The step of the state machine: the state after an event, and what is to
/// be done.
pub open spec fn step_of(s: SessionState, event: SessionEvent) -> (SessionState, SessionAction) {
    let closed = SessionState { phase: SessionPhase::Closed, ..s };
    match (s.phase, event) {
        (SessionPhase::Closed, _) => (s, SessionAction::Proceed),
        (_, SessionEvent::ConnectionLost) => (closed, release_of(s.phase, None)),
        (SessionPhase::Handshaking, SessionEvent::HandshakeDone) => (
            SessionState { phase: SessionPhase::Authenticating, ..s },
            SessionAction::Proceed,
        ),
        (SessionPhase::Authenticating, SessionEvent::LoginChecked(outcome)) => match outcome {
            LoginOutcome::Accepted => (
                SessionState { phase: SessionPhase::SelectingCharacter, ..s },
                SessionAction::AcceptLogin { code: login_code(outcome) },
            ),
            LoginOutcome::BadCredentials => (
                s,
                SessionAction::RejectLogin { code: login_code(outcome) },
            ),
            _ => (closed, release_of(s.phase, Some(login_code(outcome)))),
        },
        (SessionPhase::SelectingCharacter, SessionEvent::CharacterChosen { object_id, owned }) => {
            if owned {
                (
                    SessionState {
                        phase: SessionPhase::EnteringWorld,
                        character: Some(object_id),
                        ..s
                    },
                    SessionAction::EnterWorld { object_id },
                )
            } else {
                after_violation(s)
            }
        },
        (SessionPhase::EnteringWorld, SessionEvent::WorldEntered) => (
            SessionState { phase: SessionPhase::Active, ..s },
            SessionAction::Proceed,
        ),
        (_, SessionEvent::Request(kind)) => {
            if !accepts(s.phase, kind) {
                after_violation(s)
            } else if kind == RequestKind::Logout {
                (closed, release_of(s.phase, None))
            } else {
                (s, SessionAction::Dispatch(kind))
            }
        },
        _ => after_violation(s),
    }
}

/// One session.
pub struct Session {
    phase: SessionPhase,
    violations: u64,
    max_violations: u64,
    character: Option<i32>,
}

impl View for Session {
    type V = SessionState;

    closed spec fn view(&self) -> SessionState {
        SessionState {
            phase: self.phase,
            violations: self.violations as nat,
            max_violations: self.max_violations as nat,
            character: self.character,
        }
    }
}

fn is_accepted(phase: SessionPhase, kind: RequestKind) -> (b: bool)
    ensures
        b == accepts(phase, kind),
{
    match phase {
        SessionPhase::Authenticating => kind == RequestKind::ClientVersion || kind
            == RequestKind::Login,
        SessionPhase::SelectingCharacter => kind == RequestKind::CreateCharacter || kind
            == RequestKind::SelectCharacter || kind == RequestKind::Logout,
        SessionPhase::Active => kind == RequestKind::Move || kind == RequestKind::ChangeHeading
            || kind == RequestKind::Attack || kind == RequestKind::PickUp || kind
            == RequestKind::UseItem || kind == RequestKind::UseSkill || kind == RequestKind::Chat
            || kind == RequestKind::Clan || kind == RequestKind::Teleport || kind
            == RequestKind::Logout,
        _ => false,
    }
}

fn code_of(outcome: LoginOutcome) -> (code: u8)
    ensures
        code == login_code(outcome),
{
    match outcome {
        LoginOutcome::Accepted => REASON_LOGIN_OK,
        LoginOutcome::AlreadyOnline => REASON_ACCOUNT_IN_USE,
        LoginOutcome::BadCredentials => REASON_ACCESS_FAILED,
        LoginOutcome::Banned => REASON_ACCESS_FAILED,
    }
}

impl Session {
    /// A session that has just been accepted: the handshake is under way.
    /// `max_violations` is the number of violations that are put up with.
    pub fn new(max_violations: u32) -> (s: Session)
        ensures
            s@ == (SessionState {
                phase: SessionPhase::Handshaking,
                violations: 0,
                max_violations: max_violations as nat,
                character: None,
            }),
    {
        Session {
            phase: SessionPhase::Handshaking,
            violations: 0,
            max_violations: max_violations as u64,
            character: None,
        }
    }

    /// The current phase.
    pub fn phase(&self) -> (phase: SessionPhase)
        ensures
            phase == self@.phase,
    {
        self.phase
    }

    /// The character that was picked, once there is one.
    pub fn character(&self) -> (character: Option<i32>)
        ensures
            character == self@.character,
    {
        self.character
    }

    /// Whether the session is over.
    pub fn is_closed(&self) -> (closed: bool)
        ensures
            closed == (self@.phase == SessionPhase::Closed),
    {
        self.phase == SessionPhase::Closed
    }

    fn release(&self, code: Option<u8>) -> (action: SessionAction)
        ensures
            action == release_of(self.phase, code),
    {
        let unregister = self.phase == SessionPhase::EnteringWorld || self.phase
            == SessionPhase::Active;
        let mark_offline = self.phase == SessionPhase::SelectingCharacter || unregister;
        SessionAction::Release { code, unregister, mark_offline }
    }

    fn violation(&mut self) -> (action: SessionAction)
        requires
            old(self).phase != SessionPhase::Closed,
        ensures
            (final(self)@, action) == after_violation(old(self)@),
    {
        proof {
            use_type_invariant(&*self);
        }
        if self.violations >= self.max_violations {
            let action = self.release(None);
            self.phase = SessionPhase::Closed;
            self.violations = self.violations + 1;
            action
        } else {
            self.violations = self.violations + 1;
            SessionAction::Discard
        }
    }

    /// Takes one event: moves the phase and says what is to be done.
    pub fn step(&mut self, event: SessionEvent) -> (action: SessionAction)
        ensures
            (final(self)@, action) == step_of(old(self)@, event),
    {
        if self.phase == SessionPhase::Closed {
            return SessionAction::Proceed;
        }
        proof {
            use_type_invariant(&*self);
        }
        match event {
            SessionEvent::ConnectionLost => {
                let action = self.release(None);
                self.phase = SessionPhase::Closed;
                action
            },
            SessionEvent::HandshakeDone => {
                if self.phase == SessionPhase::Handshaking {
                    self.phase = SessionPhase::Authenticating;
                    SessionAction::Proceed
                } else {
                    self.violation()
                }
            },
            SessionEvent::LoginChecked(outcome) => {
                if self.phase == SessionPhase::Authenticating {
                    let code = code_of(outcome);
                    match outcome {
                        LoginOutcome::Accepted => {
                            self.phase = SessionPhase::SelectingCharacter;
                            SessionAction::AcceptLogin { code }
                        },
                        LoginOutcome::BadCredentials => SessionAction::RejectLogin { code },
                        _ => {
                            let action = self.release(Some(code));
                            self.phase = SessionPhase::Closed;
                            action
                        },
                    }
                } else {
                    self.violation()
                }
            },
            SessionEvent::CharacterChosen { object_id, owned } => {
                if self.phase == SessionPhase::SelectingCharacter && owned {
                    self.character = Some(object_id);
                    self.phase = SessionPhase::EnteringWorld;
                    SessionAction::EnterWorld { object_id }
                } else {
                    self.violation()
                }
            },
            SessionEvent::WorldEntered => {
                if self.phase == SessionPhase::EnteringWorld {
                    self.phase = SessionPhase::Active;
                    SessionAction::Proceed
                } else {
                    self.violation()
                }
            },
            SessionEvent::Request(kind) => {
                if !is_accepted(self.phase, kind) {
                    self.violation()
                } else if kind == RequestKind::Logout {
                    let action = self.release(None);
                    self.phase = SessionPhase::Closed;
                    action
                } else {
                    SessionAction::Dispatch(kind)
                }
            },
        }
    }

    #[verifier::type_invariant]
    spec fn well_formed(&self) -> bool {
        &&& self.max_violations <= u32::MAX
        &&& self.phase != SessionPhase::Closed ==> self.violations <= self.max_violations
        &&& holds_character(self.phase) ==> self.character is Some
    }
}

/// The states a session can be in: an open session has not used up its
/// violations, and a session that may hold a character knows which.
pub open spec fn sound_state(s: SessionState) -> bool {
    &&& s.phase != SessionPhase::Closed ==> s.violations <= s.max_violations
    &&& holds_character(s.phase) ==> s.character is Some
}

/// A session never goes back to an earlier phase, and a session that is over
/// stays over and asks for nothing more.
pub proof fn lemma_phases_only_advance(s: SessionState, event: SessionEvent)
    ensures
        phase_rank(step_of(s, event).0.phase) >= phase_rank(s.phase),
        s.phase == SessionPhase::Closed ==> step_of(s, event) == (s, SessionAction::Proceed),
        sound_state(s) ==> sound_state(step_of(s, event).0),
{
}

/// Release is guaranteed on every exit path: the step that closes a session,
/// and no other, asks for the release, and the release names exactly what the
/// session held: its character from world entry on, its account from login
/// on.
pub proof fn lemma_release_on_every_exit(s: SessionState, event: SessionEvent)
    ensures
        ({
            let (next, action) = step_of(s, event);
            &&& (action is Release) <==> (s.phase != SessionPhase::Closed && next.phase
                == SessionPhase::Closed)
            &&& action is Release ==> action->unregister == holds_character(s.phase)
                && action->mark_offline == holds_account(s.phase)
        }),
{
}

/// A lost connection closes a session in whatever phase it is.
pub proof fn lemma_connection_loss_closes(s: SessionState)
    ensures
        step_of(s, SessionEvent::ConnectionLost).0.phase == SessionPhase::Closed,
{
}

/// A request is handled only in a phase that accepts it; anything else is
/// discarded or, once the violations are used up, ends the session.
pub proof fn lemma_only_accepted_requests_are_dispatched(s: SessionState, event: SessionEvent)
    ensures
        ({
            let (next, action) = step_of(s, event);
            &&& action is Dispatch ==> event == SessionEvent::Request(action->Dispatch_0)
                && accepts(s.phase, action->Dispatch_0) && next == s
            &&& action is Discard ==> next.phase == s.phase && next.violations == s.violations + 1
                && next.violations <= next.max_violations
        }),
{
}

/// Each phase is entered from the one before it, by the one event that
/// belongs there: nobody plays without having logged in and picked a
/// character of the account.
pub proof fn lemma_phases_are_entered_in_order(s: SessionState, event: SessionEvent)
    ensures
        ({
            let next = step_of(s, event).0;
            &&& next.phase == SessionPhase::Authenticating && s.phase != next.phase ==> s.phase
                == SessionPhase::Handshaking && event == SessionEvent::HandshakeDone
            &&& next.phase == SessionPhase::SelectingCharacter && s.phase != next.phase ==> s.phase
                == SessionPhase::Authenticating && event == SessionEvent::LoginChecked(
                LoginOutcome::Accepted,
            )
            &&& next.phase == SessionPhase::EnteringWorld && s.phase != next.phase ==> s.phase
                == SessionPhase::SelectingCharacter && event is CharacterChosen
                && event->owned && next.character == Some(event->object_id)
            &&& next.phase == SessionPhase::Active && s.phase != next.phase ==> s.phase
                == SessionPhase::EnteringWorld && event == SessionEvent::WorldEntered
        }),
{
}

} // verus!
