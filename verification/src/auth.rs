//! The per-user authentication state machine and its controller.
//!
//! A handshake walks one user from `Idle` through `AwaitingPhoneNumber`,
//! `AwaitingCode` and possibly `AwaitingSecondFactor` to `Authorized`.
//! Exactly one phase is active at a time: the phase is a single enum, so two
//! "awaiting" steps can never be active together.
//!
//! Every call to the account provider (loading a stored session, requesting a
//! login code, submitting the code or the second factor, persisting the
//! session) suspends the task, so it happens outside this library. The
//! controller is the function [`AuthStages::advance`]: given the current
//! state and one event, it returns the next external action to perform and
//! the reply to show the user, and mutates the state. The surrounding program
//! performs the action and feeds its outcome back as the next event.

use vstd::prelude::*;

verus! {

/// The step a user's handshake currently stands at.
#[derive(PartialEq, Eq, Structural, Clone, Copy, Debug)]
pub enum Phase {
    /// No handshake in flight and no authorization confirmed.
    Idle,
    /// The user was asked for their phone number.
    AwaitingPhoneNumber,
    /// A login code was requested; the user was asked to type it in.
    AwaitingCode,
    /// The provider demanded a second factor; the user was asked for it.
    AwaitingSecondFactor,
    /// The provider confirmed the account as authorized.
    Authorized,
}

/// An opaque second-factor challenge, with the human-readable hint the
/// provider attached to it, if any.
#[derive(Debug)]
pub struct PasswordChallenge {
    /// Handle to the provider's challenge token, owned by the surrounding
    /// program; the library never inspects it, only carries it.
    pub token: u64,
    /// The provider's hint for the second factor, absent when it gave none.
    pub hint: Option<String>,
}

/// Mathematical value of a [`PasswordChallenge`].
pub struct PasswordChallengeView {
    pub token: u64,
    pub hint: Option<Seq<char>>,
}

impl View for PasswordChallenge {
    type V = PasswordChallengeView;

    open spec fn view(&self) -> PasswordChallengeView {
        PasswordChallengeView { token: self.token, hint: self.hint.deep_view() }
    }
}

impl DeepView for PasswordChallenge {
    type V = PasswordChallengeView;

    open spec fn deep_view(&self) -> PasswordChallengeView {
        self.view()
    }
}

/// One user's handshake state: the current phase and the transient data
/// collected so far. Created at first contact with a user identity and
/// mutated only by [`AuthStages::advance`], one inbound event at a time.
#[derive(Debug)]
pub struct AuthStages {
    /// The current phase; exactly one is active at a time.
    pub phase: Phase,
    /// The phone number the user supplied, once the phase has left
    /// `AwaitingPhoneNumber`.
    pub phone_number: Option<String>,
    /// Handle to the login token returned by the code request; required to
    /// submit the code.
    pub pending_login_token: Option<u64>,
    /// The code extracted from the user's text, once submitted.
    pub submitted_code: Option<String>,
    /// The second-factor challenge; present exactly in `AwaitingSecondFactor`.
    pub pending_password_challenge: Option<PasswordChallenge>,
    /// Handle to this user's credential session, owned by the surrounding
    /// program; created at first contact and kept for the account's lifetime.
    pub session_handle: Option<u64>,
}

/// Mathematical value of an [`AuthStages`].
pub struct AuthStagesView {
    pub phase: Phase,
    pub phone_number: Option<Seq<char>>,
    pub pending_login_token: Option<u64>,
    pub submitted_code: Option<Seq<char>>,
    pub pending_password_challenge: Option<PasswordChallengeView>,
    pub session_handle: Option<u64>,
}

impl View for AuthStages {
    type V = AuthStagesView;

    open spec fn view(&self) -> AuthStagesView {
        AuthStagesView {
            phase: self.phase,
            phone_number: self.phone_number.deep_view(),
            pending_login_token: self.pending_login_token,
            submitted_code: self.submitted_code.deep_view(),
            pending_password_challenge: self.pending_password_challenge.deep_view(),
            session_handle: self.session_handle,
        }
    }
}

impl AuthStagesView {
    /// Internal consistency of a state: each phase holds the data its next
    /// transition needs, and a challenge is present exactly while the second
    /// factor is awaited.
    pub open spec fn wf(self) -> bool {
        &&& (self.phase != Phase::Idle ==> self.session_handle is Some)
        &&& (self.phase is AwaitingCode ==> self.pending_login_token is Some
            && self.phone_number is Some)
        &&& (self.pending_password_challenge is Some <==> self.phase is AwaitingSecondFactor)
    }

    /// The state every user starts in.
    pub open spec fn initial() -> AuthStagesView {
        AuthStagesView {
            phase: Phase::Idle,
            phone_number: None,
            pending_login_token: None,
            submitted_code: None,
            pending_password_challenge: None,
            session_handle: None,
        }
    }
}

/// One inbound occurrence the controller reacts to: a user message, or the
/// outcome of an external call the controller asked for.
#[derive(Debug)]
pub enum AuthEvent {
    /// The user issued the command that starts (or re-checks) authentication.
    AuthRequested,
    /// The credential session for this user was connected from durable
    /// storage, and the provider said whether it is already authorized.
    SessionConnected { session: u64, authorized: bool },
    /// A plain text message arrived while a handshake was in flight;
    /// `client_authorized` is what the provider said of the session just
    /// before the text was handled.
    Text { text: String, client_authorized: bool },
    /// The provider accepted the code request and returned a login token.
    LoginCodeSent { token: u64 },
    /// The text-understanding step extracted a bare code from the user text.
    CodeExtracted { code: String },
    /// Submitting the code succeeded.
    SignInOk,
    /// Submitting the code was refused pending a second factor.
    SignInPasswordRequired { challenge: u64, hint: Option<String> },
    /// Submitting the code failed for any other reason.
    SignInFailed { error: String },
    /// Submitting the second factor succeeded.
    PasswordOk,
    /// Submitting the second factor failed.
    PasswordFailed { error: String },
}

/// Mathematical value of an [`AuthEvent`].
pub enum AuthEventView {
    AuthRequested,
    SessionConnected { session: u64, authorized: bool },
    Text { text: Seq<char>, client_authorized: bool },
    LoginCodeSent { token: u64 },
    CodeExtracted { code: Seq<char> },
    SignInOk,
    SignInPasswordRequired { challenge: u64, hint: Option<Seq<char>> },
    SignInFailed { error: Seq<char> },
    PasswordOk,
    PasswordFailed { error: Seq<char> },
}

impl View for AuthEvent {
    type V = AuthEventView;

    open spec fn view(&self) -> AuthEventView {
        match self {
            AuthEvent::AuthRequested => AuthEventView::AuthRequested,
            AuthEvent::SessionConnected { session, authorized } => AuthEventView::SessionConnected {
                session: *session,
                authorized: *authorized,
            },
            AuthEvent::Text { text, client_authorized } => AuthEventView::Text {
                text: text@,
                client_authorized: *client_authorized,
            },
            AuthEvent::LoginCodeSent { token } => AuthEventView::LoginCodeSent { token: *token },
            AuthEvent::CodeExtracted { code } => AuthEventView::CodeExtracted { code: code@ },
            AuthEvent::SignInOk => AuthEventView::SignInOk,
            AuthEvent::SignInPasswordRequired { challenge, hint } => AuthEventView::SignInPasswordRequired {
                challenge: *challenge,
                hint: hint.deep_view(),
            },
            AuthEvent::SignInFailed { error } => AuthEventView::SignInFailed { error: error@ },
            AuthEvent::PasswordOk => AuthEventView::PasswordOk,
            AuthEvent::PasswordFailed { error } => AuthEventView::PasswordFailed { error: error@ },
        }
    }
}

/// The external call the surrounding program must perform next, if any.
/// Handles name objects the program owns; the library never looks inside.
#[derive(Debug)]
pub enum AuthAction {
    /// No external call is owed.
    Nothing,
    /// Connect (or create) this user's credential session from durable
    /// storage and report whether it is authorized.
    ConnectSession,
    /// Ask the provider to send a login code to the phone number.
    RequestLoginCode { session: u64, phone: String },
    /// Run the noisy user text through the text-understanding step to pull
    /// out a bare code.
    ExtractCode { text: String },
    /// Submit the extracted code under the stored login token.
    SubmitCode { session: u64, token: u64, code: String },
    /// Submit the second factor under the stored challenge.
    SubmitPassword { session: u64, challenge: u64, password: String },
    /// Write the session to durable storage, keyed by the user identity.
    PersistSession { session: u64 },
}

/// Mathematical value of an [`AuthAction`].
pub enum AuthActionView {
    Nothing,
    ConnectSession,
    RequestLoginCode { session: u64, phone: Seq<char> },
    ExtractCode { text: Seq<char> },
    SubmitCode { session: u64, token: u64, code: Seq<char> },
    SubmitPassword { session: u64, challenge: u64, password: Seq<char> },
    PersistSession { session: u64 },
}

impl View for AuthAction {
    type V = AuthActionView;

    open spec fn view(&self) -> AuthActionView {
        match self {
            AuthAction::Nothing => AuthActionView::Nothing,
            AuthAction::ConnectSession => AuthActionView::ConnectSession,
            AuthAction::RequestLoginCode { session, phone } => AuthActionView::RequestLoginCode {
                session: *session,
                phone: phone@,
            },
            AuthAction::ExtractCode { text } => AuthActionView::ExtractCode { text: text@ },
            AuthAction::SubmitCode { session, token, code } => AuthActionView::SubmitCode {
                session: *session,
                token: *token,
                code: code@,
            },
            AuthAction::SubmitPassword { session, challenge, password } => AuthActionView::SubmitPassword {
                session: *session,
                challenge: *challenge,
                password: password@,
            },
            AuthAction::PersistSession { session } => AuthActionView::PersistSession {
                session: *session,
            },
        }
    }
}

/// The reply owed to the user for one handled event, named after the state
/// transition it reports. The localized text is chosen later, from the
/// message table.
#[derive(Debug)]
pub enum Reply {
    /// The stored session already reported itself authorized at entry.
    EntryAuthorized,
    /// The user must now send their phone number.
    AwaitingPhone,
    /// The user must now enter the code they received.
    AwaitingPasscode,
    /// The code was accepted and the account is authorized.
    Authorized,
    /// A second factor is required; the hint is the provider's, if any.
    TwoFaRequired { hint: Option<String> },
    /// The second factor was accepted.
    TwoFaSuccess,
    /// Submitting the code failed; the provider's error text is surfaced.
    SignInFailed { error: String },
    /// Submitting the second factor failed; the provider's error text is
    /// surfaced.
    TwoFaFailed { error: String },
}

/// Mathematical value of a [`Reply`].
pub enum ReplyView {
    EntryAuthorized,
    AwaitingPhone,
    AwaitingPasscode,
    Authorized,
    TwoFaRequired { hint: Option<Seq<char>> },
    TwoFaSuccess,
    SignInFailed { error: Seq<char> },
    TwoFaFailed { error: Seq<char> },
}

impl View for Reply {
    type V = ReplyView;

    open spec fn view(&self) -> ReplyView {
        match self {
            Reply::EntryAuthorized => ReplyView::EntryAuthorized,
            Reply::AwaitingPhone => ReplyView::AwaitingPhone,
            Reply::AwaitingPasscode => ReplyView::AwaitingPasscode,
            Reply::Authorized => ReplyView::Authorized,
            Reply::TwoFaRequired { hint } => ReplyView::TwoFaRequired { hint: hint.deep_view() },
            Reply::TwoFaSuccess => ReplyView::TwoFaSuccess,
            Reply::SignInFailed { error } => ReplyView::SignInFailed { error: error@ },
            Reply::TwoFaFailed { error } => ReplyView::TwoFaFailed { error: error@ },
        }
    }
}

impl DeepView for Reply {
    type V = ReplyView;

    open spec fn deep_view(&self) -> ReplyView {
        self.view()
    }
}

/// What one controller step yields: the state after it, the external action
/// now owed, and the reply owed to the user, if any.
pub struct AuthStep {
    pub post: AuthStagesView,
    pub action: AuthActionView,
    pub reply: Option<ReplyView>,
}

/// The transition function of the controller. Given the state a user's
/// handshake stands at and one event, it fixes the next state, the external
/// action to perform, and the reply to show. Events that do not belong to
/// the current phase change nothing.
///
/// An inbound text is examined against the phases in a fixed order — phone
/// number first, then code, then second factor. With the phase enum at most
/// one of them can hold, so the order is stated only to leave the behaviour
/// unambiguous.
pub open spec fn spec_advance(pre: AuthStagesView, event: AuthEventView) -> AuthStep {
    let stay = AuthStep { post: pre, action: AuthActionView::Nothing, reply: None };
    match event {
        AuthEventView::AuthRequested => AuthStep {
            post: pre,
            action: AuthActionView::ConnectSession,
            reply: None,
        },
        AuthEventView::SessionConnected { session, authorized } => if authorized {
            AuthStep {
                post: AuthStagesView {
                    phase: Phase::Authorized,
                    phone_number: pre.phone_number,
                    pending_login_token: None,
                    submitted_code: None,
                    pending_password_challenge: None,
                    session_handle: Some(session),
                },
                action: AuthActionView::Nothing,
                reply: Some(ReplyView::EntryAuthorized),
            }
        } else {
            AuthStep {
                post: AuthStagesView {
                    phase: Phase::AwaitingPhoneNumber,
                    phone_number: pre.phone_number,
                    pending_login_token: None,
                    submitted_code: None,
                    pending_password_challenge: None,
                    session_handle: Some(session),
                },
                action: AuthActionView::Nothing,
                reply: Some(ReplyView::AwaitingPhone),
            }
        },
        AuthEventView::Text { text, client_authorized } => if client_authorized {
            AuthStep { post: pre, action: AuthActionView::Nothing, reply: Some(ReplyView::Authorized) }
        } else if pre.phase is AwaitingPhoneNumber {
            AuthStep {
                post: AuthStagesView { phone_number: Some(text), ..pre },
                action: AuthActionView::RequestLoginCode {
                    session: pre.session_handle->0,
                    phone: text,
                },
                reply: None,
            }
        } else if pre.phase is AwaitingCode {
            AuthStep { post: pre, action: AuthActionView::ExtractCode { text }, reply: None }
        } else if pre.phase is AwaitingSecondFactor {
            AuthStep {
                post: pre,
                action: AuthActionView::SubmitPassword {
                    session: pre.session_handle->0,
                    challenge: pre.pending_password_challenge->0.token,
                    password: text,
                },
                reply: None,
            }
        } else {
            stay
        },
        AuthEventView::LoginCodeSent { token } => if pre.phase is AwaitingPhoneNumber
            && pre.phone_number is Some {
            AuthStep {
                post: AuthStagesView {
                    phase: Phase::AwaitingCode,
                    pending_login_token: Some(token),
                    ..pre
                },
                action: AuthActionView::Nothing,
                reply: Some(ReplyView::AwaitingPasscode),
            }
        } else {
            stay
        },
        AuthEventView::CodeExtracted { code } => if pre.phase is AwaitingCode {
            AuthStep {
                post: AuthStagesView { submitted_code: Some(code), ..pre },
                action: AuthActionView::SubmitCode {
                    session: pre.session_handle->0,
                    token: pre.pending_login_token->0,
                    code,
                },
                reply: None,
            }
        } else {
            stay
        },
        AuthEventView::SignInOk => if pre.phase is AwaitingCode {
            AuthStep {
                post: AuthStagesView {
                    phase: Phase::Authorized,
                    pending_login_token: None,
                    submitted_code: None,
                    ..pre
                },
                action: AuthActionView::PersistSession { session: pre.session_handle->0 },
                reply: Some(ReplyView::Authorized),
            }
        } else {
            stay
        },
        AuthEventView::SignInPasswordRequired { challenge, hint } => if pre.phase is AwaitingCode {
            AuthStep {
                post: AuthStagesView {
                    phase: Phase::AwaitingSecondFactor,
                    pending_login_token: None,
                    pending_password_challenge: Some(
                        PasswordChallengeView { token: challenge, hint },
                    ),
                    ..pre
                },
                action: AuthActionView::Nothing,
                reply: Some(ReplyView::TwoFaRequired { hint }),
            }
        } else {
            stay
        },
        AuthEventView::SignInFailed { error } => if pre.phase is AwaitingCode {
            AuthStep {
                post: AuthStagesView {
                    phase: Phase::Idle,
                    pending_login_token: None,
                    submitted_code: None,
                    ..pre
                },
                action: AuthActionView::Nothing,
                reply: Some(ReplyView::SignInFailed { error }),
            }
        } else {
            stay
        },
        AuthEventView::PasswordOk => if pre.phase is AwaitingSecondFactor {
            AuthStep {
                post: AuthStagesView {
                    phase: Phase::Authorized,
                    pending_password_challenge: None,
                    ..pre
                },
                action: AuthActionView::PersistSession { session: pre.session_handle->0 },
                reply: Some(ReplyView::TwoFaSuccess),
            }
        } else {
            stay
        },
        AuthEventView::PasswordFailed { error } => if pre.phase is AwaitingSecondFactor {
            AuthStep {
                post: AuthStagesView {
                    phase: Phase::Idle,
                    pending_password_challenge: None,
                    ..pre
                },
                action: AuthActionView::Nothing,
                reply: Some(ReplyView::TwoFaFailed { error }),
            }
        } else {
            stay
        },
    }
}

/// At most one of the three "awaiting" steps is active at any observed
/// instant: the phase is one enum value, so no two of them can hold of the
/// same state. This is the guarantee the phase enum gives by construction,
/// where three independent flags could in principle disagree.
pub proof fn lemma_awaiting_phases_exclusive(state: AuthStagesView)
    ensures
        !(state.phase is AwaitingPhoneNumber && state.phase is AwaitingCode),
        !(state.phase is AwaitingPhoneNumber && state.phase is AwaitingSecondFactor),
        !(state.phase is AwaitingCode && state.phase is AwaitingSecondFactor),
{
}

/// The state a user starts in is consistent.
pub proof fn lemma_initial_state_wf()
    ensures
        AuthStagesView::initial().wf(),
{
}

/// Advancing a consistent state by any event leaves a consistent state, so
/// well-formedness holds at every observed instant of a run that starts at
/// the initial state.
pub proof fn lemma_advance_preserves_wf(pre: AuthStagesView, event: AuthEventView)
    requires
        pre.wf(),
    ensures
        spec_advance(pre, event).post.wf(),
{
}

/// A user who starts unauthorized, supplies a phone number, and then a valid
/// code while no second factor is configured, reaches `Authorized`; on that
/// very step the session is persisted to durable storage and the user is told
/// they are authorized.
pub proof fn lemma_code_only_handshake_reaches_authorized(
    start: AuthStagesView,
    session: u64,
    phone: Seq<char>,
    token: u64,
    raw_text: Seq<char>,
    code: Seq<char>,
)
    requires
        start.wf(),
    ensures
        ({
            let entered = spec_advance(
                start,
                AuthEventView::SessionConnected { session, authorized: false },
            ).post;
            let phoned = spec_advance(
                entered,
                AuthEventView::Text { text: phone, client_authorized: false },
            ).post;
            let coded = spec_advance(phoned, AuthEventView::LoginCodeSent { token }).post;
            let texted = spec_advance(
                coded,
                AuthEventView::Text { text: raw_text, client_authorized: false },
            ).post;
            let submitted = spec_advance(texted, AuthEventView::CodeExtracted { code }).post;
            let last = spec_advance(submitted, AuthEventView::SignInOk);
            &&& entered.phase is AwaitingPhoneNumber
            &&& coded.phase is AwaitingCode
            &&& last.post.phase is Authorized
            &&& last.action == AuthActionView::PersistSession { session }
            &&& last.reply == Some(ReplyView::Authorized)
        }),
{
}

/// A valid code met by a second-factor demand moves the user to
/// `AwaitingSecondFactor`, with the provider's challenge and hint stored and
/// reported back to the user.
pub proof fn lemma_second_factor_required(
    state: AuthStagesView,
    challenge: u64,
    hint: Option<Seq<char>>,
)
    requires
        state.wf(),
        state.phase is AwaitingCode,
    ensures
        ({
            let step = spec_advance(
                state,
                AuthEventView::SignInPasswordRequired { challenge, hint },
            );
            &&& step.post.phase is AwaitingSecondFactor
            &&& step.post.pending_password_challenge == Some(
                PasswordChallengeView { token: challenge, hint },
            )
            &&& step.reply == Some(ReplyView::TwoFaRequired { hint })
        }),
{
}

/// While the second factor is awaited, no event reaches `Authorized` except
/// a correct second-factor submission — leaving aside an entry event in
/// which the provider itself reports the stored session as authorized.
pub proof fn lemma_authorized_only_after_second_factor(
    state: AuthStagesView,
    event: AuthEventView,
)
    requires
        state.wf(),
        state.phase is AwaitingSecondFactor,
        !(event is PasswordOk),
        !(event matches AuthEventView::SessionConnected { authorized: true, .. }),
    ensures
        !(spec_advance(state, event).post.phase is Authorized),
{
}

/// An incorrect second-factor submission clears the second-factor step: the
/// user drops back to `Idle`, the challenge is gone, no `Authorized`
/// transition occurs, and the provider's error is surfaced.
pub proof fn lemma_failed_second_factor_clears_flag(state: AuthStagesView, error: Seq<char>)
    requires
        state.wf(),
        state.phase is AwaitingSecondFactor,
    ensures
        ({
            let step = spec_advance(state, AuthEventView::PasswordFailed { error });
            &&& step.post.phase is Idle
            &&& !(step.post.phase is Authorized)
            &&& step.post.pending_password_challenge is None
            &&& step.reply == Some(ReplyView::TwoFaFailed { error })
        }),
{
}

impl AuthStages {
    /// The state a user starts in at first contact.
    pub fn new() -> (state: AuthStages)
        ensures
            state@ == AuthStagesView::initial(),
    {
        AuthStages {
            phase: Phase::Idle,
            phone_number: None,
            pending_login_token: None,
            submitted_code: None,
            pending_password_challenge: None,
            session_handle: None,
        }
    }

    /// Whether the state is internally consistent; callers of
    /// [`AuthStages::advance`] can test this where they cannot know it.
    pub fn is_wf(&self) -> (consistent: bool)
        ensures
            consistent == self@.wf(),
    {
        let session_ok = self.phase == Phase::Idle || self.session_handle.is_some();
        let code_ok = self.phase != Phase::AwaitingCode || (self.pending_login_token.is_some()
            && self.phone_number.is_some());
        let challenge_ok = self.pending_password_challenge.is_some() == (self.phase
            == Phase::AwaitingSecondFactor);
        session_ok && code_ok && challenge_ok
    }

    /// Whether a handshake is in flight, so plain text messages must be
    /// routed to the controller; outside these phases the message path
    /// ignores the user's texts.
    pub fn in_handshake(&self) -> (routed: bool)
        ensures
            routed == (self@.phase is AwaitingPhoneNumber || self@.phase is AwaitingCode
                || self@.phase is AwaitingSecondFactor),
    {
        match self.phase {
            Phase::AwaitingPhoneNumber | Phase::AwaitingCode | Phase::AwaitingSecondFactor => true,
            Phase::Idle | Phase::Authorized => false,
        }
    }

    /// Advances the handshake by one event: mutates the state exactly as the
    /// transition function says, and hands back the external action now owed
    /// and the reply to show the user.
    pub fn advance(&mut self, event: AuthEvent) -> (outcome: (AuthAction, Option<Reply>))
        requires
            old(self)@.wf(),
        ensures
            final(self)@ == spec_advance(old(self)@, event@).post,
            outcome.0@ == spec_advance(old(self)@, event@).action,
            outcome.1.deep_view() == spec_advance(old(self)@, event@).reply,
            final(self)@.wf(),
    {
        match event {
            AuthEvent::AuthRequested => (AuthAction::ConnectSession, None),
            AuthEvent::SessionConnected { session, authorized } => {
                self.pending_login_token = None;
                self.submitted_code = None;
                self.pending_password_challenge = None;
                self.session_handle = Some(session);
                if authorized {
                    self.phase = Phase::Authorized;
                    (AuthAction::Nothing, Some(Reply::EntryAuthorized))
                } else {
                    self.phase = Phase::AwaitingPhoneNumber;
                    (AuthAction::Nothing, Some(Reply::AwaitingPhone))
                }
            },
            AuthEvent::Text { text, client_authorized } => {
                if client_authorized {
                    (AuthAction::Nothing, Some(Reply::Authorized))
                } else if self.phase == Phase::AwaitingPhoneNumber {
                    let session = self.session_handle.unwrap();
                    let action = AuthAction::RequestLoginCode { session, phone: text.clone() };
                    self.phone_number = Some(text);
                    (action, None)
                } else if self.phase == Phase::AwaitingCode {
                    (AuthAction::ExtractCode { text }, None)
                } else if self.phase == Phase::AwaitingSecondFactor {
                    let session = self.session_handle.unwrap();
                    let challenge = match &self.pending_password_challenge {
                        Some(pending) => pending.token,
                        // dead under the precondition: the challenge is
                        // present in this phase
                        None => 0,
                    };
                    (AuthAction::SubmitPassword { session, challenge, password: text }, None)
                } else {
                    (AuthAction::Nothing, None)
                }
            },
            AuthEvent::LoginCodeSent { token } => {
                if self.phase == Phase::AwaitingPhoneNumber && self.phone_number.is_some() {
                    self.phase = Phase::AwaitingCode;
                    self.pending_login_token = Some(token);
                    (AuthAction::Nothing, Some(Reply::AwaitingPasscode))
                } else {
                    (AuthAction::Nothing, None)
                }
            },
            AuthEvent::CodeExtracted { code } => {
                if self.phase == Phase::AwaitingCode {
                    let session = self.session_handle.unwrap();
                    let token = self.pending_login_token.unwrap();
                    let action = AuthAction::SubmitCode { session, token, code: code.clone() };
                    self.submitted_code = Some(code);
                    (action, None)
                } else {
                    (AuthAction::Nothing, None)
                }
            },
            AuthEvent::SignInOk => {
                if self.phase == Phase::AwaitingCode {
                    let session = self.session_handle.unwrap();
                    self.phase = Phase::Authorized;
                    self.pending_login_token = None;
                    self.submitted_code = None;
                    (AuthAction::PersistSession { session }, Some(Reply::Authorized))
                } else {
                    (AuthAction::Nothing, None)
                }
            },
            AuthEvent::SignInPasswordRequired { challenge, hint } => {
                if self.phase == Phase::AwaitingCode {
                    self.phase = Phase::AwaitingSecondFactor;
                    self.pending_login_token = None;
                    let stored_hint = match &hint {
                        Some(h) => Some(h.clone()),
                        None => None,
                    };
                    self.pending_password_challenge = Some(
                        PasswordChallenge { token: challenge, hint: stored_hint },
                    );
                    (AuthAction::Nothing, Some(Reply::TwoFaRequired { hint }))
                } else {
                    (AuthAction::Nothing, None)
                }
            },
            AuthEvent::SignInFailed { error } => {
                if self.phase == Phase::AwaitingCode {
                    self.phase = Phase::Idle;
                    self.pending_login_token = None;
                    self.submitted_code = None;
                    (AuthAction::Nothing, Some(Reply::SignInFailed { error }))
                } else {
                    (AuthAction::Nothing, None)
                }
            },
            AuthEvent::PasswordOk => {
                if self.phase == Phase::AwaitingSecondFactor {
                    let session = self.session_handle.unwrap();
                    self.phase = Phase::Authorized;
                    self.pending_password_challenge = None;
                    (AuthAction::PersistSession { session }, Some(Reply::TwoFaSuccess))
                } else {
                    (AuthAction::Nothing, None)
                }
            },
            AuthEvent::PasswordFailed { error } => {
                if self.phase == Phase::AwaitingSecondFactor {
                    self.phase = Phase::Idle;
                    self.pending_password_challenge = None;
                    (AuthAction::Nothing, Some(Reply::TwoFaFailed { error }))
                } else {
                    (AuthAction::Nothing, None)
                }
            },
        }
    }
}

} // verus!
