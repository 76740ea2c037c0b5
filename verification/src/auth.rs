//! Decisions of the sign-in flow: payload checks, the code-request retry
//! policy, the answers to sign-in steps and the connection check.

use vstd::prelude::*;
use crate::models::{
    AuthResult, AuthResultView, Failure, Status, failure, failure_text, failure_with, opt_view,
};
use crate::text::{contains_spec, contains_str, is_blank, is_blank_str};
use crate::utils::{map_error, map_error_spec};

verus! {

/// Body of the connect request.
pub struct ConnectPayload {
    pub api_id: i32,
}

/// Body of the request that asks Telegram to send a login code.
pub struct AuthRequestCodePayload {
    pub phone: String,
    pub api_id: i32,
    pub api_hash: String,
}

/// Body of the sign-in request (the code the user received).
pub struct AuthSignInPayload {
    pub code: String,
}

/// Body of the proxy setting request.
pub struct SetProxyPayload {
    pub proxy_url: Option<String>,
}

/// Body of the two-factor password request.
pub struct AuthCheckPasswordPayload {
    pub password: String,
}

/// The answer to connecting: `true` once the client is up, else the
/// initialisation error as an internal error.
pub fn connect_reply(init: Result<(), String>) -> (res: Result<bool, Failure>)
    ensures
        match init {
            Ok(()) => res == Ok::<bool, Failure>(true),
            Err(e) => res matches Err(f) && f.status == Status::InternalServerError && f.message@
                == e@,
        },
{
    match init {
        Ok(()) => Ok(true),
        Err(e) => Err(failure(Status::InternalServerError, e)),
    }
}

/// The proxy address that is kept: none when absent or blank.
pub open spec fn cleaned_proxy_spec(p: Option<Seq<char>>) -> Option<Seq<char>> {
    match p {
        Some(s) => if is_blank(s) {
            None
        } else {
            Some(s)
        },
        None => None,
    }
}

/// The proxy setting to store: a blank address clears the proxy.
pub fn clean_proxy_url(payload: SetProxyPayload) -> (res: Option<String>)
    ensures
        opt_view(res) == cleaned_proxy_spec(opt_view(payload.proxy_url)),
{
    match payload.proxy_url {
        Some(s) => if is_blank_str(s.as_str()) {
            None
        } else {
            Some(s)
        },
        None => None,
    }
}

/// A code request is refused before any call when its API hash is blank.
pub fn check_request_code(payload: &AuthRequestCodePayload) -> (res: Result<(), Failure>)
    ensures
        res is Err <==> is_blank(payload.api_hash@),
        res matches Err(f) ==> f.status == Status::BadRequest && f.message@
            == "API Hash cannot be empty."@,
{
    if is_blank_str(payload.api_hash.as_str()) {
        Err(failure_text(Status::BadRequest, "API Hash cannot be empty."))
    } else {
        Ok(())
    }
}

/// An error after which Telegram asks for the login flow to be restarted.
pub open spec fn is_restart_error(err: Seq<char>) -> bool {
    contains_spec(err, "AUTH_RESTART"@) || contains_spec(err, "500"@)
}

/// How many times a login code is requested at most.
pub open spec fn max_code_attempts() -> nat {
    2
}

/// The retry policy for requesting a login code: a restart error is retried
/// until the attempts run out; any other error ends the request at once.
pub struct CodeRequestRetry {
    attempt: u32,
}

impl CodeRequestRetry {
    #[verifier::type_invariant]
    spec fn inv(&self) -> bool {
        1 <= self.attempt <= 2
    }

    /// The number of the attempt being made (starting at 1).
    pub closed spec fn attempt_number(&self) -> nat {
        self.attempt as nat
    }

    /// The policy before the first attempt.
    pub fn new() -> (res: Self)
        ensures
            res.attempt_number() == 1,
    {
        CodeRequestRetry { attempt: 1 }
    }

    /// The number of the attempt being made.
    pub fn attempt(&self) -> (res: u32)
        ensures
            res == self.attempt_number(),
            1 <= res <= max_code_attempts(),
    {
        proof {
            use_type_invariant(self);
        }
        self.attempt
    }

    /// What to do after the current attempt failed with `err`: `None` to try
    /// again (the attempt number goes up by one), or the refusal to send.
    pub fn on_error(&mut self, err: &str) -> (res: Option<Failure>)
        ensures
            1 <= old(self).attempt_number() <= max_code_attempts(),
            res is None <==> is_restart_error(err@) && old(self).attempt_number()
                < max_code_attempts(),
            res is None ==> final(self).attempt_number() == old(self).attempt_number() + 1,
            res is Some ==> final(self).attempt_number() == old(self).attempt_number(),
            res matches Some(f) ==> f.status == Status::InternalServerError,
            res matches Some(f) ==> (if is_restart_error(err@) {
                f.message@ == "Telegram Error after retry: "@ + err@
            } else {
                f.message@ == map_error_spec(err@)
            }),
    {
        proof {
            use_type_invariant(&*self);
        }
        let restart = contains_str(err, "AUTH_RESTART") || contains_str(err, "500");
        if restart {
            if self.attempt < 2 {
                self.attempt = self.attempt + 1;
                None
            } else {
                Some(failure_with(Status::InternalServerError, "Telegram Error after retry: ", err))
            }
        } else {
            Some(failure(Status::InternalServerError, map_error(err)))
        }
    }
}

/// The answer that sends the user to the dashboard.
pub open spec fn dashboard_result() -> AuthResultView {
    AuthResultView { success: true, next_step: Some("dashboard"@), error: None }
}

/// The answer that asks the user for the two-factor password.
pub open spec fn password_result() -> AuthResultView {
    AuthResultView { success: false, next_step: Some("password"@), error: None }
}

fn dashboard() -> (res: AuthResult)
    ensures
        res@ == dashboard_result(),
{
    AuthResult { success: true, next_step: Some(String::from_str("dashboard")), error: None }
}

/// What signing in with a code came to.
pub enum SignInOutcome {
    SignedIn,
    PasswordRequired,
    Failed(String),
}

/// Signing in needs a client and a pending login code request.
pub fn sign_in_precheck(has_client: bool, has_login_token: bool) -> (res: Result<(), Failure>)
    ensures
        res is Ok <==> has_client && has_login_token,
        res matches Err(f) ==> f.status == Status::BadRequest,
        res matches Err(f) ==> (if !has_client {
            f.message@ == "Client not initialized"@
        } else {
            f.message@ == "No login session found (restart flow)"@
        }),
{
    if !has_client {
        Err(failure_text(Status::BadRequest, "Client not initialized"))
    } else if !has_login_token {
        Err(failure_text(Status::BadRequest, "No login session found (restart flow)"))
    } else {
        Ok(())
    }
}

/// The answer to a sign-in attempt.
pub fn sign_in_reply(outcome: SignInOutcome) -> (res: Result<AuthResult, Failure>)
    ensures
        match outcome {
            SignInOutcome::SignedIn => res matches Ok(r) && r@ == dashboard_result(),
            SignInOutcome::PasswordRequired => res matches Ok(r) && r@ == password_result(),
            SignInOutcome::Failed(e) => res matches Err(f) && f.status
                == Status::InternalServerError && f.message@ == "Sign in failed: "@ + e@,
        },
{
    match outcome {
        SignInOutcome::SignedIn => Ok(dashboard()),
        SignInOutcome::PasswordRequired => Ok(
            AuthResult { success: false, next_step: Some(String::from_str("password")), error: None },
        ),
        SignInOutcome::Failed(e) => Err(
            failure_with(Status::InternalServerError, "Sign in failed: ", e.as_str()),
        ),
    }
}

/// Checking the password needs a client and a pending password request.
pub fn check_password_precheck(has_client: bool, has_password_token: bool) -> (res: Result<
    (),
    Failure,
>)
    ensures
        res is Ok <==> has_client && has_password_token,
        res matches Err(f) ==> f.status == Status::BadRequest,
        res matches Err(f) ==> (if !has_client {
            f.message@ == "Client not initialized"@
        } else {
            f.message@ == "No password session found"@
        }),
{
    if !has_client {
        Err(failure_text(Status::BadRequest, "Client not initialized"))
    } else if !has_password_token {
        Err(failure_text(Status::BadRequest, "No password session found"))
    } else {
        Ok(())
    }
}

/// The answer to a two-factor password check.
pub fn check_password_reply(outcome: Result<(), String>) -> (res: Result<AuthResult, Failure>)
    ensures
        match outcome {
            Ok(()) => res matches Ok(r) && r@ == dashboard_result(),
            Err(e) => res matches Err(f) && f.status == Status::InternalServerError && f.message@
                == "2FA Failed: "@ + e@,
        },
{
    match outcome {
        Ok(()) => Ok(dashboard()),
        Err(e) => Err(failure_with(Status::InternalServerError, "2FA Failed: ", e.as_str())),
    }
}


/// Where a connection check stands.
#[derive(PartialEq, Eq, Structural, Clone, Copy, Debug)]
pub enum ConnectionCheck {
    /// Pinging the existing client; `failures` pings have failed so far.
    Pinging { failures: u32 },
    /// Waiting to learn whether an API id was saved.
    AwaitingApiId,
    /// Waiting for a fresh client to be initialised.
    Reconnecting,
    /// Pinging the freshly initialised client.
    PingingReconnected,
    /// The answer has been given.
    Finished,
}

/// What the caller reports back to the connection check.
pub enum ConnectionEvent {
    /// A ping (`get_me`) succeeded or failed.
    Ping(bool),
    /// The saved API id, if any.
    SavedApiId(Option<i32>),
    /// Initialising a fresh client succeeded or failed with this error text.
    Reconnected(Result<(), String>),
}

/// What the connection check asks the caller to do next.
pub enum ConnectionStep {
    /// Ping the client now.
    Ping,
    /// Wait this many seconds, then ping the client again.
    WaitThenPing { seconds: u64 },
    /// Read the saved API id.
    ReadSavedApiId,
    /// Drop the client and initialise a fresh one with this API id.
    Reconnect { api_id: i32 },
    /// Answer the request.
    Reply(Result<bool, Failure>),
}

/// How many times the existing client is pinged before reconnecting.
pub open spec fn max_pings() -> u32 {
    2
}

/// A state of the connection check that is reachable.
pub open spec fn connection_wf(state: ConnectionCheck) -> bool {
    state matches ConnectionCheck::Pinging { failures } ==> failures < max_pings()
}

/// The events that the check expects in each state.
pub open spec fn connection_accepts(state: ConnectionCheck, ev: ConnectionEvent) -> bool {
    match state {
        ConnectionCheck::Pinging { .. } => ev is Ping,
        ConnectionCheck::AwaitingApiId => ev is SavedApiId,
        ConnectionCheck::Reconnecting => ev is Reconnected,
        ConnectionCheck::PingingReconnected => ev is Ping,
        ConnectionCheck::Finished => false,
    }
}

/// The step that matches a state (what the check waits for in it).
pub open spec fn step_matches(state: ConnectionCheck, step: ConnectionStep) -> bool {
    match step {
        ConnectionStep::Ping => state is Pinging || state is PingingReconnected,
        ConnectionStep::WaitThenPing { seconds } => state is Pinging && seconds == 3,
        ConnectionStep::ReadSavedApiId => state is AwaitingApiId,
        ConnectionStep::Reconnect { .. } => state is Reconnecting,
        ConnectionStep::Reply(_) => state is Finished,
    }
}

/// How many more events a connection check can take at most.
pub open spec fn events_left(state: ConnectionCheck) -> int {
    match state {
        ConnectionCheck::Pinging { failures } => 5 - failures,
        ConnectionCheck::AwaitingApiId => 3,
        ConnectionCheck::Reconnecting => 2,
        ConnectionCheck::PingingReconnected => 1,
        ConnectionCheck::Finished => 0,
    }
}

/// Starts a connection check: ping the client if there is one, else look
/// for a saved API id.
pub fn connection_start(has_client: bool) -> (res: (ConnectionCheck, ConnectionStep))
    ensures
        connection_wf(res.0),
        step_matches(res.0, res.1),
        has_client ==> res.0 == (ConnectionCheck::Pinging { failures: 0 }) && res.1 is Ping,
        !has_client ==> res.0 == ConnectionCheck::AwaitingApiId && res.1 is ReadSavedApiId,
{
    if has_client {
        (ConnectionCheck::Pinging { failures: 0 }, ConnectionStep::Ping)
    } else {
        (ConnectionCheck::AwaitingApiId, ConnectionStep::ReadSavedApiId)
    }
}

/// One step of the connection check.
///
/// The existing client is pinged at most twice, three seconds apart; then a
/// saved API id, if any, is used to reconnect, and the fresh client is
/// pinged once. The answer is `true` exactly after a successful ping,
/// `false` when there is no client and no saved API id, and an internal
/// error when reconnecting fails or the fresh client does not answer.
pub fn connection_next(state: ConnectionCheck, ev: ConnectionEvent) -> (res: (
    ConnectionCheck,
    ConnectionStep,
))
    requires
        connection_wf(state),
        connection_accepts(state, ev),
    ensures
        connection_wf(res.0),
        step_matches(res.0, res.1),
        0 <= events_left(res.0) < events_left(state) <= 5,
        res.1 matches ConnectionStep::Reply(Ok(b)) ==> (b <==> ev == ConnectionEvent::Ping(true)),
        ev == ConnectionEvent::Ping(true) ==> res.1 matches ConnectionStep::Reply(Ok(true)),
        match (state, ev) {
            (ConnectionCheck::Pinging { failures }, ConnectionEvent::Ping(false)) => if failures
                + 1 < max_pings() {
                res.0 == (ConnectionCheck::Pinging { failures: (failures + 1) as u32 })
                    && res.1 == (ConnectionStep::WaitThenPing { seconds: 3 })
            } else {
                res.0 == ConnectionCheck::AwaitingApiId && res.1 is ReadSavedApiId
            },
            (ConnectionCheck::AwaitingApiId, ConnectionEvent::SavedApiId(Some(id))) => res.0
                == ConnectionCheck::Reconnecting && res.1 == (ConnectionStep::Reconnect {
                api_id: id,
            }),
            (ConnectionCheck::AwaitingApiId, ConnectionEvent::SavedApiId(None)) => res.1
                matches ConnectionStep::Reply(Ok(false)),
            (ConnectionCheck::Reconnecting, ConnectionEvent::Reconnected(Ok(()))) => res.0
                == ConnectionCheck::PingingReconnected && res.1 is Ping,
            (ConnectionCheck::Reconnecting, ConnectionEvent::Reconnected(Err(e))) => res.1
                matches ConnectionStep::Reply(Err(f)) && f.status == Status::InternalServerError
                && f.message@ == "Auto-reconnect failed: "@ + e@,
            (ConnectionCheck::PingingReconnected, ConnectionEvent::Ping(false)) => res.1
                matches ConnectionStep::Reply(Err(f)) && f.status == Status::InternalServerError
                && f.message@ == "Reconnect succeeded but ping failed."@,
            _ => true,
        },
{
    match ev {
        ConnectionEvent::Ping(ok) => {
            if ok {
                (ConnectionCheck::Finished, ConnectionStep::Reply(Ok(true)))
            } else {
                match state {
                    ConnectionCheck::Pinging { failures } => {
                        if failures + 1 < 2 {
                            (
                                ConnectionCheck::Pinging { failures: failures + 1 },
                                ConnectionStep::WaitThenPing { seconds: 3 },
                            )
                        } else {
                            (ConnectionCheck::AwaitingApiId, ConnectionStep::ReadSavedApiId)
                        }
                    },
                    _ => (
                        ConnectionCheck::Finished,
                        ConnectionStep::Reply(
                            Err(
                                failure_text(
                                    Status::InternalServerError,
                                    "Reconnect succeeded but ping failed.",
                                ),
                            ),
                        ),
                    ),
                }
            }
        },
        ConnectionEvent::SavedApiId(saved) => match saved {
            Some(id) => (ConnectionCheck::Reconnecting, ConnectionStep::Reconnect { api_id: id }),
            None => (ConnectionCheck::Finished, ConnectionStep::Reply(Ok(false))),
        },
        ConnectionEvent::Reconnected(r) => match r {
            Ok(()) => (ConnectionCheck::PingingReconnected, ConnectionStep::Ping),
            Err(e) => (
                ConnectionCheck::Finished,
                ConnectionStep::Reply(
                    Err(failure_with(Status::InternalServerError, "Auto-reconnect failed: ", e.as_str())),
                ),
            ),
        },
    }
}


/// Where bringing up the Telegram client stands.
#[derive(PartialEq, Eq, Structural, Clone, Copy, Debug)]
pub enum ClientInit {
    /// Waiting to learn whether an old runner was told to stop.
    StoppingOldRunner,
    /// Giving the old runner time to stop.
    Pausing,
    /// Waiting for the data directory to exist.
    PreparingDataDir,
    /// Waiting for the session file to open; `retried` once it was recreated.
    OpeningSession { retried: bool },
    /// Waiting for the damaged session files to be removed.
    RemovingSession,
    /// Finished.
    Finished,
}

/// What the caller reports back while the client is brought up.
pub enum ClientInitEvent {
    /// Whether an old runner was running and has been told to stop.
    OldRunnerSignalled(bool),
    /// The pause is over.
    Paused,
    /// Making sure the data directory exists succeeded or failed.
    DataDir(Result<(), String>),
    /// Opening the session file succeeded or failed.
    Session(Result<(), String>),
    /// The session file and its `-wal` and `-shm` companions were removed.
    SessionRemoved,
}

/// What bringing up the client asks the caller to do next.
pub enum ClientInitStep {
    /// A client is already up: use it.
    UseExisting,
    /// Tell the old runner, if any, to stop.
    StopOldRunner,
    /// Wait this many milliseconds.
    Pause { millis: u64 },
    /// Create the data directory if it is missing.
    EnsureDataDir,
    /// Open the session file.
    OpenSession,
    /// Remove the session file and its `-wal` and `-shm` companions.
    RemoveSessionFiles,
    /// Build the client on the opened session and start its runner.
    StartClient,
    /// Give up with this error text.
    Fail(String),
}

/// The events that bringing up the client expects in each state.
pub open spec fn client_init_accepts(state: ClientInit, ev: ClientInitEvent) -> bool {
    match state {
        ClientInit::StoppingOldRunner => ev is OldRunnerSignalled,
        ClientInit::Pausing => ev is Paused,
        ClientInit::PreparingDataDir => ev is DataDir,
        ClientInit::OpeningSession { .. } => ev is Session,
        ClientInit::RemovingSession => ev is SessionRemoved,
        ClientInit::Finished => false,
    }
}

/// How many more events bringing up the client can take at most.
pub open spec fn init_events_left(state: ClientInit) -> int {
    match state {
        ClientInit::StoppingOldRunner => 6,
        ClientInit::Pausing => 5,
        ClientInit::PreparingDataDir => 4,
        ClientInit::OpeningSession { retried } => if retried {
            1
        } else {
            3
        },
        ClientInit::RemovingSession => 2,
        ClientInit::Finished => 0,
    }
}

/// Starts bringing up the client: an existing client is reused, else the
/// old runner is stopped first.
pub fn client_init_start(has_client: bool) -> (res: (ClientInit, ClientInitStep))
    ensures
        has_client ==> res.0 == ClientInit::Finished && res.1 is UseExisting,
        !has_client ==> res.0 == ClientInit::StoppingOldRunner && res.1 is StopOldRunner,
{
    if has_client {
        (ClientInit::Finished, ClientInitStep::UseExisting)
    } else {
        (ClientInit::StoppingOldRunner, ClientInitStep::StopOldRunner)
    }
}

/// One step of bringing up the client.
///
/// After an old runner was told to stop there is a pause of 100 ms. A
/// session file that does not open is removed with its companions and
/// opened once more; the client is started only on an opened session.
pub fn client_init_next(state: ClientInit, ev: ClientInitEvent) -> (res: (ClientInit, ClientInitStep))
    requires
        client_init_accepts(state, ev),
    ensures
        0 <= init_events_left(res.0) < init_events_left(state),
        res.1 is StartClient ==> ev matches ClientInitEvent::Session(Ok(())),
        (res.1 is Fail || res.1 is StartClient) <==> res.0 == ClientInit::Finished,
        match (state, ev) {
            (ClientInit::StoppingOldRunner, ClientInitEvent::OldRunnerSignalled(true)) => res.0
                == ClientInit::Pausing && res.1 == (ClientInitStep::Pause { millis: 100 }),
            (ClientInit::StoppingOldRunner, ClientInitEvent::OldRunnerSignalled(false)) => res.0
                == ClientInit::PreparingDataDir && res.1 is EnsureDataDir,
            (ClientInit::Pausing, _) => res.0 == ClientInit::PreparingDataDir && res.1 is EnsureDataDir,
            (ClientInit::PreparingDataDir, ClientInitEvent::DataDir(Ok(()))) => res.0
                == (ClientInit::OpeningSession { retried: false }) && res.1 is OpenSession,
            (ClientInit::PreparingDataDir, ClientInitEvent::DataDir(Err(e))) => res.1 matches ClientInitStep::Fail(
                m,
            ) && m@ == "Failed to create app data dir: "@ + e@,
            (ClientInit::OpeningSession { .. }, ClientInitEvent::Session(Ok(()))) => res.1 is StartClient,
            (ClientInit::OpeningSession { retried: false }, ClientInitEvent::Session(Err(_))) => res.0
                == ClientInit::RemovingSession && res.1 is RemoveSessionFiles,
            (ClientInit::OpeningSession { retried: true }, ClientInitEvent::Session(Err(e))) => res.1 matches ClientInitStep::Fail(
                m,
            ) && m@ == "Failed to open session after recreation: "@ + e@,
            (ClientInit::RemovingSession, _) => res.0 == (ClientInit::OpeningSession { retried: true })
                && res.1 is OpenSession,
            _ => true,
        },
{
    match ev {
        ClientInitEvent::OldRunnerSignalled(signalled) => if signalled {
            (ClientInit::Pausing, ClientInitStep::Pause { millis: 100 })
        } else {
            (ClientInit::PreparingDataDir, ClientInitStep::EnsureDataDir)
        },
        ClientInitEvent::Paused => (ClientInit::PreparingDataDir, ClientInitStep::EnsureDataDir),
        ClientInitEvent::DataDir(r) => match r {
            Ok(()) => (ClientInit::OpeningSession { retried: false }, ClientInitStep::OpenSession),
            Err(e) => {
                let mut m = String::from_str("Failed to create app data dir: ");
                m.append(e.as_str());
                (ClientInit::Finished, ClientInitStep::Fail(m))
            },
        },
        ClientInitEvent::Session(r) => match r {
            Ok(()) => (ClientInit::Finished, ClientInitStep::StartClient),
            Err(e) => {
                let retried = match state {
                    ClientInit::OpeningSession { retried } => retried,
                    _ => true,
                };
                if retried {
                    let mut m = String::from_str("Failed to open session after recreation: ");
                    m.append(e.as_str());
                    (ClientInit::Finished, ClientInitStep::Fail(m))
                } else {
                    (ClientInit::RemovingSession, ClientInitStep::RemoveSessionFiles)
                }
            },
        },
        ClientInitEvent::SessionRemoved => (
            ClientInit::OpeningSession { retried: true },
            ClientInitStep::OpenSession,
        ),
    }
}

} // verus!
