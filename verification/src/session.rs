//! The session store's payload: whether a user is logged in, what is known
//! of them, and the handle through which the running monitor is cancelled.
//!
//! The store itself is this state behind a lock. Every operation here is one
//! critical section: the caller takes the lock, calls the operation, and
//! releases the lock.

use vstd::prelude::*;
use vstd::string::*;
use crate::login::error::LoginResult;
use crate::login::expiry::unix_now;

verus! {

/// The state of a session. `U` is the record kept about the user, `H` the
/// handle that cancels the monitor; both are opaque to the store.
pub struct SessionState<U, H> {
    is_logged_in: bool,
    user_info: Option<U>,
    cancellation_handle: Option<H>,
}

/// The mathematical content of a [`SessionState`].
pub struct SessionView<U, H> {
    pub is_logged_in: bool,
    pub user_info: Option<U>,
    pub cancellation_handle: Option<H>,
}

/// What a status query sees of the session.
pub struct SessionSnapshot<'a, U> {
    pub is_logged_in: bool,
    pub user_info: Option<&'a U>,
}

impl<U, H> View for SessionState<U, H> {
    type V = SessionView<U, H>;

    closed spec fn view(&self) -> SessionView<U, H> {
        SessionView {
            is_logged_in: self.is_logged_in,
            user_info: self.user_info,
            cancellation_handle: self.cancellation_handle,
        }
    }
}

impl<U, H> SessionView<U, H> {
    /// The session of a process that has just started.
    pub open spec fn empty() -> Self {
        SessionView { is_logged_in: false, user_info: None, cancellation_handle: None }
    }

    /// The session after a successful authentication.
    pub open spec fn authenticated(self, user_info: U) -> Self {
        SessionView { is_logged_in: true, user_info: Some(user_info), ..self }
    }

    /// The session after the shell has set its status.
    pub open spec fn with_status(self, is_logged_in: bool, user_info: Option<U>) -> Self {
        SessionView { is_logged_in, user_info, ..self }
    }

    /// The session after a handle was attached, whatever was attached before.
    pub open spec fn attached(self, handle: H) -> Self {
        SessionView { cancellation_handle: Some(handle), ..self }
    }

    /// Whether a monitor is attached.
    pub open spec fn monitoring(self) -> bool {
        self.cancellation_handle is Some
    }

    /// Whether a request to start a monitor starts one: only where none is
    /// attached.
    pub open spec fn monitor_starts(self) -> bool {
        !self.monitoring()
    }

    /// The session after a request to start a monitor with a fresh handle.
    pub open spec fn monitor_requested(self, handle: H) -> Self {
        if self.monitor_starts() {
            self.attached(handle)
        } else {
            self
        }
    }

    /// The session after a logout.
    pub open spec fn logged_out(self) -> Self {
        Self::empty()
    }

    /// The number of monitors that the store accounts for.
    pub open spec fn monitors(self) -> nat {
        if self.monitoring() {
            1
        } else {
            0
        }
    }
}

/// Whether a login's outcome grants the key.
pub open spec fn grants(outcome: LoginResult) -> bool {
    outcome is Ok && outcome->Ok_0.0
}

/// Whether a login's outcome grants the key. Only then is the session marked
/// as authenticated and a monitor started; only then does a running monitor
/// go on.
pub fn login_granted(outcome: &LoginResult) -> (granted: bool)
    ensures
        granted == grants(*outcome),
{
    match outcome {
        Ok(grant) => grant.0,
        Err(_) => false,
    }
}

/// What is recorded about a user at the moment of a successful login.
#[derive(Debug, Clone, PartialEq, Eq)]
pub struct LoginRecord {
    /// The activation key that was granted.
    pub password: String,
    /// The end of the grant in seconds since the Unix epoch.
    pub expiration_timestamp: i64,
    /// The local time of the login in seconds since the Unix epoch.
    pub login_time: i64,
}

/// The record for a login with the given outcome, made at `login_time`: one
/// exactly where the outcome grants the key, holding the key and the end of
/// the grant.
pub fn login_record_at(password: &str, outcome: &LoginResult, login_time: i64) -> (record: Option<
    LoginRecord,
>)
    ensures
        record is Some <==> grants(*outcome),
        record is Some ==> {
            &&& record->0.password@ == password@
            &&& record->0.expiration_timestamp == outcome->Ok_0.1
            &&& record->0.login_time == login_time
        },
{
    if login_granted(outcome) {
        match outcome {
            Ok(grant) => Some(
                LoginRecord {
                    password: String::from_str(password),
                    expiration_timestamp: grant.1,
                    login_time,
                },
            ),
            Err(_) => None,
        }
    } else {
        None
    }
}

/// The record for a login with the given outcome, stamped with the local
/// clock as it reads during the call: one exactly where the outcome grants
/// the key, holding the key and the end of the grant.
pub fn login_record(password: &str, outcome: &LoginResult) -> (record: Option<LoginRecord>)
    ensures
        record is Some <==> grants(*outcome),
        record is Some ==> {
            &&& record->0.password@ == password@
            &&& record->0.expiration_timestamp == outcome->Ok_0.1
        },
{
    if login_granted(outcome) {
        login_record_at(password, outcome, unix_now())
    } else {
        None
    }
}

impl<U, H> SessionState<U, H> {
    /// The session of a process that has just started: nobody is logged in
    /// and no monitor is attached.
    pub fn new() -> (state: Self)
        ensures
            state@ == SessionView::<U, H>::empty(),
    {
        SessionState { is_logged_in: false, user_info: None, cancellation_handle: None }
    }

    /// Whether a user is logged in.
    pub fn is_logged_in(&self) -> (answer: bool)
        ensures
            answer == self@.is_logged_in,
    {
        self.is_logged_in
    }

    /// What is known of the user.
    pub fn user_info(&self) -> (info: Option<&U>)
        ensures
            info is Some <==> self@.user_info is Some,
            info is Some ==> *info->0 == self@.user_info->0,
    {
        self.user_info.as_ref()
    }

    /// The handle of the monitor that is attached, if any.
    pub fn cancellation_handle(&self) -> (handle: Option<&H>)
        ensures
            handle is Some <==> self@.monitoring(),
            handle is Some ==> *handle->0 == self@.cancellation_handle->0,
    {
        self.cancellation_handle.as_ref()
    }

    /// Whether a monitor is attached.
    pub fn is_monitoring(&self) -> (answer: bool)
        ensures
            answer == self@.monitoring(),
    {
        self.cancellation_handle.is_some()
    }

    /// A consistent look at the session for a status query. The session is
    /// left as it is.
    pub fn snapshot(&self) -> (seen: SessionSnapshot<'_, U>)
        ensures
            seen.is_logged_in == self@.is_logged_in,
            seen.user_info is Some <==> self@.user_info is Some,
            seen.user_info is Some ==> *seen.user_info->0 == self@.user_info->0,
    {
        SessionSnapshot { is_logged_in: self.is_logged_in, user_info: self.user_info.as_ref() }
    }

    /// Records a successful authentication. The monitor is not touched: to
    /// start one is the caller's next step, outside the lock.
    pub fn set_authenticated(&mut self, user_info: U)
        ensures
            final(self)@ == old(self)@.authenticated(user_info),
    {
        self.is_logged_in = true;
        self.user_info = Some(user_info);
    }

    /// Sets the login flag and the user's record as the shell asks for. The
    /// monitor is not touched.
    pub fn set_login_status(&mut self, is_logged_in: bool, user_info: Option<U>)
        ensures
            final(self)@ == old(self)@.with_status(is_logged_in, user_info),
    {
        self.is_logged_in = is_logged_in;
        self.user_info = user_info;
    }

    /// Attaches the cancellation handle of a monitor that is about to be
    /// spawned, and hands back the handle that was attached before, if any:
    /// the monitor behind that one must be stopped, which dropping the
    /// handle does.
    pub fn attach_cancellation_handle(&mut self, handle: H) -> (replaced: Option<H>)
        ensures
            final(self)@ == old(self)@.attached(handle),
            replaced == old(self)@.cancellation_handle,
    {
        let replaced = self.cancellation_handle.take();
        self.cancellation_handle = Some(handle);
        replaced
    }

    /// Logs out: clears the login flag, the user's record and the handle in
    /// one step, and hands back the handle that was attached.
    pub fn logout(&mut self) -> (signal: Option<H>)
        ensures
            final(self)@ == old(self)@.logged_out(),
            signal == old(self)@.cancellation_handle,
    {
        let signal = self.cancellation_handle.take();
        self.is_logged_in = false;
        self.user_info = None;
        signal
    }
}

/// After an authentication and a logout nobody is logged in, nothing is known
/// of a user and no monitor is attached, whatever the session was before and
/// however often it was looked at in between: a look leaves it as it is.
pub proof fn lemma_logout_clears_session<U, H>(before: SessionView<U, H>, user_info: U)
    ensures
        !before.authenticated(user_info).logged_out().is_logged_in,
        before.authenticated(user_info).logged_out().user_info is None,
        before.authenticated(user_info).logged_out().cancellation_handle is None,
        before.authenticated(user_info).is_logged_in,
        before.authenticated(user_info).user_info == Some(user_info),
        before.logged_out() == SessionView::<U, H>::empty(),
{
}

/// Asking twice for a monitor starts at most one: the second request never
/// starts one and changes nothing. Where a monitor is attached beforehand,
/// neither request starts one and the session stays as it was. Either way
/// the store accounts for exactly one monitor afterwards.
pub proof fn lemma_monitor_start_idempotent<U, H>(before: SessionView<U, H>, first: H, second: H)
    ensures
        !before.monitor_requested(first).monitor_starts(),
        before.monitor_requested(first).monitor_requested(second) == before.monitor_requested(
            first,
        ),
        before.monitoring() ==> !before.monitor_starts() && before.monitor_requested(first)
            == before,
        before.monitor_requested(first).monitor_requested(second).monitors() == 1,
        before.monitor_requested(first).monitors() == 1,
{
}

/// A logout detaches the monitor, so that a later request starts a new one.
pub proof fn lemma_logout_allows_restart<U, H>(before: SessionView<U, H>, handle: H)
    ensures
        before.logged_out().monitor_starts(),
        before.logged_out().monitor_requested(handle).cancellation_handle == Some(handle),
        before.logged_out().monitors() == 0,
{
}

} // verus!
