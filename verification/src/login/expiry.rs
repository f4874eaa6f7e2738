//! Deciding whether a grant is still alive at a given instant.

use vstd::prelude::*;
use crate::login::error::{LoginError, LoginFault};

verus! {

/// The instant that counts as "now": the server's clock where the server
/// sent it, the local clock otherwise.
pub open spec fn authoritative_now(server_time: Option<i64>, local_now: i64) -> i64 {
    match server_time {
        Some(instant) => instant,
        None => local_now,
    }
}

/// A grant is alive strictly before its expiry.
pub open spec fn is_live(expires_at: i64, now: i64) -> bool {
    now < expires_at
}

/// What the evaluation of `expires_at` at `now` returns.
pub open spec fn verdict_at(expires_at: i64, now: i64) -> Result<i64, LoginFault> {
    if is_live(expires_at, now) {
        Ok(expires_at)
    } else {
        Err(LoginFault::AlreadyExpired)
    }
}

/// The mathematical content of an evaluation's result.
pub open spec fn verdict_view(result: Result<i64, LoginError>) -> Result<i64, LoginFault> {
    match result {
        Ok(expires_at) => Ok(expires_at),
        Err(error) => Err(error@),
    }
}

/// Picks the instant that counts as "now".
pub fn effective_now(server_time: Option<i64>, local_now: i64) -> (now: i64)
    ensures
        now == authoritative_now(server_time, local_now),
{
    match server_time {
        Some(instant) => instant,
        None => local_now,
    }
}

/// Evaluates an expiry against a given instant: the expiry itself while the
/// instant lies strictly before it, `AlreadyExpired` from then on.
pub fn evaluate(expires_at: i64, now: i64) -> (result: Result<i64, LoginError>)
    ensures
        verdict_view(result) == verdict_at(expires_at, now),
{
    if now < expires_at {
        Ok(expires_at)
    } else {
        Err(LoginError::AlreadyExpired)
    }
}

/// The time that an RFC 3339 text denotes, in seconds since the Unix epoch,
/// as `chrono` reads it; nothing where `chrono` refuses the text.
pub uninterp spec fn rfc3339_timestamp(text: Seq<char>) -> Option<i64>;

/// `chrono::DateTime::parse_from_rfc3339` followed by `DateTime::timestamp`:
/// the Unix time of the instant that the text denotes, nothing where the
/// parser refuses the text. The contract only says that the answer depends
/// on the text alone.
#[verifier::external_body]
pub(crate) fn parse_rfc3339(text: &str) -> (instant: Option<i64>)
    ensures
        instant == rfc3339_timestamp(text@),
{
    match chrono::DateTime::parse_from_rfc3339(text) {
        Ok(moment) => Some(moment.timestamp()),
        Err(_) => None,
    }
}

/// `std::time::SystemTime::now`, converted by `chrono`'s
/// `From<SystemTime> for DateTime<Utc>` and read by `DateTime::timestamp`:
/// the local clock in seconds since the Unix epoch, negative where the clock
/// stands before 1970. Nothing is promised of the value, and two calls may
/// differ. The conversion fails only on an instant outside the years that
/// `chrono` can represent, some 262000 on either side of the epoch.
#[verifier::external_body]
pub(crate) fn unix_now() -> i64 {
    chrono::DateTime::<chrono::Utc>::from(std::time::SystemTime::now()).timestamp()
}

/// The instant at which an expiry is judged, given what is known of the two
/// clocks: `local_clock` is the local reading where the caller supplies one.
/// The local clock is read only where neither the server nor the caller
/// gave an instant.
pub(crate) fn resolve_now(server_time: Option<i64>, local_clock: Option<i64>) -> (now: i64)
    ensures
        server_time is Some ==> now == server_time->0,
        server_time is None && local_clock is Some ==> now == local_clock->0,
{
    match server_time {
        Some(instant) => instant,
        None => match local_clock {
            Some(reading) => reading,
            None => unix_now(),
        },
    }
}

/// What `check_expiration` returns when the local clock reads `local_now`.
pub open spec fn expiration_verdict(
    expiration_timestamp: i64,
    server_time: Option<i64>,
    local_now: i64,
) -> Result<i64, LoginFault> {
    verdict_at(expiration_timestamp, authoritative_now(server_time, local_now))
}

/// Evaluates an expiry against the authoritative instant, with the local
/// clock supplied by the caller.
pub fn check_expiration_at(expiration_timestamp: i64, server_time: Option<i64>, local_now: i64) -> (result:
    Result<i64, LoginError>)
    ensures
        verdict_view(result) == expiration_verdict(expiration_timestamp, server_time, local_now),
{
    evaluate(expiration_timestamp, effective_now(server_time, local_now))
}

/// Evaluates an expiry against the authoritative instant: the server's time
/// where it is given, else the local clock as it reads during the call. With
/// a server time the result is fixed by the arguments; without one it is the
/// verdict at some reading of the local clock.
pub fn check_expiration(expiration_timestamp: i64, server_time: Option<i64>) -> (result: Result<
    i64,
    LoginError,
>)
    ensures
        exists|local_now: i64|
            verdict_view(result) == #[trigger] expiration_verdict(
                expiration_timestamp,
                server_time,
                local_now,
            ),
{
    let now = resolve_now(server_time, None);
    let result = evaluate(expiration_timestamp, now);
    assert(verdict_view(result) == expiration_verdict(expiration_timestamp, server_time, now));
    result
}

/// An expiry is alive at exactly the instants before it: as "now" moves
/// forward the verdict changes once, when "now" reaches the expiry, and
/// never changes back.
pub proof fn lemma_expiry_monotonic(expires_at: i64, earlier: i64, later: i64)
    requires
        earlier <= later,
    ensures
        verdict_at(expires_at, earlier) is Ok <==> earlier < expires_at,
        verdict_at(expires_at, later) is Ok ==> verdict_at(expires_at, earlier) is Ok,
        verdict_at(expires_at, earlier) is Err ==> verdict_at(expires_at, later) is Err,
        verdict_at(expires_at, earlier) is Ok ==> verdict_at(expires_at, earlier) == Ok::<
            i64,
            LoginFault,
        >(expires_at),
        verdict_at(expires_at, earlier) is Err ==> verdict_at(expires_at, earlier) == Err::<
            i64,
            LoginFault,
        >(LoginFault::AlreadyExpired),
{
}

/// The server's clock takes precedence: where it is given, the local clock
/// has no say, so an expiry that lies between a local clock that was set
/// back and the server's time is reported as expired.
pub proof fn lemma_server_time_precedence(
    expires_at: i64,
    server_time: i64,
    local_now: i64,
    other_local_now: i64,
)
    ensures
        expiration_verdict(expires_at, Some(server_time), local_now) == expiration_verdict(
            expires_at,
            Some(server_time),
            other_local_now,
        ),
        expiration_verdict(expires_at, Some(server_time), local_now) == verdict_at(
            expires_at,
            server_time,
        ),
        local_now < expires_at <= server_time ==> expiration_verdict(
            expires_at,
            Some(server_time),
            local_now,
        ) == Err::<i64, LoginFault>(LoginFault::AlreadyExpired),
        local_now < expires_at ==> expiration_verdict(expires_at, None, local_now) == Ok::<
            i64,
            LoginFault,
        >(expires_at),
{
}

} // verus!
