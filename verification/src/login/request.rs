//! The login protocol: what is sent to the verification service, and what
//! its answer means.

use vstd::prelude::*;
use vstd::string::*;
use crate::login::error::{
    LoginError,
    LoginFault,
    LoginResult,
    TransportFailure,
    TransportFault,
    outcome_view,
};
use crate::login::expiry::authoritative_now;
use crate::login::json::{json_parsed, parse_document};
use crate::login::response::{
    clock_reads,
    decode_document,
    decode_response,
    judge_response_with,
    response_outcome,
};

verus! {

/// The body of a verification call.
#[derive(Debug, Clone, PartialEq, Eq)]
pub struct CardVerifyRequest {
    /// The activation key.
    pub key: String,
    /// The hardware fingerprint the key is bound to.
    pub hwid: String,
}

/// A verification call that is ready to be sent: a POST of `body`, as JSON,
/// to `url`.
#[derive(Debug, Clone, PartialEq, Eq)]
pub struct VerifyCall {
    pub url: String,
    pub body: CardVerifyRequest,
}

/// What became of the start-up probe of the service.
#[derive(Debug, Clone, Copy, PartialEq, Eq, Structural)]
pub enum ConnectionVerdict {
    /// The service answered.
    Connected,
    /// The service did not answer, and the program goes on without it.
    Unreachable,
    /// The service did not answer, and the program must end.
    Terminate,
}

/// The address of the liveness probe below a base address.
pub open spec fn probe_url_of(backend_url: Seq<char>) -> Seq<char> {
    backend_url + "/api"@
}

/// The address of the verification call below a base address.
pub open spec fn verify_url_of(backend_url: Seq<char>) -> Seq<char> {
    backend_url + "/api/cards/verify"@
}

/// The address to GET for the liveness probe.
pub fn probe_url(backend_url: &str) -> (url: String)
    ensures
        url@ == probe_url_of(backend_url@),
{
    String::from_str(backend_url).concat("/api")
}

/// The address to POST a verification call to.
pub fn verify_url(backend_url: &str) -> (url: String)
    ensures
        url@ == verify_url_of(backend_url@),
{
    String::from_str(backend_url).concat("/api/cards/verify")
}

/// The verdict on the start-up probe: connected where the service answered;
/// where it did not, the program ends if silent failure is forbidden and
/// goes on unconnected if it is allowed.
pub open spec fn connection_verdict(answered: bool, silent_failure_allowed: bool)
    -> ConnectionVerdict {
    if answered {
        ConnectionVerdict::Connected
    } else if silent_failure_allowed {
        ConnectionVerdict::Unreachable
    } else {
        ConnectionVerdict::Terminate
    }
}

/// Decides what follows from the liveness probe. `answered` says whether the
/// GET produced any response; `silent_failure_allowed` is true in builds for
/// development and false in builds for release.
pub fn request_connection_server(answered: bool, silent_failure_allowed: bool) -> (verdict:
    ConnectionVerdict)
    ensures
        verdict == connection_verdict(answered, silent_failure_allowed),
{
    if answered {
        ConnectionVerdict::Connected
    } else if silent_failure_allowed {
        ConnectionVerdict::Unreachable
    } else {
        ConnectionVerdict::Terminate
    }
}

/// Decides what follows from the liveness probe; see
/// [`request_connection_server`].
pub fn check_server_connection(answered: bool, silent_failure_allowed: bool) -> (verdict:
    ConnectionVerdict)
    ensures
        verdict == connection_verdict(answered, silent_failure_allowed),
{
    request_connection_server(answered, silent_failure_allowed)
}

/// Whether a verification call is sent for a key and a fingerprint: only
/// where neither is empty.
pub open spec fn call_prepared(password: Seq<char>, hwid: Seq<char>) -> bool {
    password.len() > 0 && hwid.len() > 0
}

/// The first step of a login: an empty key is refused before anything is
/// probed or sent.
pub fn check_credential(password: &str) -> (result: Result<(), LoginError>)
    ensures
        password@.len() == 0 <==> result is Err,
        result is Err ==> result->Err_0@ == LoginFault::EmptyCredential,
{
    if password.is_empty() {
        Err(LoginError::EmptyCredential)
    } else {
        Ok(())
    }
}

/// Builds the verification call for a key and a fingerprint. No call comes
/// out for an empty key (`EmptyCredential`) nor, with a key, for an empty
/// fingerprint (`HardwareIdUnavailable`).
pub fn prepare_verify(password: &str, hwid: &str, backend_url: &str) -> (result: Result<
    VerifyCall,
    LoginError,
>)
    ensures
        result is Ok <==> call_prepared(password@, hwid@),
        match result {
            Ok(call) => {
                &&& password@.len() > 0
                &&& hwid@.len() > 0
                &&& call.url@ == verify_url_of(backend_url@)
                &&& call.body.key@ == password@
                &&& call.body.hwid@ == hwid@
            },
            Err(error) => {
                &&& password@.len() == 0 || hwid@.len() == 0
                &&& error@ == if password@.len() == 0 {
                    LoginFault::EmptyCredential
                } else {
                    LoginFault::HardwareIdUnavailable
                }
            },
        },
{
    if password.is_empty() {
        return Err(LoginError::EmptyCredential);
    }
    if hwid.is_empty() {
        return Err(LoginError::HardwareIdUnavailable);
    }
    Ok(
        VerifyCall {
            url: verify_url(backend_url),
            body: CardVerifyRequest {
                key: String::from_str(password),
                hwid: String::from_str(hwid),
            },
        },
    )
}

/// What the transport handed back, as plain values.
pub open spec fn reply_view(reply: Result<String, TransportFailure>) -> Result<
    Seq<char>,
    TransportFault,
> {
    match reply {
        Ok(body) => Ok(body@),
        Err(failure) => Err(failure@),
    }
}

/// The outcome of a login for a response body, when the local clock reads
/// `local_now`: `ResponseMalformed` where the body is no JSON or denotes no
/// response, else what the response means.
pub open spec fn body_outcome(body: Seq<char>, local_now: i64) -> Result<(bool, i64), LoginFault> {
    match json_parsed(body) {
        None => Err(LoginFault::ResponseMalformed),
        Some(document) => match decode_response(document) {
            None => Err(LoginFault::ResponseMalformed),
            Some(response) => response_outcome(response, local_now),
        },
    }
}

/// The outcome of a login, step by step: the key, the fingerprint, the
/// transport, the response.
pub open spec fn login_outcome(
    password: Seq<char>,
    hwid: Seq<char>,
    reply: Result<Seq<char>, TransportFault>,
    local_now: i64,
) -> Result<(bool, i64), LoginFault> {
    if password.len() == 0 {
        Err(LoginFault::EmptyCredential)
    } else if hwid.len() == 0 {
        Err(LoginFault::HardwareIdUnavailable)
    } else {
        match reply {
            Err(failure) => Err(LoginFault::NetworkError(failure)),
            Ok(body) => body_outcome(body, local_now),
        }
    }
}

fn login_request_with(
    password: &str,
    hwid: &str,
    reply: Result<String, TransportFailure>,
    local_clock: Option<i64>,
) -> (result: LoginResult)
    ensures
        exists|local_now: i64|
            clock_reads(local_clock, local_now) && outcome_view(result) == #[trigger] login_outcome(
                password@,
                hwid@,
                reply_view(reply),
                local_now,
            ),
{
    let ghost any_reading: i64 = match local_clock {
        Some(reading) => reading,
        None => 0i64,
    };
    let ghost observed = reply_view(reply);
    if password.is_empty() {
        let result: LoginResult = Err(LoginError::EmptyCredential);
        assert(outcome_view(result) == login_outcome(password@, hwid@, observed, any_reading));
        return result;
    }
    if hwid.is_empty() {
        let result: LoginResult = Err(LoginError::HardwareIdUnavailable);
        assert(outcome_view(result) == login_outcome(password@, hwid@, observed, any_reading));
        return result;
    }
    let body = match reply {
        Err(failure) => {
            let result: LoginResult = Err(LoginError::NetworkError(failure));
            assert(outcome_view(result) == login_outcome(password@, hwid@, observed, any_reading));
            return result;
        },
        Ok(body) => body,
    };
    let document = match parse_document(body.as_str()) {
        Err(_) => {
            let result: LoginResult = Err(LoginError::ResponseMalformed);
            assert(outcome_view(result) == login_outcome(password@, hwid@, observed, any_reading));
            return result;
        },
        Ok(document) => document,
    };
    let response = match decode_document(&document) {
        Err(error) => {
            let result: LoginResult = Err(error);
            assert(outcome_view(result) == login_outcome(password@, hwid@, observed, any_reading));
            return result;
        },
        Ok(response) => response,
    };
    let result = judge_response_with(&response, local_clock);
    proof {
        let reading = choose|local_now: i64|
            clock_reads(local_clock, local_now) && outcome_view(result) == #[trigger] response_outcome(
                response@,
                local_now,
            );
        assert(outcome_view(result) == login_outcome(password@, hwid@, observed, reading));
    }
    result
}

/// Concludes a login from everything that was observed, with the local clock
/// supplied by the caller. `reply` is the body of the service's answer, or
/// the failure of the transport. The steps are taken in order, and the first
/// that fails decides: an empty key, an empty fingerprint, the transport, the
/// shape of the response, the server's refusal, a missing card, a card not in
/// use, a missing or unparseable expiry, an expiry that is not in the future
/// of the authoritative instant. Otherwise the key is granted until its
/// expiry.
pub fn login_request_at(
    password: &str,
    hwid: &str,
    reply: Result<String, TransportFailure>,
    local_now: i64,
) -> (result: LoginResult)
    ensures
        outcome_view(result) == login_outcome(password@, hwid@, reply_view(reply), local_now),
{
    login_request_with(password, hwid, reply, Some(local_now))
}

/// Concludes a login from everything that was observed, reading the local
/// clock where the server sent no time of its own. The result is the outcome
/// at some reading of the local clock; where the outcome does not depend on
/// the local clock, that fixes it.
pub fn login_request(password: &str, hwid: &str, reply: Result<String, TransportFailure>) -> (result:
    LoginResult)
    ensures
        exists|local_now: i64|
            outcome_view(result) == #[trigger] login_outcome(
                password@,
                hwid@,
                reply_view(reply),
                local_now,
            ),
{
    login_request_with(password, hwid, reply, None)
}

/// A login with an empty key fails with `EmptyCredential`, whatever else was
/// observed, and no verification call is built for it.
pub proof fn lemma_empty_credential_is_refused(
    password: Seq<char>,
    hwid: Seq<char>,
    reply: Result<Seq<char>, TransportFault>,
    local_now: i64,
)
    requires
        password.len() == 0,
    ensures
        login_outcome(password, hwid, reply, local_now) == Err::<(bool, i64), LoginFault>(
            LoginFault::EmptyCredential,
        ),
{
}

/// Where no verification call is sent, the login has failed already, with
/// `EmptyCredential` or `HardwareIdUnavailable`, and nothing that the service
/// or the transport could have answered changes that.
pub proof fn lemma_no_call_no_grant(
    password: Seq<char>,
    hwid: Seq<char>,
    reply: Result<Seq<char>, TransportFault>,
    other_reply: Result<Seq<char>, TransportFault>,
    local_now: i64,
    other_local_now: i64,
)
    requires
        !call_prepared(password, hwid),
    ensures
        login_outcome(password, hwid, reply, local_now) is Err,
        login_outcome(password, hwid, reply, local_now) == login_outcome(
            password,
            hwid,
            other_reply,
            other_local_now,
        ),
        login_outcome(password, hwid, reply, local_now) == Err::<(bool, i64), LoginFault>(
            LoginFault::EmptyCredential,
        ) || login_outcome(password, hwid, reply, local_now) == Err::<(bool, i64), LoginFault>(
            LoginFault::HardwareIdUnavailable,
        ),
{
}

/// With a key, a login without a fingerprint fails with
/// `HardwareIdUnavailable`, whatever the service would have answered.
pub proof fn lemma_missing_fingerprint_is_refused(
    password: Seq<char>,
    hwid: Seq<char>,
    reply: Result<Seq<char>, TransportFault>,
    local_now: i64,
)
    requires
        password.len() > 0,
        hwid.len() == 0,
    ensures
        login_outcome(password, hwid, reply, local_now) == Err::<(bool, i64), LoginFault>(
            LoginFault::HardwareIdUnavailable,
        ),
{
}

/// A login is granted only with the grant flag set, and only with a key, a
/// fingerprint, an answer that denotes an accepting response with a card in
/// use, and then until an instant that lies after the authoritative "now"
/// of that response.
pub proof fn lemma_grant_is_live(
    password: Seq<char>,
    hwid: Seq<char>,
    reply: Result<Seq<char>, TransportFault>,
    local_now: i64,
)
    ensures
        login_outcome(password, hwid, reply, local_now) is Ok ==> {
            &&& login_outcome(password, hwid, reply, local_now)->Ok_0.0
            &&& password.len() > 0
            &&& hwid.len() > 0
            &&& reply is Ok
            &&& json_parsed(reply->Ok_0) is Some
            &&& decode_response(json_parsed(reply->Ok_0)->0) is Some
            &&& decode_response(json_parsed(reply->Ok_0)->0)->0.success
            &&& decode_response(json_parsed(reply->Ok_0)->0)->0.card is Some
            &&& decode_response(json_parsed(reply->Ok_0)->0)->0.card->0.status == "used"@
            &&& authoritative_now(
                decode_response(json_parsed(reply->Ok_0)->0)->0.server_time,
                local_now,
            ) < login_outcome(password, hwid, reply, local_now)->Ok_0.1
        },
{
}

} // verus!
