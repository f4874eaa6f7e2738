//! The record that the verification service answers with: reading it out of
//! a JSON document, and deciding from it whether the key is granted.

use vstd::prelude::*;
use vstd::string::*;
use crate::login::error::{LoginError, LoginFault, LoginResult, StatusFault, outcome_view};
use crate::login::expiry::{
    authoritative_now,
    evaluate,
    parse_rfc3339,
    resolve_now,
    rfc3339_timestamp,
    verdict_at,
};
use crate::login::json::{
    JsonModel,
    as_bool,
    as_integer,
    as_text,
    bool_of,
    field_of,
    integer_of,
    is_null,
    is_object,
    json_model,
    member,
    text_of,
};

verus! {

/// The card of a key, as far as the protocol reads it.
#[derive(Debug, Clone, PartialEq, Eq)]
pub struct CardInfo {
    /// `"used"`, `"unused"`, `"expired"` or anything else the server sends.
    pub status: String,
    /// The end of the key's validity as an RFC 3339 text.
    pub expired_at: Option<String>,
}

/// The mathematical content of a [`CardInfo`].
pub struct CardInfoView {
    pub status: Seq<char>,
    pub expired_at: Option<Seq<char>>,
}

/// The answer to a verification call.
#[derive(Debug, Clone, PartialEq, Eq)]
pub struct VerifyResponse {
    /// Whether the server accepts the key.
    pub success: bool,
    /// The server's reason where it does not.
    pub error: Option<String>,
    /// The card bound to the key.
    pub card: Option<CardInfo>,
    /// The server's clock in seconds since the Unix epoch.
    pub server_time: Option<i64>,
}

/// The mathematical content of a [`VerifyResponse`].
pub struct VerifyResponseView {
    pub success: bool,
    pub error: Option<Seq<char>>,
    pub card: Option<CardInfoView>,
    pub server_time: Option<i64>,
}

/// The content of an optional string.
pub open spec fn optional_text_view(text: Option<String>) -> Option<Seq<char>> {
    match text {
        Some(inner) => Some(inner@),
        None => None,
    }
}

impl View for CardInfo {
    type V = CardInfoView;

    open spec fn view(&self) -> CardInfoView {
        CardInfoView { status: self.status@, expired_at: optional_text_view(self.expired_at) }
    }
}

impl View for VerifyResponse {
    type V = VerifyResponseView;

    open spec fn view(&self) -> VerifyResponseView {
        VerifyResponseView {
            success: self.success,
            error: optional_text_view(self.error),
            card: match self.card {
                Some(card) => Some(card@),
                None => None,
            },
            server_time: self.server_time,
        }
    }
}

/// Whether two strings hold the same characters.
pub(crate) fn same_text(left: &str, right: &str) -> (same: bool)
    ensures
        same == (left@ == right@),
{
    let left_owned = String::from_str(left);
    let right_owned = String::from_str(right);
    left_owned == right_owned
}

// ---------------------------------------------------------------------
// Reading the record out of a document
// ---------------------------------------------------------------------

/// A boolean member that defaults to `false`: the outer `None` says that the
/// member is there and is no boolean.
pub open spec fn flag_field(document: JsonModel, key: Seq<char>) -> Option<bool> {
    match field_of(document, key) {
        None => Some(false),
        Some(value) => bool_of(value),
    }
}

/// An optional string member: absent and `null` both read as no string; the
/// outer `None` says that the member is there and is neither.
pub open spec fn optional_text_field(document: JsonModel, key: Seq<char>) -> Option<
    Option<Seq<char>>,
> {
    match field_of(document, key) {
        None => Some(None),
        Some(value) => if value is Null {
            Some(None)
        } else {
            match text_of(value) {
                Some(text) => Some(Some(text)),
                None => None,
            }
        },
    }
}

/// An optional integer member: absent and `null` both read as no integer;
/// the outer `None` says that the member is there and is neither.
pub open spec fn optional_integer_field(document: JsonModel, key: Seq<char>) -> Option<
    Option<i64>,
> {
    match field_of(document, key) {
        None => Some(None),
        Some(value) => if value is Null {
            Some(None)
        } else {
            match integer_of(value) {
                Some(number) => Some(Some(number)),
                None => None,
            }
        },
    }
}

/// The card that a JSON value denotes: an object with a string `status` and
/// an optional string `expiredAt`. Other members are ignored.
pub open spec fn decode_card(value: JsonModel) -> Option<CardInfoView> {
    if !(value is Object) {
        None
    } else {
        match field_of(value, "status"@) {
            None => None,
            Some(status_value) => match text_of(status_value) {
                None => None,
                Some(status) => match optional_text_field(value, "expiredAt"@) {
                    None => None,
                    Some(expired_at) => Some(CardInfoView { status, expired_at }),
                },
            },
        }
    }
}

/// An optional card member: absent and `null` both read as no card; the
/// outer `None` says that the member is there and denotes no card.
pub open spec fn optional_card_field(document: JsonModel, key: Seq<char>) -> Option<
    Option<CardInfoView>,
> {
    match field_of(document, key) {
        None => Some(None),
        Some(value) => if value is Null {
            Some(None)
        } else {
            match decode_card(value) {
                Some(card) => Some(Some(card)),
                None => None,
            }
        },
    }
}

/// The response that a JSON document denotes: an object with an optional
/// boolean `success` (absent means `false`), an optional string `error`, an
/// optional `card` and an optional integer `serverTime`. Other members are
/// ignored. `None` where the document is no such object.
pub open spec fn decode_response(document: JsonModel) -> Option<VerifyResponseView> {
    if !(document is Object) {
        None
    } else {
        match flag_field(document, "success"@) {
            None => None,
            Some(success) => match optional_text_field(document, "error"@) {
                None => None,
                Some(error) => match optional_card_field(document, "card"@) {
                    None => None,
                    Some(card) => match optional_integer_field(document, "serverTime"@) {
                        None => None,
                        Some(server_time) => Some(
                            VerifyResponseView { success, error, card, server_time },
                        ),
                    },
                },
            },
        }
    }
}

fn read_flag(document: &serde_json::Value, key: &str) -> (flag: Option<bool>)
    ensures
        flag == flag_field(json_model(*document), key@),
{
    match member(document, key) {
        None => Some(false),
        Some(value) => as_bool(value),
    }
}

fn read_optional_text(document: &serde_json::Value, key: &str) -> (text: Option<Option<String>>)
    ensures
        match text {
            Some(inner) => optional_text_field(json_model(*document), key@) == Some(
                optional_text_view(inner),
            ),
            None => optional_text_field(json_model(*document), key@) is None,
        },
{
    match member(document, key) {
        None => Some(None),
        Some(value) => {
            if is_null(value) {
                Some(None)
            } else {
                match as_text(value) {
                    Some(slice) => Some(Some(String::from_str(slice))),
                    None => None,
                }
            }
        },
    }
}

fn read_optional_integer(document: &serde_json::Value, key: &str) -> (number: Option<Option<i64>>)
    ensures
        number == optional_integer_field(json_model(*document), key@),
{
    match member(document, key) {
        None => Some(None),
        Some(value) => {
            if is_null(value) {
                Some(None)
            } else {
                match as_integer(value) {
                    Some(number) => Some(Some(number)),
                    None => None,
                }
            }
        },
    }
}

fn read_card(value: &serde_json::Value) -> (card: Option<CardInfo>)
    ensures
        match card {
            Some(inner) => decode_card(json_model(*value)) == Some(inner@),
            None => decode_card(json_model(*value)) is None,
        },
{
    if !is_object(value) {
        return None;
    }
    let status = match member(value, "status") {
        None => {
            return None;
        },
        Some(status_value) => match as_text(status_value) {
            None => {
                return None;
            },
            Some(slice) => String::from_str(slice),
        },
    };
    match read_optional_text(value, "expiredAt") {
        None => None,
        Some(expired_at) => Some(CardInfo { status, expired_at }),
    }
}

fn read_optional_card(document: &serde_json::Value, key: &str) -> (card: Option<Option<CardInfo>>)
    ensures
        match card {
            Some(Some(inner)) => optional_card_field(json_model(*document), key@) == Some(
                Some(inner@),
            ),
            Some(None) => optional_card_field(json_model(*document), key@) == Some(
                None::<CardInfoView>,
            ),
            None => optional_card_field(json_model(*document), key@) is None,
        },
{
    match member(document, key) {
        None => Some(None),
        Some(value) => {
            if is_null(value) {
                Some(None)
            } else {
                match read_card(value) {
                    Some(card) => Some(Some(card)),
                    None => None,
                }
            }
        },
    }
}

/// Reads the response out of a parsed document. Fails with
/// `ResponseMalformed` exactly where the document denotes no response.
pub fn decode_document(document: &serde_json::Value) -> (result: Result<VerifyResponse, LoginError>)
    ensures
        match result {
            Ok(response) => decode_response(json_model(*document)) == Some(response@),
            Err(error) => error@ == LoginFault::ResponseMalformed && decode_response(
                json_model(*document),
            ) is None,
        },
{
    if !is_object(document) {
        return Err(LoginError::ResponseMalformed);
    }
    let success = match read_flag(document, "success") {
        None => {
            return Err(LoginError::ResponseMalformed);
        },
        Some(flag) => flag,
    };
    let error = match read_optional_text(document, "error") {
        None => {
            return Err(LoginError::ResponseMalformed);
        },
        Some(text) => text,
    };
    let card = match read_optional_card(document, "card") {
        None => {
            return Err(LoginError::ResponseMalformed);
        },
        Some(card) => card,
    };
    let server_time = match read_optional_integer(document, "serverTime") {
        None => {
            return Err(LoginError::ResponseMalformed);
        },
        Some(instant) => instant,
    };
    Ok(VerifyResponse { success, error, card, server_time })
}

// ---------------------------------------------------------------------
// Deciding on the record
// ---------------------------------------------------------------------

/// Why a card with the given status is refused; `None` for `"used"`, the one
/// status that is accepted.
pub open spec fn status_verdict(status: Seq<char>) -> Option<StatusFault> {
    if status == "used"@ {
        None
    } else if status == "unused"@ {
        Some(StatusFault::Unused)
    } else if status == "expired"@ {
        Some(StatusFault::Expired)
    } else {
        Some(StatusFault::Unknown)
    }
}

/// The message of a refusal: the server's own where it sent one.
pub open spec fn rejection_message(error: Option<Seq<char>>) -> Seq<char> {
    match error {
        Some(message) => message,
        None => "验证失败"@,
    }
}

/// The outcome for a card in use whose expiry text was handed to the RFC 3339
/// parser with the result `parsed`, judged at the instant `now`.
pub open spec fn expiry_outcome(parsed: Option<i64>, now: i64) -> Result<(bool, i64), LoginFault> {
    match parsed {
        None => Err(LoginFault::ExpiryUnparseable),
        Some(expires_at) => match verdict_at(expires_at, now) {
            Ok(granted_until) => Ok((true, granted_until)),
            Err(fault) => Err(fault),
        },
    }
}

/// The outcome for a card, judged at the instant `now`.
pub open spec fn card_outcome(card: CardInfoView, now: i64) -> Result<(bool, i64), LoginFault> {
    match status_verdict(card.status) {
        Some(fault) => Err(LoginFault::InvalidStatus(fault)),
        None => match card.expired_at {
            None => Err(LoginFault::MissingExpiry),
            Some(text) => expiry_outcome(rfc3339_timestamp(text), now),
        },
    }
}

/// The outcome of a login for a response, when the local clock reads
/// `local_now`.
pub open spec fn response_outcome(response: VerifyResponseView, local_now: i64) -> Result<
    (bool, i64),
    LoginFault,
> {
    if !response.success {
        Err(LoginFault::Rejected(rejection_message(response.error)))
    } else {
        match response.card {
            None => Err(LoginFault::MissingCardInfo),
            Some(card) => card_outcome(card, authoritative_now(response.server_time, local_now)),
        }
    }
}

/// Accepts the status `"used"` and refuses every other one with the fault
/// that belongs to it.
pub fn check_status(status: &str) -> (result: Result<(), StatusFault>)
    ensures
        match result {
            Ok(_) => status_verdict(status@) is None,
            Err(fault) => status_verdict(status@) == Some(fault),
        },
{
    if same_text(status, "used") {
        Ok(())
    } else if same_text(status, "unused") {
        Err(StatusFault::Unused)
    } else if same_text(status, "expired") {
        Err(StatusFault::Expired)
    } else {
        Err(StatusFault::Unknown)
    }
}

/// Judges a card in use from what the RFC 3339 parser made of its expiry:
/// `ExpiryUnparseable` where it made nothing of it, else the grant until
/// the expiry while `now` lies strictly before it, else `AlreadyExpired`.
pub fn judge_expiry(parsed: Option<i64>, now: i64) -> (result: LoginResult)
    ensures
        outcome_view(result) == expiry_outcome(parsed, now),
{
    match parsed {
        None => Err(LoginError::ExpiryUnparseable),
        Some(expires_at) => match evaluate(expires_at, now) {
            Ok(granted_until) => Ok((true, granted_until)),
            Err(error) => Err(error),
        },
    }
}

/// Whether `local_now` can be the reading of the local clock, given the one
/// that the caller supplied, if any.
pub open spec fn clock_reads(local_clock: Option<i64>, local_now: i64) -> bool {
    local_clock is Some ==> local_now == local_clock->0
}

/// Judges a response. The local clock is `local_clock` where the caller
/// supplies it, and is read otherwise, but only once everything else about
/// the response is in order and the server sent no time of its own.
pub(crate) fn judge_response_with(response: &VerifyResponse, local_clock: Option<i64>) -> (result:
    LoginResult)
    ensures
        exists|local_now: i64|
            clock_reads(local_clock, local_now) && outcome_view(result) == #[trigger] response_outcome(
                response@,
                local_now,
            ),
{
    let ghost any_reading: i64 = match local_clock {
        Some(reading) => reading,
        None => 0i64,
    };
    if !response.success {
        let message = match &response.error {
            Some(message) => message.clone(),
            None => String::from_str("验证失败"),
        };
        let result: LoginResult = Err(LoginError::Rejected(message));
        assert(outcome_view(result) == response_outcome(response@, any_reading));
        return result;
    }
    let card = match &response.card {
        None => {
            let result: LoginResult = Err(LoginError::MissingCardInfo);
            assert(outcome_view(result) == response_outcome(response@, any_reading));
            return result;
        },
        Some(card) => card,
    };
    match check_status(card.status.as_str()) {
        Err(fault) => {
            let result: LoginResult = Err(LoginError::InvalidStatus(fault));
            assert(outcome_view(result) == response_outcome(response@, any_reading));
            return result;
        },
        Ok(_) => {},
    }
    let expiry_text = match &card.expired_at {
        None => {
            let result: LoginResult = Err(LoginError::MissingExpiry);
            assert(outcome_view(result) == response_outcome(response@, any_reading));
            return result;
        },
        Some(text) => text,
    };
    let parsed = parse_rfc3339(expiry_text.as_str());
    if parsed.is_none() {
        let result: LoginResult = Err(LoginError::ExpiryUnparseable);
        assert(outcome_view(result) == response_outcome(response@, any_reading));
        return result;
    }
    let now = resolve_now(response.server_time, local_clock);
    let result = judge_expiry(parsed, now);
    let ghost reading: i64 = if response.server_time is Some || local_clock is Some {
        any_reading
    } else {
        now
    };
    assert(outcome_view(result) == response_outcome(response@, reading));
    result
}

/// Judges a response with the local clock supplied by the caller: refused
/// responses carry the server's message, a granted one needs a card in use
/// with a parseable expiry that lies in the future of the authoritative
/// instant.
pub fn judge_response_at(response: &VerifyResponse, local_now: i64) -> (result: LoginResult)
    ensures
        outcome_view(result) == response_outcome(response@, local_now),
{
    judge_response_with(response, Some(local_now))
}

/// Judges a response, reading the local clock where the server sent no time.
/// The result is the outcome at some reading of the local clock; where the
/// outcome does not depend on the local clock, that fixes it.
pub fn judge_response(response: &VerifyResponse) -> (result: LoginResult)
    ensures
        exists|local_now: i64|
            outcome_view(result) == #[trigger] response_outcome(response@, local_now),
{
    judge_response_with(response, None)
}

/// A card in use is granted until its expiry whenever that expiry parses and
/// lies in the future of the local clock, and the server either sent no time
/// or one that is not ahead of the local clock.
pub proof fn lemma_used_card_is_granted(
    response: VerifyResponseView,
    expiry_text: Seq<char>,
    expires_at: i64,
    local_now: i64,
)
    requires
        response.success,
        response.card is Some,
        response.card->0.status == "used"@,
        response.card->0.expired_at == Some(expiry_text),
        local_now < expires_at,
        response.server_time is None || response.server_time->0 <= local_now,
    ensures
        rfc3339_timestamp(expiry_text) == Some(expires_at) ==> response_outcome(response, local_now)
            == Ok::<(bool, i64), LoginFault>((true, expires_at)),
{
}

/// A card that is unused or expired is refused with the fault of its own
/// status, whatever its expiry, the server's time and the local clock are;
/// the two faults differ from each other.
pub proof fn lemma_idle_card_is_refused(response: VerifyResponseView, local_now: i64)
    requires
        response.success,
        response.card is Some,
    ensures
        response.card->0.status == "unused"@ ==> response_outcome(response, local_now) == Err::<
            (bool, i64),
            LoginFault,
        >(LoginFault::InvalidStatus(StatusFault::Unused)),
        response.card->0.status == "expired"@ ==> response_outcome(response, local_now) == Err::<
            (bool, i64),
            LoginFault,
        >(LoginFault::InvalidStatus(StatusFault::Expired)),
        LoginFault::InvalidStatus(StatusFault::Unused) != LoginFault::InvalidStatus(
            StatusFault::Expired,
        ),
{
    reveal_strlit("used");
    reveal_strlit("unused");
    reveal_strlit("expired");
    assert("used"@.len() == 4);
    assert("unused"@.len() == 6);
    assert("expired"@.len() == 7);
}

/// Only the status `"used"` is accepted.
pub proof fn lemma_only_used_is_accepted(status: Seq<char>)
    ensures
        status_verdict(status) is None <==> status == "used"@,
{
}

} // verus!
