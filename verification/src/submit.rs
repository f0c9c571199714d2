//! The submission of one transaction, as a sequence of decisions between
//! outside calls.
//!
//! A validated request first needs the account's rate limit, then a rate
//! limit check, then the stored transaction, then its place in the priority
//! queue. Each outside call is an action of this machine; its reply is the
//! next event. The machine decides what to ask next and what to answer.

use vstd::prelude::*;
use vstd::string::*;

use crate::account::{account_type_for, account_type_for_id, tier_max_requests, tier_window_seconds};
use crate::queue::{estimated_processing_time, estimated_seconds};
use crate::rate_limit::RateLimitResult;
use crate::validation::{MinMaxI32, NonNullJsonMaxSize, StrLen, ValidationError};

verus! {

/// Most bytes that the compact text of a transaction's data may have.
pub const MAX_TRANSACTION_DATA_BYTES: usize = 1024 * 1024;

/// Fewest characters of an account id.
pub const MIN_ACCOUNT_ID_CHARS: usize = 1;

/// Most characters of an account id.
pub const MAX_ACCOUNT_ID_CHARS: usize = 255;

/// Lowest priority a transaction may ask for.
pub const MIN_PRIORITY: i32 = -1000;

/// Highest priority a transaction may ask for.
pub const MAX_PRIORITY: i32 = 1000;

/// A submitted transaction whose fields passed validation.
pub struct SubmitTransactionRequest {
    pub account_id: StrLen<MIN_ACCOUNT_ID_CHARS, MAX_ACCOUNT_ID_CHARS>,
    pub transaction_data: NonNullJsonMaxSize<MAX_TRANSACTION_DATA_BYTES>,
    pub priority: Option<MinMaxI32>,
}

/// Validates a requested priority against the allowed range.
pub fn validate_priority(priority: i32) -> (r: Result<MinMaxI32, ValidationError>)
    ensures
        priority < MIN_PRIORITY ==> r == Err::<MinMaxI32, ValidationError>(
            ValidationError::TooLow { min_value: MIN_PRIORITY, value: priority },
        ),
        MIN_PRIORITY <= priority && priority > MAX_PRIORITY ==> r == Err::<
            MinMaxI32,
            ValidationError,
        >(ValidationError::TooHigh { max_value: MAX_PRIORITY, value: priority }),
        MIN_PRIORITY <= priority <= MAX_PRIORITY ==> r == Ok::<MinMaxI32, ValidationError>(
            MinMaxI32(priority),
        ),
{
    MinMaxI32::new(priority, MIN_PRIORITY, MAX_PRIORITY)
}

/// The answer to an accepted submission.
pub struct SubmitTransactionResponse {
    pub transaction_id: String,
    pub queue_position: i64,
    pub estimated_processing_time_seconds: i64,
    pub status: String,
}

/// The rate limit figures that accompany every answer once the account's
/// request has been counted.
#[derive(Debug, Clone, Copy, PartialEq, Eq, Structural)]
pub struct RateLimitHeaders {
    /// Requests allowed per window.
    pub limit: i32,
    /// Requests left in the current window.
    pub remaining: u32,
    /// When the window resets, in seconds since the epoch.
    pub reset: u64,
}

/// The kind of a refused submission.
#[derive(Debug, Clone, Copy, PartialEq, Eq, Structural)]
pub enum ErrorStatus {
    /// The account sent more requests than its window allows.
    TooManyRequests,
    /// A store failed or holds a misconfigured limit.
    InternalServerError,
}

/// A refused submission.
pub struct SubmitError {
    pub status: ErrorStatus,
    pub message: String,
}

/// Where a submission stands.
pub enum SubmitState {
    /// Waiting for the account's rate limit record; the submission arrived
    /// at `now_seconds` (seconds since the epoch).
    LoadingRateLimit {
        account_id: String,
        data: NonNullJsonMaxSize<MAX_TRANSACTION_DATA_BYTES>,
        priority: i32,
        now_seconds: u64,
    },
    /// Waiting for the count of the account's requests in the window.
    CheckingRateLimit {
        account_id: String,
        data: NonNullJsonMaxSize<MAX_TRANSACTION_DATA_BYTES>,
        priority: i32,
        limit: i32,
        /// The figures answered if the check itself fails: the whole budget
        /// of a window starting now.
        unchecked: RateLimitHeaders,
    },
    /// Waiting for the stored transaction.
    Inserting { priority: i32, headers: RateLimitHeaders },
    /// Waiting for the transaction's place in the priority queue.
    Enqueueing {
        priority: i32,
        headers: RateLimitHeaders,
        transaction_id: String,
        status: String,
    },
    /// Answered.
    Done,
}

/// A reply from an outside call.
pub enum SubmitEvent {
    /// The account's rate limit record.
    RateLimitLoaded { max_requests: i32, window_seconds: i32 },
    /// The outcome of the rate limit check.
    RateLimitChecked(RateLimitResult),
    /// The stored transaction: its id and status.
    Inserted { id: u128, status: String },
    /// The transaction's 1-based position in the priority queue.
    Enqueued { position: i64 },
    /// The outside call failed.
    Failed,
}

/// What is to be done next.
pub enum SubmitAction {
    /// Find or create the account's rate limit record.
    LoadRateLimit { account_id: String },
    /// Count this request against the account's budget.
    CheckRateLimit { key: String, max_requests: u32, window_seconds: u64 },
    /// Store the transaction with this account, data and priority.
    Insert {
        account_id: String,
        data: NonNullJsonMaxSize<MAX_TRANSACTION_DATA_BYTES>,
        priority: i32,
    },
    /// Add the transaction id to this queue with this priority.
    Enqueue { queue_name: String, member: String, priority: i32 },
    /// Answer the client, with these rate limit figures if there are any.
    Respond {
        result: Result<SubmitTransactionResponse, SubmitError>,
        headers: Option<RateLimitHeaders>,
    },
}

/// The lower-case hexadecimal digit for `d` (meaningful for `d < 16`).
pub open spec fn hex_char(d: nat) -> char {
    if d < 10 {
        crate::text::digit_char(d)
    } else if d == 10 {
        'a'
    } else if d == 11 {
        'b'
    } else if d == 12 {
        'c'
    } else if d == 13 {
        'd'
    } else if d == 14 {
        'e'
    } else {
        'f'
    }
}

/// The `n` lowest hexadecimal digits of `x`, most significant first.
pub open spec fn hex_digits(x: nat, n: nat) -> Seq<char>
    decreases n,
{
    if n == 0 {
        seq![]
    } else {
        hex_digits(x / 16, (n - 1) as nat).push(hex_char(x % 16))
    }
}

/// The hyphenated lower-case text of the UUID with the 128-bit value `id`:
/// 32 hexadecimal digits grouped 8-4-4-4-12.
pub open spec fn uuid_text(id: u128) -> Seq<char> {
    let h = hex_digits(id as nat, 32);
    h.subrange(0, 8) + seq!['-'] + h.subrange(8, 12) + seq!['-'] + h.subrange(12, 16) + seq!['-']
        + h.subrange(16, 20) + seq!['-'] + h.subrange(20, 32)
}

/// `uuid::Uuid::from_u128`, `as_hyphenated` and `to_string`. Claimed: the
/// text is the value's 16 big-endian bytes as 32 lower-case hexadecimal
/// digits, with hyphens after the 8th, 12th, 16th and 20th digit.
#[verifier::external_body]
fn hyphenated_uuid(id: u128) -> (s: String)
    ensures
        s@ == uuid_text(id),
{
    uuid::Uuid::from_u128(id).as_hyphenated().to_string()
}

/// The queue that submitted transactions join.
pub open spec fn submission_queue() -> Seq<char> {
    "transactions"@
}

/// The message of a refusal for an exhausted budget.
pub open spec fn rate_limited_message() -> Seq<char> {
    "rate limit exceeded: too many requests"@
}

/// The message of a refusal for a negative stored budget.
pub open spec fn bad_max_requests_message() -> Seq<char> {
    "Misconfigured max_requests"@
}

/// The message of a refusal for a negative stored window.
pub open spec fn bad_window_message() -> Seq<char> {
    "Misconfigured window_seconds"@
}

/// The message of a refusal for a failed outside call.
pub open spec fn internal_error_message() -> Seq<char> {
    "Internal server error"@
}

/// `a` answers with a refusal of this status and message, with these rate
/// limit figures.
pub open spec fn refuses(
    a: SubmitAction,
    status: ErrorStatus,
    message: Seq<char>,
    headers: Option<RateLimitHeaders>,
) -> bool {
    &&& a matches SubmitAction::Respond { result: Err(e), headers: h }
    &&& e.status == status
    &&& e.message@ == message
    &&& h == headers
}

/// The events that a state waits for: a reply of the kind its last action
/// asked for, or a failure.
pub open spec fn accepts(s: SubmitState, e: SubmitEvent) -> bool {
    match s {
        SubmitState::LoadingRateLimit { .. } => e is RateLimitLoaded || e is Failed,
        SubmitState::CheckingRateLimit { .. } => e is RateLimitChecked || e is Failed,
        SubmitState::Inserting { .. } => e is Inserted || e is Failed,
        SubmitState::Enqueueing { .. } => e is Enqueued || e is Failed,
        SubmitState::Done => false,
    }
}

/// The figures of the tier that `account_id` announces, for a window that
/// starts at `now_seconds`: answered when the account's own record cannot be
/// used.
pub open spec fn tier_headers(account_id: Seq<char>, now_seconds: u64) -> RateLimitHeaders {
    let tier = account_type_for_id(account_id);
    RateLimitHeaders {
        limit: tier_max_requests(tier),
        remaining: tier_max_requests(tier) as u32,
        reset: (now_seconds + tier_window_seconds()) as u64,
    }
}

/// The figures of a stored budget for a window that starts at `now_seconds`,
/// before any request is counted.
pub open spec fn budget_headers(max_requests: i32, window_seconds: i32, now_seconds: u64) -> RateLimitHeaders {
    RateLimitHeaders {
        limit: max_requests,
        remaining: max_requests as u32,
        reset: (now_seconds + window_seconds) as u64,
    }
}

/// The arrival time of a submission leaves room for any window after it.
pub open spec fn clock_in_range(s: SubmitState) -> bool {
    s matches SubmitState::LoadingRateLimit { now_seconds, .. } ==> now_seconds <= u64::MAX / 1000
}

/// How far a state is from the answer: every step strictly lowers it.
pub open spec fn stages_left(s: SubmitState) -> nat {
    match s {
        SubmitState::LoadingRateLimit { .. } => 4,
        SubmitState::CheckingRateLimit { .. } => 3,
        SubmitState::Inserting { .. } => 2,
        SubmitState::Enqueueing { .. } => 1,
        SubmitState::Done => 0,
    }
}

/// One step of a submission: from state `s` and reply `e`, the machine moves
/// to `t` and asks for `a`.
pub open spec fn submit_step(s: SubmitState, e: SubmitEvent, t: SubmitState, a: SubmitAction) -> bool {
    match s {
        SubmitState::LoadingRateLimit { account_id, data, priority, now_seconds } => match e {
            SubmitEvent::RateLimitLoaded { max_requests, window_seconds } => {
                if max_requests < 0 {
                    t is Done && refuses(
                        a,
                        ErrorStatus::InternalServerError,
                        bad_max_requests_message(),
                        Some(tier_headers(account_id@, now_seconds)),
                    )
                } else if window_seconds < 0 {
                    t is Done && refuses(
                        a,
                        ErrorStatus::InternalServerError,
                        bad_window_message(),
                        Some(tier_headers(account_id@, now_seconds)),
                    )
                } else {
                    &&& t == SubmitState::CheckingRateLimit {
                        account_id,
                        data,
                        priority,
                        limit: max_requests,
                        unchecked: budget_headers(max_requests, window_seconds, now_seconds),
                    }
                    &&& a matches SubmitAction::CheckRateLimit { key, max_requests: m, window_seconds: w }
                    &&& key@ == account_id@
                    &&& m == max_requests
                    &&& w == window_seconds
                }
            },
            SubmitEvent::Failed => t is Done && refuses(
                a,
                ErrorStatus::InternalServerError,
                internal_error_message(),
                Some(tier_headers(account_id@, now_seconds)),
            ),
            _ => false,
        },
        SubmitState::CheckingRateLimit { account_id, data, priority, limit, unchecked } => match e {
            SubmitEvent::RateLimitChecked(r) => {
                let headers = RateLimitHeaders {
                    limit,
                    remaining: r.remaining,
                    reset: r.reset_at,
                };
                if !r.allowed {
                    t is Done && refuses(
                        a,
                        ErrorStatus::TooManyRequests,
                        rate_limited_message(),
                        Some(headers),
                    )
                } else {
                    &&& t == SubmitState::Inserting { priority, headers }
                    &&& a matches SubmitAction::Insert { account_id: acc, data: d, priority: p }
                    &&& acc@ == account_id@
                    &&& d == data
                    &&& p == priority
                }
            },
            SubmitEvent::Failed => t is Done && refuses(
                a,
                ErrorStatus::InternalServerError,
                internal_error_message(),
                Some(unchecked),
            ),
            _ => false,
        },
        SubmitState::Inserting { priority, headers } => match e {
            SubmitEvent::Inserted { id, status } => {
                &&& t matches SubmitState::Enqueueing {
                    priority: p,
                    headers: h,
                    transaction_id: tid,
                    status: st,
                }
                &&& p == priority
                &&& h == headers
                &&& tid@ == uuid_text(id)
                &&& st == status
                &&& a matches SubmitAction::Enqueue { queue_name: q, member: m, priority: ap }
                &&& q@ == submission_queue()
                &&& m@ == uuid_text(id)
                &&& ap == priority
            },
            SubmitEvent::Failed => t is Done && refuses(
                a,
                ErrorStatus::InternalServerError,
                internal_error_message(),
                Some(headers),
            ),
            _ => false,
        },
        SubmitState::Enqueueing { priority, headers, transaction_id, status } => match e {
            SubmitEvent::Enqueued { position } => {
                &&& t is Done
                &&& a matches SubmitAction::Respond { result: Ok(resp), headers: h }
                &&& resp.transaction_id == transaction_id
                &&& resp.queue_position == position
                &&& resp.estimated_processing_time_seconds == estimated_seconds(position as int)
                &&& resp.status == status
                &&& h == Some(headers)
            },
            SubmitEvent::Failed => t is Done && refuses(
                a,
                ErrorStatus::InternalServerError,
                internal_error_message(),
                Some(headers),
            ),
            _ => false,
        },
        SubmitState::Done => false,
    }
}

fn refusal(status: ErrorStatus, message: &str, headers: Option<RateLimitHeaders>) -> (a: SubmitAction)
    ensures
        refuses(a, status, message@, headers),
{
    SubmitAction::Respond {
        result: Err(SubmitError { status, message: String::from_str(message) }),
        headers,
    }
}

fn internal_error(headers: Option<RateLimitHeaders>) -> (a: SubmitAction)
    ensures
        refuses(a, ErrorStatus::InternalServerError, internal_error_message(), headers),
{
    refusal(ErrorStatus::InternalServerError, "Internal server error", headers)
}

/// The figures of the tier that `account_id` announces, for a window that
/// starts at `now_seconds`.
fn tier_headers_for(account_id: &str, now_seconds: u64) -> (h: RateLimitHeaders)
    requires
        now_seconds <= u64::MAX / 1000,
    ensures
        h == tier_headers(account_id@, now_seconds),
{
    let tier = account_type_for(account_id);
    let limit = tier.max_requests();
    RateLimitHeaders {
        limit,
        remaining: limit as u32,
        reset: now_seconds + tier.window_seconds() as u64,
    }
}

/// Starts a submission that arrived at `now_ms` (milliseconds since the
/// epoch): the account's rate limit is needed first. A transaction without a
/// priority gets priority 0.
pub fn begin(request: SubmitTransactionRequest, now_ms: u64) -> (r: (SubmitState, SubmitAction))
    ensures
        r.0 matches SubmitState::LoadingRateLimit { account_id, data, priority, now_seconds }
            && account_id == request.account_id.0 && data == request.transaction_data && priority
            == match request.priority {
            Some(p) => p.0,
            None => 0,
        } && now_seconds == now_ms / 1000,
        clock_in_range(r.0),
        r.1 matches SubmitAction::LoadRateLimit { account_id } && account_id@
            == request.account_id.0@,
{
    let priority: i32 = match request.priority {
        Some(p) => p.0,
        None => 0,
    };
    let action = SubmitAction::LoadRateLimit { account_id: request.account_id.0.clone() };
    let state = SubmitState::LoadingRateLimit {
        account_id: request.account_id.0,
        data: request.transaction_data,
        priority,
        now_seconds: now_ms / 1000,
    };
    (state, action)
}

/// Moves a submission on by one reply (see `submit_step`).
pub fn step(s: SubmitState, e: SubmitEvent) -> (r: (SubmitState, SubmitAction))
    requires
        accepts(s, e),
        clock_in_range(s),
        e matches SubmitEvent::Enqueued { position } ==> i64::MIN <= position * 30 <= i64::MAX,
    ensures
        submit_step(s, e, r.0, r.1),
{
    match s {
        SubmitState::LoadingRateLimit { account_id, data, priority, now_seconds } => match e {
            SubmitEvent::RateLimitLoaded { max_requests, window_seconds } => {
                if max_requests < 0 {
                    (
                        SubmitState::Done,
                        refusal(
                            ErrorStatus::InternalServerError,
                            "Misconfigured max_requests",
                            Some(tier_headers_for(account_id.as_str(), now_seconds)),
                        ),
                    )
                } else if window_seconds < 0 {
                    (
                        SubmitState::Done,
                        refusal(
                            ErrorStatus::InternalServerError,
                            "Misconfigured window_seconds",
                            Some(tier_headers_for(account_id.as_str(), now_seconds)),
                        ),
                    )
                } else {
                    let unchecked = RateLimitHeaders {
                        limit: max_requests,
                        remaining: max_requests as u32,
                        reset: now_seconds + window_seconds as u64,
                    };
                    let action = SubmitAction::CheckRateLimit {
                        key: account_id.clone(),
                        max_requests: max_requests as u32,
                        window_seconds: window_seconds as u64,
                    };
                    (
                        SubmitState::CheckingRateLimit {
                            account_id,
                            data,
                            priority,
                            limit: max_requests,
                            unchecked,
                        },
                        action,
                    )
                }
            },
            _ => {
                let headers = tier_headers_for(account_id.as_str(), now_seconds);
                (SubmitState::Done, internal_error(Some(headers)))
            },
        },
        SubmitState::CheckingRateLimit { account_id, data, priority, limit, unchecked } => match e {
            SubmitEvent::RateLimitChecked(r) => {
                let headers = RateLimitHeaders { limit, remaining: r.remaining, reset: r.reset_at };
                if !r.allowed {
                    (
                        SubmitState::Done,
                        refusal(
                            ErrorStatus::TooManyRequests,
                            "rate limit exceeded: too many requests",
                            Some(headers),
                        ),
                    )
                } else {
                    let action = SubmitAction::Insert { account_id, data, priority };
                    (SubmitState::Inserting { priority, headers }, action)
                }
            },
            _ => (SubmitState::Done, internal_error(Some(unchecked))),
        },
        SubmitState::Inserting { priority, headers } => match e {
            SubmitEvent::Inserted { id, status } => {
                let transaction_id = hyphenated_uuid(id);
                let action = SubmitAction::Enqueue {
                    queue_name: String::from_str("transactions"),
                    member: transaction_id.clone(),
                    priority,
                };
                (SubmitState::Enqueueing { priority, headers, transaction_id, status }, action)
            },
            _ => (SubmitState::Done, internal_error(Some(headers))),
        },
        SubmitState::Enqueueing { priority, headers, transaction_id, status } => match e {
            SubmitEvent::Enqueued { position } => {
                let response = SubmitTransactionResponse {
                    transaction_id,
                    queue_position: position,
                    estimated_processing_time_seconds: estimated_processing_time(position),
                    status,
                };
                (
                    SubmitState::Done,
                    SubmitAction::Respond { result: Ok(response), headers: Some(headers) },
                )
            },
            _ => (SubmitState::Done, internal_error(Some(headers))),
        },
        SubmitState::Done => (SubmitState::Done, internal_error(None)),
    }
}


/// A request that the rate limit check refuses is answered `429` with the
/// message `rate limit exceeded: too many requests` and the account's rate limit figures, and
/// the submission ends there: nothing is stored or queued.
pub proof fn lemma_refused_request_answer(
    s: SubmitState,
    r: RateLimitResult,
    t: SubmitState,
    a: SubmitAction,
)
    requires
        s is CheckingRateLimit,
        !r.allowed,
        submit_step(s, SubmitEvent::RateLimitChecked(r), t, a),
    ensures
        t is Done,
        refuses(
            a,
            ErrorStatus::TooManyRequests,
            rate_limited_message(),
            Some(RateLimitHeaders { limit: s->limit, remaining: r.remaining, reset: r.reset_at }),
        ),
{
}

/// A transaction is stored only right after a rate limit check that allowed
/// it, with the account, data and priority of the request.
pub proof fn lemma_insert_only_when_allowed(
    s: SubmitState,
    e: SubmitEvent,
    t: SubmitState,
    a: SubmitAction,
)
    requires
        submit_step(s, e, t, a),
        a is Insert,
    ensures
        s is CheckingRateLimit,
        e matches SubmitEvent::RateLimitChecked(r) && r.allowed,
        a->Insert_account_id@ == s->CheckingRateLimit_account_id@,
        a->Insert_data == s->CheckingRateLimit_data,
        a->Insert_priority == s->CheckingRateLimit_priority,
{
}

/// Every answer carries the three rate limit figures: those of the check
/// once there is one, else the account's stored budget for a window starting
/// at arrival, else the budget of the tier its id announces.
pub proof fn lemma_every_answer_carries_headers(
    s: SubmitState,
    e: SubmitEvent,
    t: SubmitState,
    a: SubmitAction,
)
    requires
        submit_step(s, e, t, a),
        a is Respond,
    ensures
        a->Respond_headers is Some,
        s matches SubmitState::LoadingRateLimit { account_id, now_seconds, .. }
            ==> a->Respond_headers == Some(tier_headers(account_id@, now_seconds)),
        s matches SubmitState::CheckingRateLimit { limit, unchecked, .. } ==> match e {
            SubmitEvent::RateLimitChecked(r) => a->Respond_headers == Some(
                RateLimitHeaders { limit, remaining: r.remaining, reset: r.reset_at },
            ),
            _ => a->Respond_headers == Some(unchecked),
        },
{
}

/// An accepted submission is answered with the id the store gave the
/// transaction, the position the queue reported, the estimate for that
/// position and the stored status; the id is the one that was queued.
pub proof fn lemma_accepted_answer(s: SubmitState, e: SubmitEvent, t: SubmitState, a: SubmitAction)
    requires
        submit_step(s, e, t, a),
        a matches SubmitAction::Respond { result: Ok(_), .. },
    ensures
        s is Enqueueing,
        e is Enqueued,
        a->Respond_result->Ok_0.transaction_id == s->Enqueueing_transaction_id,
        a->Respond_result->Ok_0.queue_position == e->Enqueued_position,
        a->Respond_result->Ok_0.estimated_processing_time_seconds == estimated_seconds(
            e->Enqueued_position as int,
        ),
        a->Respond_result->Ok_0.status == s->Enqueueing_status,
        a->Respond_headers == Some(s->Enqueueing_headers),
{
}

/// Every step moves the submission strictly closer to its answer, so a
/// submission is answered after at most four replies; an answer ends it.
pub proof fn lemma_progress(s: SubmitState, e: SubmitEvent, t: SubmitState, a: SubmitAction)
    requires
        submit_step(s, e, t, a),
    ensures
        stages_left(t) < stages_left(s),
        a is Respond ==> t is Done,
{
}


/// The rate limit check alone decides whether a counted request goes ahead:
/// an allowed check always leads to storing the transaction (even when it
/// leaves no request in the window), and a refusal with `429` comes exactly
/// when the check did not allow the request.
pub proof fn lemma_allowed_iff_stored(
    s: SubmitState,
    r: RateLimitResult,
    t: SubmitState,
    a: SubmitAction,
)
    requires
        s is CheckingRateLimit,
        submit_step(s, SubmitEvent::RateLimitChecked(r), t, a),
    ensures
        r.allowed <==> a is Insert,
        (a matches SubmitAction::Respond { result: Err(err), .. } && err.status
            == ErrorStatus::TooManyRequests) <==> !r.allowed,
        r.allowed ==> t is Inserting,
{
}

/// An accepted submission, followed from its rate limit check to its answer:
/// the stored transaction is queued under the request's own priority, and the
/// answer carries exactly the check's figures (the stored limit, the
/// remaining count and the reset time the check reported).
pub proof fn lemma_accepted_run(
    s0: SubmitState,
    r: RateLimitResult,
    s1: SubmitState,
    a1: SubmitAction,
    id: u128,
    status: String,
    s2: SubmitState,
    a2: SubmitAction,
    position: i64,
    s3: SubmitState,
    a3: SubmitAction,
)
    requires
        s0 is CheckingRateLimit,
        r.allowed,
        submit_step(s0, SubmitEvent::RateLimitChecked(r), s1, a1),
        submit_step(s1, SubmitEvent::Inserted { id, status }, s2, a2),
        submit_step(s2, SubmitEvent::Enqueued { position }, s3, a3),
    ensures
        a1 matches SubmitAction::Insert { priority, .. } && priority
            == s0->CheckingRateLimit_priority,
        a2 matches SubmitAction::Enqueue { priority, member, .. } && priority
            == s0->CheckingRateLimit_priority && member@ == uuid_text(id),
        a3 matches SubmitAction::Respond { result: Ok(resp), headers: Some(h) } && h.limit
            == s0->CheckingRateLimit_limit && h.remaining == r.remaining && h.reset == r.reset_at
            && resp.queue_position == position && resp.transaction_id@ == uuid_text(id)
            && resp.status == status,
{
}

/// A stored transaction is queued under the priority it was stored with.
pub proof fn lemma_queued_with_stored_priority(
    s: SubmitState,
    id: u128,
    status: String,
    t: SubmitState,
    a: SubmitAction,
)
    requires
        s is Inserting,
        submit_step(s, SubmitEvent::Inserted { id, status }, t, a),
    ensures
        a matches SubmitAction::Enqueue { priority, .. } && priority == s->Inserting_priority,
        t matches SubmitState::Enqueueing { priority, headers, .. } && priority
            == s->Inserting_priority && headers == s->Inserting_headers,
{
}

} // verus!
