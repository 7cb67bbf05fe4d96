//! Decisions around Spotify web requests: when fetching a playlist is
//! retried, how long to wait, and which HTTP statuses count as success.
use crate::decimal::{decimal_text, law_parse_reads_decimal_text, parse_u64, parse_unsigned};
use vstd::prelude::*;

verus! {

/// The status with which Spotify answers a client that sends too many
/// requests.
pub const TOO_MANY_REQUESTS: u16 = 429;

/// The seconds to wait when a rate-limited answer names no delay.
pub const DEFAULT_RETRY_SECONDS: u64 = 20;

/// How one attempt to fetch the items of a playlist ended.
#[derive(Debug)]
pub enum FetchOutcome {
    /// All items came back.
    Items,
    /// Spotify answered with an error status, and perhaps a `Retry-After`
    /// header.
    StatusError { code: u16, retry_after: Option<String> },
    /// The request failed otherwise.
    OtherError,
}

/// What to do after an attempt to fetch a playlist.
#[derive(PartialEq, Eq, Structural, Debug, Clone, Copy)]
pub enum FetchStep {
    /// Hand the items back.
    ReturnItems,
    /// Wait this many seconds, then try again.
    Wait(u64),
    /// Give up with an error.
    ReturnError,
}

/// The attempt was rate limited and named a delay that is not a number of
/// seconds (the one case in which fetching cannot go on).
pub open spec fn has_bad_retry_after(outcome: FetchOutcome) -> bool {
    match outcome {
        FetchOutcome::StatusError { code, retry_after: Some(h) } => code == TOO_MANY_REQUESTS
            && parse_unsigned(h@, u64::MAX as int) is None,
        _ => false,
    }
}

/// The step that follows an attempt: items are returned, a rate-limited
/// attempt is retried after the delay it names (or the default delay), and
/// any other failure is returned as an error.
pub open spec fn fetch_step(outcome: FetchOutcome) -> FetchStep {
    match outcome {
        FetchOutcome::Items => FetchStep::ReturnItems,
        FetchOutcome::StatusError { code, retry_after } => if code == TOO_MANY_REQUESTS {
            match retry_after {
                Some(h) => FetchStep::Wait(parse_unsigned(h@, u64::MAX as int)->0 as u64),
                None => FetchStep::Wait(DEFAULT_RETRY_SECONDS),
            }
        } else {
            FetchStep::ReturnError
        },
        FetchOutcome::OtherError => FetchStep::ReturnError,
    }
}

/// Decides what follows an attempt to fetch the items of a playlist.
pub fn next_fetch_step(outcome: &FetchOutcome) -> (r: FetchStep)
    requires
        !has_bad_retry_after(*outcome),
    ensures
        r == fetch_step(*outcome),
{
    match outcome {
        FetchOutcome::Items => FetchStep::ReturnItems,
        FetchOutcome::StatusError { code, retry_after } => {
            if *code == TOO_MANY_REQUESTS {
                match retry_after {
                    Some(h) => match parse_u64(h.as_str()) {
                        Some(secs) => FetchStep::Wait(secs),
                        None => FetchStep::ReturnError,
                    },
                    None => FetchStep::Wait(DEFAULT_RETRY_SECONDS),
                }
            } else {
                FetchStep::ReturnError
            }
        },
        FetchOutcome::OtherError => FetchStep::ReturnError,
    }
}

/// A rate-limited attempt whose `Retry-After` header reads as `n` seconds
/// waits exactly `n` seconds, whatever `n` is; in particular, a header that
/// holds the decimal text of `n` waits `n` seconds. Only a rate-limited
/// attempt without the header waits the default 20 seconds; any other error
/// status gives up, and a successful attempt returns its items.
pub proof fn law_wait_follows_retry_after(outcome: FetchOutcome, n: u64)
    ensures
        (outcome matches FetchOutcome::StatusError { code, retry_after: Some(h) } ==> (code
            == TOO_MANY_REQUESTS && parse_unsigned(h@, u64::MAX as int) == Some(n as int)
            ==> fetch_step(outcome) == FetchStep::Wait(n))),
        (outcome matches FetchOutcome::StatusError { code, retry_after: Some(h) } ==> (code
            == TOO_MANY_REQUESTS && h@ == decimal_text(n as nat) ==> fetch_step(outcome)
            == FetchStep::Wait(n))),
        (outcome matches FetchOutcome::StatusError { code, retry_after: None } ==> (code
            == TOO_MANY_REQUESTS ==> fetch_step(outcome) == FetchStep::Wait(20))),
        (outcome matches FetchOutcome::StatusError { code, retry_after: _ } ==> (code
            != TOO_MANY_REQUESTS ==> fetch_step(outcome) == FetchStep::ReturnError)),
        (outcome is Items ==> fetch_step(outcome) == FetchStep::ReturnItems),
        (outcome is OtherError ==> fetch_step(outcome) == FetchStep::ReturnError),
{
    law_parse_reads_decimal_text(n as nat, u64::MAX as int);
}

/// An HTTP status counts as success when it is in the 2xx range.
pub fn is_success_status(code: u16) -> (r: bool)
    ensures
        r == (200 <= code && code < 300),
{
    200 <= code && code < 300
}

} // verus!
