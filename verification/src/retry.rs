//! The retry-parse orchestrator: one bounded loop around a provider call and
//! a parser, sharing a single retry budget between call failures and parse
//! failures.
//!
//! The loop's behaviour is stated against [`retry_model`], a mathematical
//! replay of the loop over the sequence of attempt outcomes; the function
//! returns that sequence as a ghost witness, so a caller sees exactly which
//! run of events produced its result.

use vstd::prelude::*;
use crate::client::{LLMClient, LLMRequest};
use crate::error::DoumError;

verus! {

/// What one attempt of the loop produced.
pub enum RetryEvent<T> {
    /// The provider call failed.
    CallFailed(DoumError),
    /// The call returned text, but the parser rejected it.
    ParseFailed(DoumError),
    /// The call returned text and the parser accepted it.
    Parsed(T),
}

/// The error an unsuccessful attempt carries.
pub open spec fn event_error<T>(ev: RetryEvent<T>) -> DoumError
    recommends
        !(ev is Parsed),
{
    match ev {
        RetryEvent::CallFailed(e) => e,
        RetryEvent::ParseFailed(e) => e,
        RetryEvent::Parsed(_) => arbitrary(),
    }
}

/// The result of replaying the retry loop over a sequence of attempt
/// outcomes: the first parsed value wins; otherwise the last error is
/// surfaced verbatim.
pub open spec fn retry_model<T>(events: Seq<RetryEvent<T>>) -> Result<T, DoumError>
    recommends
        events.len() >= 1,
    decreases events.len(),
{
    if events.len() == 0 {
        Err(arbitrary())
    } else {
        match events[0] {
            RetryEvent::Parsed(t) => Ok(t),
            RetryEvent::CallFailed(e) => {
                if events.len() == 1 {
                    Err(e)
                } else {
                    retry_model(events.drop_first())
                }
            },
            RetryEvent::ParseFailed(e) => {
                if events.len() == 1 {
                    Err(e)
                } else {
                    retry_model(events.drop_first())
                }
            },
        }
    }
}

/// Law: a run whose attempts before the last all fail and whose last
/// attempt parses returns the parsed value.
pub proof fn lemma_retry_eventual_success<T>(events: Seq<RetryEvent<T>>, t: T)
    requires
        events.len() >= 1,
        forall|i: int| 0 <= i < events.len() - 1 ==> !((#[trigger] events[i]) is Parsed),
        events.last() == RetryEvent::Parsed(t),
    ensures
        retry_model(events) == Ok::<T, DoumError>(t),
    decreases events.len(),
{
    if events.len() == 1 {
    } else {
        assert(!(events[0] is Parsed));
        let rest = events.drop_first();
        assert(rest.last() == events.last());
        assert(forall|i: int| 0 <= i < rest.len() - 1 ==> !((#[trigger] rest[i]) is Parsed));
        lemma_retry_eventual_success(rest, t);
    }
}

/// Law: a run whose every attempt fails returns the final failure verbatim.
pub proof fn lemma_retry_exhaustion<T>(events: Seq<RetryEvent<T>>)
    requires
        events.len() >= 1,
        forall|i: int| 0 <= i < events.len() ==> !((#[trigger] events[i]) is Parsed),
    ensures
        retry_model(events) == Err::<T, DoumError>(event_error(events.last())),
    decreases events.len(),
{
    if events.len() == 1 {
    } else {
        let rest = events.drop_first();
        assert(rest.last() == events.last());
        lemma_retry_exhaustion(rest);
    }
}

/// Calls the provider and feeds the reply to `parser`, retrying on either
/// kind of failure until one attempt parses or the shared budget of
/// `max_retries` attempts is spent; the last error is then surfaced
/// verbatim.  The ghost result is the sequence of attempt outcomes the run
/// produced: each parsed value or parse failure is a possible result of
/// `parser` on some reply, only the last attempt can be the parsed one, and
/// the returned result is exactly the replay of those outcomes.
pub fn retry_with_parse<T, C: LLMClient, P: Fn(String) -> Result<T, DoumError>>(
    client: &C,
    request: &LLMRequest,
    parser: P,
    max_retries: u32,
) -> (r: (Result<T, DoumError>, Ghost<Seq<RetryEvent<T>>>))
    requires
        max_retries >= 1,
        forall|s: String| #[trigger] parser.requires((s,)),
    ensures
        ({
            let events = r.1@;
            &&& 1 <= events.len() <= max_retries
            &&& forall|i: int| 0 <= i < events.len() - 1 ==> !((#[trigger] events[i]) is Parsed)
            &&& (r.0 is Err ==> events.len() == max_retries && !(events.last() is Parsed))
            &&& r.0 == retry_model(events)
        }),
        r.0 matches Ok(t) ==> exists|resp: String|
            #[trigger] call_ensures(parser, (resp,), Ok::<T, DoumError>(t)),
{
    let ghost mut events: Seq<RetryEvent<T>> = Seq::empty();
    let mut last_error: Option<DoumError> = None;
    let mut attempt: u32 = 1;
    loop
        invariant
            max_retries >= 1,
            1 <= attempt <= max_retries,
            events.len() == attempt - 1,
            forall|i: int| 0 <= i < events.len() ==> !((#[trigger] events[i]) is Parsed),
            last_error matches Some(e) ==> events.len() >= 1 && event_error(events.last()) == e,
            events.len() >= 1 ==> last_error is Some,
            forall|s: String| #[trigger] parser.requires((s,)),
        decreases max_retries - attempt,
    {
        match client.generate(request) {
            Ok(response) => {
                let ghost resp_spec = response;
                match parser(response) {
                    Ok(parsed) => {
                        proof {
                            events = events.push(RetryEvent::Parsed(parsed));
                            assert(events.last() == RetryEvent::<T>::Parsed(parsed));
                            lemma_retry_eventual_success(events, parsed);
                            assert(call_ensures(
                                parser,
                                (resp_spec,),
                                Ok::<T, DoumError>(parsed),
                            ));
                            assert(1 <= events.len() <= max_retries);
                            assert(forall|i: int|
                                0 <= i < events.len() - 1 ==> !((#[trigger] events[i]) is Parsed));
                            assert(Ok::<T, DoumError>(parsed) == retry_model(events));
                            assert(exists|resp: String|
                                #[trigger] call_ensures(
                                    parser,
                                    (resp,),
                                    Ok::<T, DoumError>(parsed),
                                ));
                        }
                        return (Ok(parsed), Ghost(events));
                    },
                    Err(e) => {
                        proof {
                            events = events.push(RetryEvent::ParseFailed(e));
                        }
                        last_error = Some(e);
                    },
                }
            },
            Err(e) => {
                proof {
                    events = events.push(RetryEvent::CallFailed(e));
                }
                last_error = Some(e);
            },
        }
        if attempt == max_retries {
            match last_error {
                Some(e) => {
                    proof {
                        lemma_retry_exhaustion::<T>(events);
                    }
                    return (Err(e), Ghost(events));
                },
                None => {
                    proof {
                        assert(false);
                    }
                },
            }
        } else {
            attempt = attempt + 1;
        }
    }
}

} // verus!
