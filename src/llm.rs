use vstd::prelude::*;
use crate::memory::AgentMemory;
use crate::text::{contains_text, decimal, decimal_string, joined, occurs_in};
use crate::tools::ToolSchema;
use crate::types::{LlmResponse, LlmStreamChunk};

verus! {

/// A language model behind a call: given the session and the tools, it
/// answers with the next move, or fails with a text.
pub trait LlmCaller {
    fn call(&self, memory: &AgentMemory, tools: &Vec<&ToolSchema>, model: &str) -> Result<LlmResponse, String>;

    /// The same request, streamed: the chunks received and the error that cut
    /// the stream, if any. A caller that cannot stream returns no chunks.
    fn call_stream(&self, memory: &AgentMemory, tools: &Vec<&ToolSchema>, model: &str) -> StreamReply {
        StreamReply { chunks: Vec::new(), error: None }
    }
}

/// What a streamed call delivered.
pub struct StreamReply {
    pub chunks: Vec<LlmStreamChunk>,
    pub error: Option<String>,
}

/// The response of the last `Done` chunk, if any.
pub open spec fn last_done(chunks: Seq<LlmStreamChunk>) -> Option<LlmResponse>
    decreases chunks.len(),
{
    if chunks.len() == 0 {
        None
    } else {
        match chunks.last() {
            LlmStreamChunk::Done(resp) => Some(resp),
            _ => last_done(chunks.drop_last()),
        }
    }
}

/// The response a stream gave: its error if it was cut, else the last `Done`
/// chunk's response, else the error that it ended without one.
pub fn stream_result(reply: StreamReply) -> (r: Result<LlmResponse, String>)
    ensures
        reply.error is Some ==> r == Err::<LlmResponse, String>(reply.error->0),
        reply.error is None && last_done(reply.chunks@) is Some ==> r == Ok::<LlmResponse, String>(
            last_done(reply.chunks@)->0,
        ),
        reply.error is None && last_done(reply.chunks@) is None ==> r is Err && r->Err_0@
            == "LLM stream ended without Done chunk"@,
{
    let StreamReply { mut chunks, error } = reply;
    if let Some(e) = error {
        return Err(e);
    }
    let ghost all = chunks@;
    while chunks.len() > 0
        invariant
            chunks@.len() <= all.len(),
            chunks@ == all.take(chunks@.len() as int),
            last_done(all) == last_done(chunks@),
            all == reply.chunks@,
            reply.error is None,
        decreases chunks@.len(),
    {
        let ghost before = chunks@;
        let c = chunks.pop().unwrap();
        proof {
            assert(chunks@ =~= before.drop_last());
            assert(chunks@ =~= all.take(chunks@.len() as int));
        }
        proof {
            assert(c == before.last());
        }
        if let LlmStreamChunk::Done(resp) = c {
            return Ok(resp);
        }
    }
    Err(String::from_str("LLM stream ended without Done chunk"))
}

/// Waits between two attempts.
pub trait Pause {
    fn pause(&self, seconds: u64);
}

/// What `str::to_lowercase` makes of a text.
pub uninterp spec fn lowercase_of(s: Seq<char>) -> Seq<char>;

/// Relies on `str::to_lowercase`: the lowercase form, which depends on the
/// text alone.
#[verifier::external_body]
fn lowercase(s: &str) -> (r: String)
    ensures
        r@ == lowercase_of(s@),
{
    s.to_lowercase()
}

/// A lowercase error text that marks a failed authentication.
pub open spec fn auth_text(lower: Seq<char>) -> bool {
    ||| occurs_in("401"@, lower)
    ||| occurs_in("403"@, lower)
    ||| occurs_in("authentication"@, lower)
    ||| occurs_in("unauthorized"@, lower)
    ||| occurs_in("forbidden"@, lower)
    ||| occurs_in("invalid api key"@, lower)
}

/// A lowercase error text that marks a rate limit.
pub open spec fn rate_limit_text(lower: Seq<char>) -> bool {
    ||| occurs_in("429"@, lower)
    ||| occurs_in("rate limit"@, lower)
    ||| occurs_in("too many requests"@, lower)
    ||| occurs_in("too_many_tokens_error"@, lower)
    ||| occurs_in("token_quota_exceeded"@, lower)
    ||| occurs_in("too_many_requests_error"@, lower)
    ||| occurs_in("queue_exceeded"@, lower)
    ||| occurs_in("limit exceeded"@, lower)
}

pub open spec fn is_auth_failure(err: Seq<char>) -> bool {
    auth_text(lowercase_of(err))
}

pub open spec fn is_rate_limited(err: Seq<char>) -> bool {
    rate_limit_text(lowercase_of(err))
}

pub open spec fn pow2(n: nat) -> nat
    decreases n,
{
    if n == 0 {
        1
    } else {
        2 * pow2((n - 1) as nat)
    }
}

proof fn lemma_pow2_grows(a: nat, b: nat)
    requires
        a <= b,
    ensures
        pow2(a) <= pow2(b),
    decreases b - a,
{
    if a < b {
        lemma_pow2_grows(a, (b - 1) as nat);
    }
}

/// Seconds to wait after failed attempt `attempt` (from 0): the base (5 after
/// a rate limit, else 1) doubled per attempt, at most 60.
pub open spec fn backoff(attempt: nat, rate_limited: bool) -> nat {
    let base: nat = if rate_limited { 5 } else { 1 };
    if base * pow2(attempt) < 60 {
        base * pow2(attempt)
    } else {
        60
    }
}

/// The error text after every attempt failed without an authentication error.
pub open spec fn exhausted_text(max_retries: u32, any_rate_limit: bool, last: Seq<char>) -> Seq<char> {
    (if any_rate_limit { "LLM RATE LIMIT EXCEEDED"@ } else { "LLM failed"@ }) + " after "@ + decimal(
        max_retries as nat,
    ) + " retries — last error: "@ + last
}

/// What a call through the retry wrapper did: its result, how many times it
/// called the inner caller, and (for proofs) what each of those calls gave.
pub struct RetryReport {
    pub result: Result<LlmResponse, String>,
    pub attempts: u64,
    pub outcomes: Ghost<Seq<Result<LlmResponse, String>>>,
    /// The pauses taken, in seconds; pause `i` followed attempt `i`.
    pub waits: Ghost<Seq<u64>>,
}

/// Wraps a caller and retries failed calls with exponential back-off.
/// Authentication errors are not retried.
pub struct RetryingLlmCaller<C, P> {
    pub inner: C,
    pub pause: P,
    pub max_retries: u32,
}

impl<C, P> RetryingLlmCaller<C, P> {
    pub fn new(inner: C, pause: P, max_retries: u32) -> (r: Self)
        ensures
            r.inner == inner,
            r.pause == pause,
            r.max_retries == max_retries,
    {
        RetryingLlmCaller { inner, pause, max_retries }
    }

    /// Whether an already lowercased error text marks an authentication failure.
    pub fn is_auth_text(lower: &str) -> (r: bool)
        ensures
            r == auth_text(lower@),
    {
        contains_text(lower, "401") || contains_text(lower, "403") || contains_text(lower, "authentication")
            || contains_text(lower, "unauthorized") || contains_text(lower, "forbidden") || contains_text(
            lower,
            "invalid api key",
        )
    }

    /// Whether an already lowercased error text marks a rate limit.
    pub fn is_rate_limit_text(lower: &str) -> (r: bool)
        ensures
            r == rate_limit_text(lower@),
    {
        contains_text(lower, "429") || contains_text(lower, "rate limit") || contains_text(lower, "too many requests")
            || contains_text(lower, "too_many_tokens_error") || contains_text(lower, "token_quota_exceeded")
            || contains_text(lower, "too_many_requests_error") || contains_text(lower, "queue_exceeded")
            || contains_text(lower, "limit exceeded")
    }

    pub fn is_auth_error(err: &str) -> (r: bool)
        ensures
            r == is_auth_failure(err@),
    {
        let lower = lowercase(err);
        RetryingLlmCaller::<C, P>::is_auth_text(lower.as_str())
    }

    pub fn is_rate_limit_error(err: &str) -> (r: bool)
        ensures
            r == is_rate_limited(err@),
    {
        let lower = lowercase(err);
        RetryingLlmCaller::<C, P>::is_rate_limit_text(lower.as_str())
    }

    /// The wait after failed attempt `attempt`.
    pub fn backoff_seconds(attempt: u32, rate_limited: bool) -> (r: u64)
        ensures
            r as nat == backoff(attempt as nat, rate_limited),
    {
        let base: u64 = if rate_limited { 5 } else { 1 };
        let mut w: u64 = base;
        let mut i: u32 = 0;
        while i < attempt && w < 60
            invariant
                i <= attempt,
                w == base * pow2(i as nat),
                w < 120,
                base == (if rate_limited { 5u64 } else { 1u64 }),
            decreases attempt - i,
        {
            w = w * 2;
            i = i + 1;
        }
        if w >= 60 {
            proof {
                lemma_pow2_grows(i as nat, attempt as nat);
                assert(base * pow2(i as nat) <= base * pow2(attempt as nat)) by (nonlinear_arith)
                    requires
                        pow2(i as nat) <= pow2(attempt as nat),
                ;
            }
            60
        } else {
            w
        }
    }
}

impl<C: LlmCaller, P: Pause> RetryingLlmCaller<C, P> {
    /// Calls the inner caller until it succeeds, fails with an authentication
    /// error, or has been called `max_retries + 1` times, pausing between calls.
    pub fn call_with_report(&self, memory: &AgentMemory, tools: &Vec<&ToolSchema>, model: &str) -> (r: RetryReport)
        ensures
            1 <= r.attempts <= self.max_retries as int + 1,
            r.outcomes@.len() == r.attempts,
            r.waits@.len() == r.attempts - 1,
            forall|i: int| 0 <= i < r.waits@.len() ==> #[trigger] r.waits@[i] as nat == backoff(
                i as nat,
                is_rate_limited(r.outcomes@[i]->Err_0@),
            ),
            forall|i: int| 0 <= i < r.attempts - 1 ==> (#[trigger] r.outcomes@[i]) is Err
                && !is_auth_failure(r.outcomes@[i]->Err_0@),
            r.outcomes@[0] is Err && is_auth_failure(r.outcomes@[0]->Err_0@) ==> r.attempts == 1,
            ({
                let last = r.outcomes@[r.attempts - 1];
                match last {
                    Ok(resp) => r.result == Ok::<LlmResponse, String>(resp),
                    Err(e) => if is_auth_failure(e@) {
                        r.result == Err::<LlmResponse, String>(e)
                    } else {
                        &&& r.attempts == self.max_retries as int + 1
                        &&& r.result is Err
                        &&& r.result->Err_0@ == exhausted_text(
                            self.max_retries,
                            exists|i: int| 0 <= i < r.attempts && is_rate_limited(#[trigger] r.outcomes@[i]->Err_0@),
                            e@,
                        )
                    },
                }
            }),
    {
        let mut attempt: u32 = 0;
        let mut rate_limited = false;
        let ghost mut seen: Seq<Result<LlmResponse, String>> = Seq::empty();
        let ghost mut waits: Seq<u64> = Seq::empty();
        loop
            invariant
                attempt <= self.max_retries,
                seen.len() == attempt,
                waits.len() == attempt,
                forall|i: int| 0 <= i < waits.len() ==> #[trigger] waits[i] as nat == backoff(
                    i as nat,
                    is_rate_limited(seen[i]->Err_0@),
                ),
                forall|i: int| 0 <= i < seen.len() ==> (#[trigger] seen[i]) is Err && !is_auth_failure(seen[i]->Err_0@),
                rate_limited == exists|i: int| 0 <= i < seen.len() && is_rate_limited(#[trigger] seen[i]->Err_0@),
            decreases self.max_retries - attempt,
        {
            let res = self.inner.call(memory, tools, model);
            let limited = match &res {
                Ok(_) => false,
                Err(e) => RetryingLlmCaller::<C, P>::is_rate_limit_error(e.as_str()),
            };
            let ghost before = seen;
            proof {
                seen = seen.push(res);
                assert(seen[seen.len() - 1] == res);
                if res is Err {
                    let any = exists|i: int| 0 <= i < seen.len() && is_rate_limited(#[trigger] seen[i]->Err_0@);
                    if rate_limited {
                        let k = choose|k: int| 0 <= k < before.len() && is_rate_limited(#[trigger] before[k]->Err_0@);
                        assert(seen[k] == before[k]);
                    }
                    if limited {
                        assert(is_rate_limited(seen[seen.len() - 1]->Err_0@));
                    }
                    if any {
                        let k = choose|k: int| 0 <= k < seen.len() && is_rate_limited(#[trigger] seen[k]->Err_0@);
                        if k < before.len() {
                            assert(before[k] == seen[k]);
                        }
                    }
                    assert(any == (rate_limited || limited));
                }
            }
            match next_move(attempt, self.max_retries, rate_limited, res) {
                RetryMove::Finish(result) => {
                    return RetryReport { result, attempts: attempt as u64 + 1, outcomes: Ghost(seen), waits: Ghost(waits) };
                },
                RetryMove::Wait(wait) => {
                    self.pause.pause(wait);
                    proof {
                        let w0 = waits;
                        waits = waits.push(wait);
                        assert forall|i: int| 0 <= i < waits.len() implies #[trigger] waits[i] as nat == backoff(
                            i as nat,
                            is_rate_limited(seen[i]->Err_0@),
                        ) by {
                            if i < w0.len() {
                                assert(waits[i] == w0[i]);
                                assert(seen[i] == before[i]);
                            }
                        }
                    }
                    rate_limited = rate_limited || limited;
                    attempt = attempt + 1;
                },
            }
        }
    }
}

/// What the retry wrapper does after one call of the inner caller.
#[derive(Debug)]
pub enum RetryMove {
    /// Stop and hand back this result.
    Finish(Result<LlmResponse, String>),
    /// Wait this many seconds, then call again.
    Wait(u64),
}

/// The decision after call number `attempt` (from 0) came back with
/// `outcome`; `rate_limited` tells whether an earlier call hit a rate limit.
/// A success or an authentication error is handed back as it is; another
/// error is retried after the back-off while attempts remain, and otherwise
/// ends the call with the exhausted-retries error.
pub fn next_move(attempt: u32, max_retries: u32, rate_limited: bool, outcome: Result<LlmResponse, String>) -> (r: RetryMove)
    ensures
        match outcome {
            Ok(resp) => r == RetryMove::Finish(Ok(resp)),
            Err(e) => if is_auth_failure(e@) {
                r == RetryMove::Finish(Err(e))
            } else if attempt < max_retries {
                match r {
                    RetryMove::Wait(s) => s as nat == backoff(attempt as nat, is_rate_limited(e@)),
                    _ => false,
                }
            } else {
                match r {
                    RetryMove::Finish(Err(m)) => m@ == exhausted_text(
                        max_retries,
                        rate_limited || is_rate_limited(e@),
                        e@,
                    ),
                    _ => false,
                }
            },
        },
{
    match outcome {
        Ok(resp) => RetryMove::Finish(Ok(resp)),
        Err(e) => {
            if RetryingLlmCaller::<(), ()>::is_auth_error(e.as_str()) {
                return RetryMove::Finish(Err(e));
            }
            let limited = RetryingLlmCaller::<(), ()>::is_rate_limit_error(e.as_str());
            if attempt < max_retries {
                RetryMove::Wait(RetryingLlmCaller::<(), ()>::backoff_seconds(attempt, limited))
            } else {
                let mut msg = if rate_limited || limited {
                    String::from_str("LLM RATE LIMIT EXCEEDED")
                } else {
                    String::from_str("LLM failed")
                };
                msg.append(" after ");
                msg.append(decimal_string(max_retries as usize).as_str());
                msg.append(" retries — last error: ");
                msg.append(e.as_str());
                RetryMove::Finish(Err(msg))
            }
        },
    }
}

impl<C: LlmCaller, P: Pause> LlmCaller for RetryingLlmCaller<C, P> {
    fn call(&self, memory: &AgentMemory, tools: &Vec<&ToolSchema>, model: &str) -> Result<LlmResponse, String> {
        self.call_with_report(memory, tools, model).result
    }

    /// Streams are not retried: the inner caller streams.
    fn call_stream(&self, memory: &AgentMemory, tools: &Vec<&ToolSchema>, model: &str) -> StreamReply {
        self.inner.call_stream(memory, tools, model)
    }
}

} // verus!
