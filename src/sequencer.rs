//! A counter that hands out gap-free, duplicate-free ordinal numbers.
//!
//! The counter is a plain value; callers that share it between threads or
//! tasks hold it behind a mutual-exclusion mechanism, which turns any
//! interleaving of calls into one sequence of `next` steps.
use vstd::prelude::*;

verus! {

/// The body of a message sent by a client: free-form text.
#[derive(Debug, Clone, Default)]
pub struct SendMessageRequestBody {
    pub text: String,
}

/// The answer to a message: its ordinal number and the text echoed back.
#[derive(Debug, Clone, Default)]
pub struct SendMessageResponseBody {
    pub ordinal_number: u32,
    pub text: String,
}

/// Hands out ordinal numbers 0, 1, 2, ... one per call of `next`.
///
/// The counter never wraps: once it has reached `u32::MAX` it is exhausted and
/// `next` may no longer be called.
pub struct Sequencer {
    count: u32,
}

/// One call of `next`: the ordinal handed out is the counter before the call,
/// and the counter grows by one.
pub open spec fn issue_step(before: nat, after: nat, ordinal: nat) -> bool {
    &&& ordinal == before
    &&& after == before + 1
}

impl View for Sequencer {
    type V = nat;

    /// The ordinal that the next call of `next` hands out.
    closed spec fn view(&self) -> nat {
        self.count as nat
    }
}

impl Sequencer {
    /// A sequencer whose first ordinal is 0.
    pub fn new() -> (r: Sequencer)
        ensures
            r@ == 0,
    {
        Sequencer { count: 0 }
    }

    /// Whether every ordinal this sequencer can represent has been handed out.
    pub fn is_exhausted(&self) -> (r: bool)
        ensures
            r == (self@ >= u32::MAX as nat),
    {
        self.count == u32::MAX
    }

    /// The ordinal that the next call of `next` hands out.
    pub fn peek(&self) -> (r: u32)
        ensures
            r as nat == self@,
    {
        self.count
    }

    /// Takes the current ordinal, advances the counter by one, and returns the
    /// ordinal together with the payload, untouched.
    pub fn next<T>(&mut self, payload: T) -> (r: (u32, T))
        requires
            old(self)@ < u32::MAX as nat,
        ensures
            issue_step(old(self)@, final(self)@, r.0 as nat),
            r.1 == payload,
    {
        let ordinal = self.count;
        self.count = self.count + 1;
        (ordinal, payload)
    }
}

/// Answers a message: numbers it with the sequencer's next ordinal and echoes
/// its text.
pub fn send_message(
    sequencer: &mut Sequencer,
    request: SendMessageRequestBody,
) -> (r: SendMessageResponseBody)
    requires
        old(sequencer)@ < u32::MAX as nat,
    ensures
        issue_step(old(sequencer)@, final(sequencer)@, r.ordinal_number as nat),
        r.text@ == request.text@,
{
    let (ordinal_number, text) = sequencer.next(request.text);
    SendMessageResponseBody { ordinal_number, text }
}

/// A run of calls of `next` counts up from where it started: the i-th call
/// hands out the starting ordinal plus i, and the counter then stands i + 1
/// past its start.
pub proof fn lemma_run_counts_up(states: Seq<nat>, ordinals: Seq<nat>)
    requires
        states.len() == ordinals.len() + 1,
        forall|i: int|
            0 <= i < ordinals.len() ==> #[trigger] issue_step(states[i], states[i + 1], ordinals[i]),
    ensures
        forall|i: int| 0 <= i < ordinals.len() ==> #[trigger] ordinals[i] == states[0] + i,
        forall|i: int| 0 <= i < states.len() ==> #[trigger] states[i] == states[0] + i,
        forall|i: int, j: int| 0 <= i < j < ordinals.len() ==> ordinals[i] < ordinals[j],
    decreases ordinals.len(),
{
    if ordinals.len() > 0 {
        let n = ordinals.len() - 1;
        let fewer_states = states.take(n + 1);
        let fewer_ordinals = ordinals.take(n);
        assert forall|i: int| 0 <= i < fewer_ordinals.len() implies #[trigger] issue_step(
            fewer_states[i],
            fewer_states[i + 1],
            fewer_ordinals[i],
        ) by {
            assert(issue_step(states[i], states[i + 1], ordinals[i]));
        }
        lemma_run_counts_up(fewer_states, fewer_ordinals);
        assert(issue_step(states[n], states[n + 1], ordinals[n]));
        assert(states[n] == fewer_states[n]);
        assert(states[0] == fewer_states[0]);
        assert forall|i: int| 0 <= i < states.len() implies #[trigger] states[i] == states[0] + i by {
            if i <= n {
                assert(states[i] == fewer_states[i]);
            }
        }
        assert forall|i: int| 0 <= i < ordinals.len() implies #[trigger] ordinals[i] == states[0]
            + i by {
            if i < n {
                assert(ordinals[i] == fewer_ordinals[i]);
            }
        }
    }
}

/// However the calls of a batch were interleaved, a run of `n` calls of
/// `next` that starts at ordinal `k` hands out exactly the ordinals
/// `k, k + 1, ..., k + n - 1`, none twice, and leaves the counter at `k + n`.
pub proof fn lemma_run_is_gap_free(states: Seq<nat>, ordinals: Seq<nat>)
    requires
        states.len() == ordinals.len() + 1,
        forall|i: int|
            0 <= i < ordinals.len() ==> #[trigger] issue_step(states[i], states[i + 1], ordinals[i]),
    ensures
        ordinals.no_duplicates(),
        ordinals.to_set() == Set::new(
            |k: nat| states[0] <= k < states[0] + ordinals.len(),
        ),
        states.last() == states[0] + ordinals.len(),
{
    lemma_run_counts_up(states, ordinals);
    let start = states[0];
    let expected = Set::new(|k: nat| start <= k < start + ordinals.len());
    assert forall|k: nat| #[trigger] expected.contains(k) implies ordinals.to_set().contains(k) by {
        let i = k - start;
        assert(ordinals[i] == k);
    }
    assert forall|k: nat| #[trigger] ordinals.to_set().contains(k) implies expected.contains(k) by {
        let i = choose|i: int| 0 <= i < ordinals.len() && ordinals[i] == k;
    }
    assert(ordinals.to_set() =~= expected);
}

} // verus!
