//! The guarantees of the poller, stated and proved over its transition
//! relation: startup discipline (one enumeration, then one initialization
//! per shard, before any fetch), the permanence of exhaustion, and the
//! preservation of append order in what is emitted.

use vstd::prelude::*;

use crate::poller::Action;
use crate::poller::Event;
use crate::poller::Poller;

verus! {

/// How many shards the enumeration reply discovered; zero for any other
/// event.
pub open spec fn discovered_count(ev: Event) -> int {
    match ev {
        Event::Shards { ids } => ids@.len() as int,
        _ => 0,
    }
}

/// The payloads a fetch reply carries; empty for any other event.
pub open spec fn batch_payloads(ev: Event) -> Seq<Seq<u8>> {
    match ev {
        Event::Batch { outcome } => outcome.payloads(),
        _ => Seq::<Seq<u8>>::empty(),
    }
}

/// A run of the poller: `states[i]` consumes `events[i]` and becomes
/// `states[i + 1]`, emitting the payloads `outs[i]`.
pub open spec fn is_run(states: Seq<Poller>, events: Seq<Event>, outs: Seq<Seq<Seq<u8>>>) -> bool {
    &&& states.len() == events.len() + 1
    &&& outs.len() == events.len()
    &&& forall|i: int|
        0 <= i < events.len() ==> #[trigger] Poller::transition(
            states[i],
            events[i],
            states[i + 1],
            outs[i],
        )
}

/// The step a run takes at index `i`.
pub proof fn lemma_run_step(states: Seq<Poller>, events: Seq<Event>, outs: Seq<Seq<Seq<u8>>>, i: int)
    requires
        is_run(states, events, outs),
        0 <= i < events.len(),
    ensures
        Poller::transition(states[i], events[i], states[i + 1], outs[i]),
{
}

/// The transition relation preserves the structural invariant.
pub proof fn lemma_transition_wf(pre: Poller, ev: Event, post: Poller, out: Seq<Seq<u8>>)
    requires
        pre.wf(),
        Poller::transition(pre, ev, post, out),
    ensures
        post.wf(),
{
}

/// Every state of a run that starts well formed is well formed.
pub proof fn lemma_run_wf(states: Seq<Poller>, events: Seq<Event>, outs: Seq<Seq<Seq<u8>>>, i: int)
    requires
        is_run(states, events, outs),
        states[0].wf(),
        0 <= i < states.len(),
    ensures
        states[i].wf(),
    decreases i,
{
    if i > 0 {
        lemma_run_wf(states, events, outs, i - 1);
        lemma_run_step(states, events, outs, i - 1);
        lemma_transition_wf(states[i - 1], events[i - 1], states[i], outs[i - 1]);
    }
}

/// A machine never asks to fetch an exhausted shard.
pub proof fn lemma_no_fetch_of_exhausted(p: Poller, k: usize)
    requires
        0 <= k < p.cursors@.len(),
        !p.cursors@[k as int].active(),
    ensures
        p.action_of() != (Action::Fetch { shard: k }),
{
}

/// One step of the permanence of exhaustion: an exhausted shard is still
/// exhausted after any step, the polling phase is never left, and the shard
/// set no longer changes.
pub proof fn lemma_exhausted_step(pre: Poller, ev: Event, post: Poller, out: Seq<Seq<u8>>, k: usize)
    requires
        Poller::transition(pre, ev, post, out),
        pre.phase is Polling,
        0 <= k < pre.cursors@.len(),
        !pre.cursors@[k as int].active(),
    ensures
        post.phase is Polling,
        post.cursors@.len() == pre.cursors@.len(),
        !post.cursors@[k as int].active(),
{
    match ev {
        Event::Batch { outcome } => {
            assert(pre.cursors@[pre.current as int].active());
            assert(k != pre.current);
            assert(post.cursors@[k as int] == pre.cursors@[k as int]);
        },
        _ => {},
    }
}

/// Once a fetch response carries no successor token, that shard is exhausted
/// for the remainder of the run: every later state still holds it exhausted
/// and never asks to fetch it again.
pub proof fn lemma_exhausted_forever(
    states: Seq<Poller>,
    events: Seq<Event>,
    outs: Seq<Seq<Seq<u8>>>,
    i: int,
    j: int,
    k: usize,
)
    requires
        is_run(states, events, outs),
        0 <= i <= j < states.len(),
        states[i].phase is Polling,
        0 <= k < states[i].cursors@.len(),
        !states[i].cursors@[k as int].active(),
    ensures
        states[j].phase is Polling,
        states[j].cursors@.len() == states[i].cursors@.len(),
        !states[j].cursors@[k as int].active(),
        states[j].action_of() != (Action::Fetch { shard: k }),
    decreases j - i,
{
    if j > i {
        lemma_exhausted_forever(states, events, outs, i, j - 1, k);
        lemma_run_step(states, events, outs, j - 1);
        lemma_exhausted_step(states[j - 1], events[j - 1], states[j], outs[j - 1], k);
    }
    lemma_no_fetch_of_exhausted(states[j], k);
}

/// The enumeration call is issued exactly once: in a run from startup, only
/// the very first state asks for it.
pub proof fn lemma_describe_once(
    states: Seq<Poller>,
    events: Seq<Event>,
    outs: Seq<Seq<Seq<u8>>>,
    i: int,
)
    requires
        is_run(states, events, outs),
        states[0].phase is Describing,
        0 <= i < states.len(),
    ensures
        (states[i].action_of() is Describe) <==> i == 0,
{
    if i > 0 {
        lemma_run_step(states, events, outs, i - 1);
        assert(!(states[i].phase is Describing));
    }
}

/// During startup, the machine walks the discovered shards in enumeration
/// order: after the enumeration reply and `i - 1` cursor replies it is still
/// initializing, holds one cursor per answered shard, and asks for the
/// cursor of shard `i - 1` next.
pub proof fn lemma_startup_order(
    states: Seq<Poller>,
    events: Seq<Event>,
    outs: Seq<Seq<Seq<u8>>>,
    i: int,
)
    requires
        is_run(states, events, outs),
        states[0].wf(),
        states[0].phase is Describing,
        1 <= i < states.len(),
        i <= discovered_count(events[0]),
    ensures
        events[0] is Shards,
        states[i].phase is Initializing,
        states[i].current == i - 1,
        states[i].cursors@.len() == i - 1,
        states[i].shard_ids@.len() == discovered_count(events[0]),
        states[i].action_of() == (Action::Init { shard: states[i].current }),
        1 < i ==> events[i - 1] is Cursor,
    decreases i,
{
    lemma_run_step(states, events, outs, 0);
    if i == 1 {
        assert(events[0] is Shards);
    } else {
        lemma_startup_order(states, events, outs, i - 1);
        lemma_run_step(states, events, outs, i - 1);
    }
}

/// Startup issues exactly one enumeration call and exactly one
/// initialization call per discovered shard, all before any fetch: with `n`
/// shards discovered, the states up to index `n` never ask for a fetch, and
/// the state after the `n`-th cursor reply is polling with one cursor per
/// shard.
pub proof fn lemma_startup_counts(states: Seq<Poller>, events: Seq<Event>, outs: Seq<Seq<Seq<u8>>>)
    requires
        is_run(states, events, outs),
        states[0].wf(),
        states[0].phase is Describing,
        discovered_count(events[0]) + 1 < states.len(),
    ensures
        events[0] is Shards,
        forall|j: int|
            0 <= j <= discovered_count(events[0]) ==> !(#[trigger] states[j].action_of() is Fetch),
        states[discovered_count(events[0]) + 1].phase is Polling,
        states[discovered_count(events[0]) + 1].cursors@.len() == discovered_count(events[0]),
        states[discovered_count(events[0]) + 1].shard_ids@.len() == discovered_count(events[0]),
{
    let n: int = discovered_count(events[0]);
    lemma_run_step(states, events, outs, 0);
    assert forall|j: int| 0 <= j <= n implies !(#[trigger] states[j].action_of() is Fetch) by {
        if j > 0 {
            lemma_startup_order(states, events, outs, j);
        }
    }
    if n == 0 {
        assert(states[1].phase is Polling);
    } else {
        lemma_startup_order(states, events, outs, n);
        lemma_run_step(states, events, outs, n);
    }
}

/// One step of order preservation: a step only ever appends to a shard's
/// emission history, and a fetch appends its whole batch, in batch order, to
/// the fetched shard's history.
pub proof fn lemma_order_step(pre: Poller, ev: Event, post: Poller, out: Seq<Seq<u8>>, k: int)
    requires
        pre.wf(),
        Poller::transition(pre, ev, post, out),
        0 <= k < pre.emitted@.len(),
    ensures
        pre.emitted@.len() <= post.emitted@.len(),
        pre.emitted@[k].is_prefix_of(post.emitted@[k]),
        ev is Batch && pre.current == k ==> post.emitted@[k] == pre.emitted@[k]
            + batch_payloads(ev),
{
    match ev {
        Event::Shards { ids } => {
            assert(false);
        },
        Event::Cursor { token } => {
            assert(post.emitted@[k] == pre.emitted@[k]);
            assert(pre.emitted@[k].is_prefix_of(post.emitted@[k]));
        },
        Event::Batch { outcome } => {
            if pre.current == k {
                let a = pre.emitted@[k];
                let b = outcome.payloads();
                assert(post.emitted@[k] == a + b);
                assert(a =~= (a + b).subrange(0, a.len() as int));
            } else {
                assert(post.emitted@[k] == pre.emitted@[k]);
            }
        },
        Event::Pass => {
            assert(post.emitted@[k] == pre.emitted@[k]);
        },
    }
}

/// Records from consecutive fetches preserve append order: over any stretch
/// of a run, a shard's emission history only ever grows at its end, so every
/// payload of an earlier batch stands before every payload of a later one.
pub proof fn lemma_order_forever(
    states: Seq<Poller>,
    events: Seq<Event>,
    outs: Seq<Seq<Seq<u8>>>,
    i: int,
    j: int,
    k: int,
)
    requires
        is_run(states, events, outs),
        states[0].wf(),
        0 <= i <= j < states.len(),
        0 <= k < states[i].emitted@.len(),
    ensures
        k < states[j].emitted@.len(),
        states[i].emitted@[k].is_prefix_of(states[j].emitted@[k]),
    decreases j - i,
{
    if j > i {
        lemma_order_forever(states, events, outs, i, j - 1, k);
        lemma_run_wf(states, events, outs, j - 1);
        lemma_run_step(states, events, outs, j - 1);
        lemma_order_step(states[j - 1], events[j - 1], states[j], outs[j - 1], k);
        let a = states[i].emitted@[k];
        let b = states[j - 1].emitted@[k];
        let c = states[j].emitted@[k];
        assert(a =~= b.subrange(0, a.len() as int));
        assert(b =~= c.subrange(0, b.len() as int));
        assert(a =~= c.subrange(0, a.len() as int));
    }
}

/// Two fetches of the same shard, in run order: the earlier batch stands
/// whole, in batch order, in the shard's history before the later fetch
/// appends anything, so no later batch ever reorders relative to an earlier
/// one.
pub proof fn lemma_batches_in_order(
    states: Seq<Poller>,
    events: Seq<Event>,
    outs: Seq<Seq<Seq<u8>>>,
    i: int,
    j: int,
    k: usize,
)
    requires
        is_run(states, events, outs),
        states[0].wf(),
        0 <= i < j < events.len(),
        events[i] is Batch,
        events[j] is Batch,
        states[i].current == k,
        states[j].current == k,
        0 <= k < states[i].emitted@.len(),
    ensures
        states[i + 1].emitted@[k as int] == states[i].emitted@[k as int] + batch_payloads(
            events[i],
        ),
        states[i + 1].emitted@[k as int].is_prefix_of(states[j].emitted@[k as int]),
        states[j + 1].emitted@[k as int] == states[j].emitted@[k as int] + batch_payloads(
            events[j],
        ),
{
    lemma_run_wf(states, events, outs, i);
    lemma_run_step(states, events, outs, i);
    lemma_order_step(states[i], events[i], states[i + 1], outs[i], k as int);
    lemma_order_forever(states, events, outs, i + 1, j, k as int);
    lemma_run_wf(states, events, outs, j);
    lemma_run_step(states, events, outs, j);
    lemma_order_step(states[j], events[j], states[j + 1], outs[j], k as int);
}

} // verus!
