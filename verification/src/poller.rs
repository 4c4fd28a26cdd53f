//! The poller: a state machine that drives startup (one enumeration call,
//! then one cursor-initialization call per discovered shard) and the
//! unbounded round-robin polling loop over the shards' cursors.
//!
//! The machine never performs a network call itself. It tells its driver what
//! call to issue next (`Action`) and consumes the call's result (`Event`),
//! handing back the records to emit. The driver owns error policy: any failed
//! call simply never produces an event, and per the fatal-error design the
//! driver stops the whole process there.

use vstd::prelude::*;

use crate::cursor::payloads_of;
use crate::cursor::FetchOutcome;
use crate::cursor::Record;
use crate::cursor::ShardCursor;

verus! {

/// The phases of a run, in order. `Polling` is never left.
#[derive(Clone, Copy, Debug, PartialEq, Eq, Structural)]
pub enum Phase {
    /// Waiting for the one startup enumeration call.
    Describing,
    /// Requesting an initial cursor for each shard, in enumeration order.
    Initializing,
    /// Round-robin fetching, forever.
    Polling,
}

/// The call the driver is asked to issue next. Shards are named by their
/// index in the enumeration order captured at startup.
#[derive(Clone, Copy, Debug, PartialEq, Eq, Structural)]
pub enum Action {
    /// Issue the one enumeration call for the stream.
    Describe,
    /// Request the initial "latest" cursor for the shard at this index.
    Init { shard: usize },
    /// Issue a fetch-records call with the token of the shard at this index.
    Fetch { shard: usize },
    /// Visit the shard at this index without a call: it is exhausted, or the
    /// stream has no shards at all.
    Skip { shard: usize },
}

/// The result of the requested call, fed back into the machine.
pub enum Event {
    /// Reply to `Describe`: the stream's shard identifiers, in service order.
    Shards { ids: Vec<String> },
    /// Reply to `Init`: the initial cursor token, absent when the service
    /// declined to issue one for a retired shard.
    Cursor { token: Option<String> },
    /// Reply to `Fetch`: the batch of records and the successor token.
    Batch { outcome: FetchOutcome },
    /// Acknowledgement of `Skip`: no call was made, nothing was returned.
    Pass,
}

/// The poller's whole state: the stream name, the shard identifiers captured
/// at startup, one cursor per initialized shard, and the index of the shard
/// to visit next. `emitted` is the ghost history of every payload handed out
/// so far, per shard and in emission order; it is what the ordering
/// guarantees are stated over.
pub struct Poller {
    pub stream: String,
    pub phase: Phase,
    pub shard_ids: Vec<String>,
    pub cursors: Vec<ShardCursor>,
    pub current: usize,
    pub emitted: Ghost<Seq<Seq<Seq<u8>>>>,
}

/// The start-position policy for every cursor-initialization call: always
/// the live edge, skipping all history, as the service spells it.
pub fn latest_start_position() -> (r: String)
    ensures
        r@ == seq!['L', 'A', 'T', 'E', 'S', 'T'],
{
    proof {
        reveal_strlit("LATEST");
    }
    "LATEST".to_owned()
}

impl Poller {
    /// Structural invariant tying the phase to the shapes of the shard list,
    /// the cursor list, the ghost emission history and the visit index.
    pub open spec fn wf(self) -> bool {
        &&& self.emitted@.len() == self.cursors@.len()
        &&& match self.phase {
            Phase::Describing => {
                &&& self.shard_ids@.len() == 0
                &&& self.cursors@.len() == 0
                &&& self.current == 0
            },
            Phase::Initializing => {
                &&& self.cursors@.len() == self.current
                &&& self.current < self.shard_ids@.len()
            },
            Phase::Polling => {
                &&& self.cursors@.len() == self.shard_ids@.len()
                &&& if self.cursors@.len() == 0 {
                    self.current == 0
                } else {
                    self.current < self.cursors@.len()
                }
            },
        }
    }

    /// The call the machine asks for in this state. Startup first; once
    /// polling, an active cursor is fetched and an exhausted one is skipped.
    pub open spec fn action_of(self) -> Action {
        match self.phase {
            Phase::Describing => Action::Describe,
            Phase::Initializing => Action::Init { shard: self.current },
            Phase::Polling => {
                if self.cursors@.len() != 0 && self.cursors@[self.current as int].active() {
                    Action::Fetch { shard: self.current }
                } else {
                    Action::Skip { shard: self.current }
                }
            },
        }
    }

    /// Whether this event answers the call this state asks for.
    pub open spec fn accepts(self, ev: Event) -> bool {
        match ev {
            Event::Shards { .. } => self.phase is Describing,
            Event::Cursor { .. } => self.phase is Initializing,
            Event::Batch { .. } => self.phase is Polling && self.action_of() is Fetch,
            Event::Pass => self.phase is Polling && self.action_of() is Skip,
        }
    }

    /// The one-step transition relation: consuming `ev` in state `pre` yields
    /// state `post` and emits the payloads `out`, in order.
    pub open spec fn transition(pre: Poller, ev: Event, post: Poller, out: Seq<Seq<u8>>) -> bool {
        &&& post.stream@ == pre.stream@
        &&& match ev {
            Event::Shards { ids } => {
                &&& pre.phase is Describing
                &&& post.shard_ids@ == ids@
                &&& post.cursors@.len() == 0
                &&& post.emitted@ == Seq::<Seq<Seq<u8>>>::empty()
                &&& post.current == 0
                &&& post.phase == (if ids@.len() == 0 {
                    Phase::Polling
                } else {
                    Phase::Initializing
                })
                &&& out.len() == 0
            },
            Event::Cursor { token } => {
                &&& pre.phase is Initializing
                &&& post.shard_ids@ == pre.shard_ids@
                &&& post.cursors@ == pre.cursors@.push(ShardCursor { token })
                &&& post.emitted@ == pre.emitted@.push(Seq::<Seq<u8>>::empty())
                &&& if pre.current + 1 == pre.shard_ids@.len() {
                    post.phase is Polling && post.current == 0
                } else {
                    post.phase is Initializing && post.current == pre.current + 1
                }
                &&& out.len() == 0
            },
            Event::Batch { outcome } => {
                &&& pre.phase is Polling
                &&& pre.current < pre.cursors@.len()
                &&& pre.cursors@[pre.current as int].active()
                &&& post.phase is Polling
                &&& post.shard_ids@ == pre.shard_ids@
                &&& post.cursors@ == pre.cursors@.update(
                    pre.current as int,
                    (ShardCursor { token: outcome.next_token }),
                )
                &&& post.emitted@ == pre.emitted@.update(
                    pre.current as int,
                    pre.emitted@[pre.current as int] + outcome.payloads(),
                )
                &&& post.current == (pre.current + 1) % (pre.cursors@.len() as int)
                &&& out == outcome.payloads()
            },
            Event::Pass => {
                &&& pre.phase is Polling
                &&& (pre.cursors@.len() == 0 || !pre.cursors@[pre.current as int].active())
                &&& post.phase is Polling
                &&& post.shard_ids@ == pre.shard_ids@
                &&& post.cursors@ == pre.cursors@
                &&& post.emitted@ == pre.emitted@
                &&& post.current == (if pre.cursors@.len() == 0 {
                    0
                } else {
                    (pre.current + 1) % (pre.cursors@.len() as int)
                })
                &&& out.len() == 0
            },
        }
    }

    /// A fresh poller for the named stream, about to make its one
    /// enumeration call.
    pub fn new(stream: String) -> (p: Poller)
        requires
            stream@.len() != 0,
        ensures
            p.wf(),
            p.stream@ == stream@,
            p.phase is Describing,
            p.action_of() is Describe,
    {
        Poller {
            stream,
            phase: Phase::Describing,
            shard_ids: Vec::new(),
            cursors: Vec::new(),
            current: 0,
            emitted: Ghost(Seq::empty()),
        }
    }

    /// The call to issue next.
    pub fn next_action(&self) -> (a: Action)
        requires
            self.wf(),
        ensures
            a == self.action_of(),
    {
        match self.phase {
            Phase::Describing => Action::Describe,
            Phase::Initializing => Action::Init { shard: self.current },
            Phase::Polling => {
                if self.cursors.len() != 0 && self.cursors[self.current].is_active() {
                    Action::Fetch { shard: self.current }
                } else {
                    Action::Skip { shard: self.current }
                }
            },
        }
    }

    /// The name of the stream this poller tails.
    pub fn stream_name(&self) -> (r: &String)
        ensures
            r@ == self.stream@,
    {
        &self.stream
    }

    /// The identifier of the shard whose cursor is requested next.
    pub fn init_target(&self) -> (r: &String)
        requires
            self.wf(),
            self.phase is Initializing,
        ensures
            r@ == self.shard_ids@[self.current as int]@,
    {
        &self.shard_ids[self.current]
    }

    /// The token to fetch with, when the machine asks for a fetch.
    pub fn fetch_token(&self) -> (r: &String)
        requires
            self.wf(),
            self.action_of() is Fetch,
        ensures
            self.cursors@[self.current as int].token == Some(*r),
    {
        self.cursors[self.current].token.as_ref().unwrap()
    }

    /// Consume the result of the requested call: advance the state machine
    /// and hand back the records to emit, in the order the service returned
    /// them.
    pub fn apply(&mut self, ev: Event) -> (out: Vec<Record>)
        requires
            old(self).wf(),
            old(self).accepts(ev),
        ensures
            final(self).wf(),
            Poller::transition(*old(self), ev, *final(self), payloads_of(out@)),
    {
        match ev {
            Event::Shards { ids } => {
                let none_found = ids.len() == 0;
                self.shard_ids = ids;
                self.cursors = Vec::new();
                self.emitted = Ghost(Seq::empty());
                self.current = 0;
                self.phase = if none_found {
                    Phase::Polling
                } else {
                    Phase::Initializing
                };
                let out: Vec<Record> = Vec::new();
                proof {
                    assert(payloads_of(out@) =~= Seq::<Seq<u8>>::empty());
                }
                out
            },
            Event::Cursor { token } => {
                let n: usize = self.shard_ids.len();
                self.cursors.push(ShardCursor { token });
                self.emitted = Ghost(self.emitted@.push(Seq::<Seq<u8>>::empty()));
                if self.current + 1 == n {
                    self.phase = Phase::Polling;
                    self.current = 0;
                } else {
                    self.current = self.current + 1;
                }
                let out: Vec<Record> = Vec::new();
                proof {
                    assert(payloads_of(out@) =~= Seq::<Seq<u8>>::empty());
                }
                out
            },
            Event::Batch { outcome } => {
                let i: usize = self.current;
                let n: usize = self.cursors.len();
                let FetchOutcome { records, next_token } = outcome;
                self.cursors[i] = ShardCursor { token: next_token };
                self.emitted = Ghost(
                    self.emitted@.update(i as int, self.emitted@[i as int] + payloads_of(records@)),
                );
                self.current = (i + 1) % n;
                records
            },
            Event::Pass => {
                if self.cursors.len() != 0 {
                    self.current = (self.current + 1) % self.cursors.len();
                }
                let out: Vec<Record> = Vec::new();
                proof {
                    assert(payloads_of(out@) =~= Seq::<Seq<u8>>::empty());
                }
                out
            },
        }
    }
}

} // verus!

