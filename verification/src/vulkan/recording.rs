//! Carrying out a recording, one step at a time.

use vstd::prelude::*;

use crate::vulkan::command::{Command, Op, SetRef, SetRequest};

verus! {

/// What is to be done next for a recording.
#[derive(Clone, Copy, Debug, PartialEq, Eq)]
pub enum Request {
    /// Start recording the command buffer.
    BeginCommandBuffer,
    /// End recording the command buffer.
    EndCommandBuffer,
    /// Get a descriptor set. The answer is its handle.
    DescriptorSet(SetRequest),
    /// Record the binding of one descriptor set.
    BindDescriptorSet { layout: u64, first_set: u32, set: u64, dynamic_offset: Option<u32> },
    /// Record a command.
    Command(Command),
}

/// A command buffer that is being recorded: its steps, how many of them are done, the descriptor
/// sets fetched so far, and the error code of the step that failed, if one did.
#[derive(Debug, PartialEq, Eq)]
pub struct Recording {
    pub commandbuffer: u64,
    pub ops: Vec<Op>,
    pub done: usize,
    pub sets: Vec<u64>,
    pub failure: Option<i32>,
}

/// The state of a recording.
pub struct RecordingState {
    pub ops: Seq<Op>,
    pub done: nat,
    pub sets: Seq<u64>,
    pub failure: Option<i32>,
}

impl View for Recording {
    type V = RecordingState;

    open spec fn view(&self) -> RecordingState {
        RecordingState {
            ops: self.ops@,
            done: self.done as nat,
            sets: self.sets@,
            failure: self.failure,
        }
    }
}

/// How many descriptor sets a run of steps fetches.
pub open spec fn fetches(ops: Seq<Op>) -> nat
    decreases ops.len(),
{
    if ops.len() == 0 {
        0
    } else if ops.last() is FetchDescriptorSet {
        fetches(ops.drop_last()) + 1
    } else {
        fetches(ops.drop_last())
    }
}

/// Whether every step that binds a descriptor set has one to bind.
pub open spec fn scoped(ops: Seq<Op>) -> bool {
    forall|i: int|
        0 <= i < ops.len() && #[trigger] ops[i] is BindDescriptorSet ==> fetches(ops.take(i)) > 0
}

impl RecordingState {
    /// The steps bind only what they have fetched, and one set has come of each fetch so far.
    pub open spec fn wf(self) -> bool {
        &&& self.done <= self.ops.len()
        &&& scoped(self.ops)
        &&& self.sets.len() == fetches(self.ops.take(self.done as int))
    }

    /// What is to be done next: nothing after a failure or at the end, else the next step, with
    /// the descriptor set that it binds filled in.
    pub open spec fn request(self) -> Option<Request> {
        if self.failure is Some || self.done >= self.ops.len() {
            None
        } else {
            Some(
                match self.ops[self.done as int] {
                    Op::BeginCommandBuffer => Request::BeginCommandBuffer,
                    Op::EndCommandBuffer => Request::EndCommandBuffer,
                    Op::FetchDescriptorSet(request) => Request::DescriptorSet(request),
                    Op::BindDescriptorSet {
                        layout,
                        first_set,
                        set,
                        dynamic_offset,
                    } => Request::BindDescriptorSet {
                        layout,
                        first_set,
                        set: match set {
                            SetRef::FrameData => self.sets.first(),
                            SetRef::Latest => self.sets.last(),
                        },
                        dynamic_offset,
                    },
                    Op::Command(command) => Request::Command(command),
                },
            )
        }
    }

    /// The state after the answer to the current request. An error ends the recording; the handle
    /// that comes with success counts where a descriptor set was asked for.
    pub open spec fn after(self, reply: Result<u64, i32>) -> RecordingState {
        match reply {
            Err(code) => RecordingState { failure: Some(code), ..self },
            Ok(handle) => RecordingState {
                done: self.done + 1,
                sets: if self.ops[self.done as int] is FetchDescriptorSet {
                    self.sets.push(handle)
                } else {
                    self.sets
                },
                ..self
            },
        }
    }

    /// How the recording ended, or nothing while it goes on.
    pub open spec fn outcome(self) -> Option<Result<(), i32>> {
        match self.failure {
            Some(code) => Some(Err(code)),
            None => if self.done >= self.ops.len() {
                Some(Ok(()))
            } else {
                None
            },
        }
    }
}

impl Recording {
    /// The recording of the given steps, before the first of them.
    pub fn new(commandbuffer: u64, ops: Vec<Op>) -> (recording: Recording)
        requires
            scoped(ops@),
        ensures
            recording.commandbuffer == commandbuffer,
            recording@ == (RecordingState {
                ops: ops@,
                done: 0,
                sets: Seq::empty(),
                failure: None,
            }),
            recording@.wf(),
    {
        proof {
            assert(ops@.take(0) == Seq::<Op>::empty());
        }
        Recording { commandbuffer, ops, done: 0, sets: Vec::new(), failure: None }
    }

    /// What is to be done next, or nothing once the recording has ended.
    pub fn next(&self) -> (request: Option<Request>)
        requires
            self@.wf(),
        ensures
            request == self@.request(),
    {
        if self.failure.is_some() || self.done >= self.ops.len() {
            return None;
        }
        proof {
            assert(self@.ops[self.done as int] is BindDescriptorSet ==> fetches(
                self.ops@.take(self.done as int),
            ) > 0);
        }
        Some(
            match self.ops[self.done] {
                Op::BeginCommandBuffer => Request::BeginCommandBuffer,
                Op::EndCommandBuffer => Request::EndCommandBuffer,
                Op::FetchDescriptorSet(request) => Request::DescriptorSet(request),
                Op::BindDescriptorSet {
                    layout,
                    first_set,
                    set,
                    dynamic_offset,
                } => Request::BindDescriptorSet {
                    layout,
                    first_set,
                    set: match set {
                        SetRef::FrameData => self.sets[0],
                        SetRef::Latest => self.sets[self.sets.len() - 1],
                    },
                    dynamic_offset,
                },
                Op::Command(command) => Request::Command(command),
            },
        )
    }

    /// Takes the answer to the current request: the handle of a descriptor set where one was asked
    /// for, any number where not, or the code of an error.
    pub fn reply(&mut self, reply: Result<u64, i32>)
        requires
            old(self)@.wf(),
            old(self)@.request() is Some,
            reply is Err ==> old(self)@.ops[old(self)@.done as int].fallible(),
        ensures
            final(self).commandbuffer == old(self).commandbuffer,
            final(self)@ == old(self)@.after(reply),
            final(self)@.wf(),
    {
        let ghost done = self.done as int;
        assert(self.done < self.ops.len());
        match reply {
            Err(code) => {
                self.failure = Some(code);
            },
            Ok(handle) => {
                if let Op::FetchDescriptorSet(_) = self.ops[self.done] {
                    self.sets.push(handle);
                }
                self.done += 1;
                proof {
                    assert(self.ops@.take(done + 1).drop_last() == self.ops@.take(done));
                    assert(self.ops@.take(done + 1).last() == self.ops@[done]);
                }
            },
        }
    }

    /// How the recording ended, or nothing while it goes on.
    pub fn outcome(&self) -> (outcome: Option<Result<(), i32>>)
        ensures
            outcome == self@.outcome(),
    {
        match self.failure {
            Some(code) => Some(Err(code)),
            None => {
                if self.done >= self.ops.len() {
                    Some(Ok(()))
                } else {
                    None
                }
            },
        }
    }
}

pub(crate) proof fn lemma_some_fetch(ops: Seq<Op>, j: int)
    requires
        0 <= j < ops.len(),
        ops[j] is FetchDescriptorSet,
    ensures
        fetches(ops) > 0,
    decreases ops.len(),
{
    if j < ops.len() - 1 {
        lemma_some_fetch(ops.drop_last(), j);
    }
}

/// The state before the first of the given steps.
pub open spec fn unrecorded(ops: Seq<Op>) -> RecordingState {
    RecordingState { ops, done: 0, sets: Seq::empty(), failure: None }
}

/// The state after a run of answers.
pub open spec fn after_all(start: RecordingState, replies: Seq<Result<u64, i32>>) -> RecordingState
    decreases replies.len(),
{
    if replies.len() == 0 {
        start
    } else {
        after_all(start, replies.drop_last()).after(replies.last())
    }
}

/// The handles among the answers to the steps: those of the descriptor sets that were fetched.
pub open spec fn fetched(ops: Seq<Op>, replies: Seq<Result<u64, i32>>) -> Seq<u64>
    decreases replies.len(),
{
    if replies.len() == 0 {
        Seq::empty()
    } else {
        let before = fetched(ops, replies.drop_last());
        if ops[replies.len() - 1] is FetchDescriptorSet {
            before.push(replies.last()->Ok_0)
        } else {
            before
        }
    }
}

/// As long as no step fails, the steps are done one after the other, each once and in order: after
/// `k` answers the next request is step `k`, and after as many as there are steps the recording
/// has succeeded. A recording stays well formed on the way.
pub proof fn law_recording_does_every_step(ops: Seq<Op>, replies: Seq<Result<u64, i32>>)
    requires
        scoped(ops),
        replies.len() <= ops.len(),
        forall|i: int| 0 <= i < replies.len() ==> #[trigger] replies[i] is Ok,
    ensures
        after_all(unrecorded(ops), replies) == (RecordingState {
            ops,
            done: replies.len(),
            sets: fetched(ops, replies),
            failure: None,
        }),
        after_all(unrecorded(ops), replies).wf(),
        replies.len() < ops.len() ==> after_all(unrecorded(ops), replies).request() is Some,
        replies.len() == ops.len() ==> after_all(unrecorded(ops), replies).outcome() == Some(
            Ok::<(), i32>(()),
        ),
    decreases replies.len(),
{
    let k = replies.len() as int;
    if k == 0 {
        assert(ops.take(0) == Seq::<Op>::empty());
    } else {
        law_recording_does_every_step(ops, replies.drop_last());
        assert(replies.last() is Ok);
        assert(ops.take(k).drop_last() == ops.take(k - 1));
        assert(ops.take(k).last() == ops[k - 1]);
    }
}

/// The first step that fails is the last one that is done: the recording ends there, with the
/// error of that step.
pub proof fn law_recording_stops_at_first_error(
    ops: Seq<Op>,
    replies: Seq<Result<u64, i32>>,
    code: i32,
)
    requires
        scoped(ops),
        replies.len() < ops.len(),
        forall|i: int| 0 <= i < replies.len() ==> #[trigger] replies[i] is Ok,
    ensures
        after_all(unrecorded(ops), replies.push(Err(code))).request() is None,
        after_all(unrecorded(ops), replies.push(Err(code))).done == replies.len(),
        after_all(unrecorded(ops), replies.push(Err(code))).outcome() == Some(
            Err::<(), i32>(code),
        ),
{
    law_recording_does_every_step(ops, replies);
    assert(replies.push(Err(code)).drop_last() == replies);
}

proof fn lemma_latest_fetched(ops: Seq<Op>, replies: Seq<Result<u64, i32>>, j: int)
    requires
        0 <= j < replies.len() <= ops.len(),
        ops[j] is FetchDescriptorSet,
        forall|i: int| j < i < replies.len() ==> !(#[trigger] ops[i] is FetchDescriptorSet),
    ensures
        fetched(ops, replies).len() > 0,
        fetched(ops, replies).last() == replies[j]->Ok_0,
    decreases replies.len(),
{
    if j < replies.len() - 1 {
        lemma_latest_fetched(ops, replies.drop_last(), j);
    }
}

proof fn lemma_first_fetched(ops: Seq<Op>, replies: Seq<Result<u64, i32>>, j: int)
    requires
        0 <= j < replies.len() <= ops.len(),
        ops[j] is FetchDescriptorSet,
        forall|i: int| 0 <= i < j ==> !(#[trigger] ops[i] is FetchDescriptorSet),
    ensures
        fetched(ops, replies).len() > 0,
        fetched(ops, replies).first() == replies[j]->Ok_0,
    decreases replies.len(),
{
    if j < replies.len() - 1 {
        lemma_first_fetched(ops, replies.drop_last(), j);
    } else {
        lemma_none_fetched(ops, replies.drop_last());
    }
}

proof fn lemma_none_fetched(ops: Seq<Op>, replies: Seq<Result<u64, i32>>)
    requires
        replies.len() <= ops.len(),
        forall|i: int| 0 <= i < replies.len() ==> !(#[trigger] ops[i] is FetchDescriptorSet),
    ensures
        fetched(ops, replies).len() == 0,
    decreases replies.len(),
{
    if replies.len() > 0 {
        lemma_none_fetched(ops, replies.drop_last());
    }
}

/// A step that binds the latest set binds the one that answered the last fetch before it; a step
/// that binds the data of the frame binds the one that answered the first fetch of all.
pub proof fn law_bind_uses_what_was_fetched(
    ops: Seq<Op>,
    replies: Seq<Result<u64, i32>>,
    first: int,
    last: int,
)
    requires
        scoped(ops),
        0 <= first <= last < replies.len() < ops.len(),
        forall|i: int| 0 <= i < replies.len() ==> #[trigger] replies[i] is Ok,
        ops[first] is FetchDescriptorSet,
        ops[last] is FetchDescriptorSet,
        forall|i: int| 0 <= i < first ==> !(#[trigger] ops[i] is FetchDescriptorSet),
        forall|i: int| last < i < replies.len() ==> !(#[trigger] ops[i] is FetchDescriptorSet),
    ensures
        ops[replies.len() as int] matches Op::BindDescriptorSet {
            layout,
            first_set,
            set,
            dynamic_offset,
        } ==> after_all(unrecorded(ops), replies).request() == Some(
            Request::BindDescriptorSet {
                layout,
                first_set,
                set: match set {
                    SetRef::FrameData => replies[first]->Ok_0,
                    SetRef::Latest => replies[last]->Ok_0,
                },
                dynamic_offset,
            },
        ),
{
    law_recording_does_every_step(ops, replies);
    lemma_latest_fetched(ops, replies, last);
    lemma_first_fetched(ops, replies, first);
}

/// As long as nothing has failed, what a recording asks for next is its next step, unchanged: a set
/// is asked for with its layout and contents, a command is recorded with its arguments, and a set is
/// bound for its layout, at its number and offset, as the one that was fetched first or last.
pub proof fn law_recording_asks_for_its_steps(state: RecordingState)
    requires
        state.wf(),
    ensures
        state.request() is Some <==> state.failure is None && state.done < state.ops.len(),
        state.request() matches Some(request) ==> match request {
            Request::BeginCommandBuffer => state.ops[state.done as int] is BeginCommandBuffer,
            Request::EndCommandBuffer => state.ops[state.done as int] is EndCommandBuffer,
            Request::DescriptorSet(asked) => state.ops[state.done as int]
                == Op::FetchDescriptorSet(asked),
            Request::BindDescriptorSet { layout, first_set, set, dynamic_offset } => {
                ||| {
                    &&& state.ops[state.done as int] == Op::BindDescriptorSet {
                        layout,
                        first_set,
                        set: SetRef::FrameData,
                        dynamic_offset,
                    }
                    &&& set == state.sets[0]
                }
                ||| {
                    &&& state.ops[state.done as int] == Op::BindDescriptorSet {
                        layout,
                        first_set,
                        set: SetRef::Latest,
                        dynamic_offset,
                    }
                    &&& set == state.sets[state.sets.len() - 1]
                }
            },
            Request::Command(command) => state.ops[state.done as int] == Op::Command(command),
        },
{
}

/// An answer moves a recording on by one step, keeps its steps, and adds a set only where one was
/// asked for. An error is kept as it is, and is how the recording ends.
pub proof fn law_recording_keeps_the_answers(state: RecordingState, handle: u64, code: i32)
    requires
        state.wf(),
        state.request() is Some,
    ensures
        ({
            let next = state.after(Ok(handle));
            let failed = state.after(Err(code));
            &&& next.ops == state.ops
            &&& next.done == state.done + 1
            &&& next.failure is None
            &&& next.sets == if state.ops[state.done as int] is FetchDescriptorSet {
                state.sets.push(handle)
            } else {
                state.sets
            }
            &&& failed.ops == state.ops
            &&& failed.outcome() == Some(Err::<(), i32>(code))
            &&& failed.request() is None
        }),
{
}

} // verus!
