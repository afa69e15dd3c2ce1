//! Bounded sampling of a topic's newest records.
//!
//! A [`Sampler`] decides, poll by poll, whether the consumer is polled once
//! more. The caller performs the poll and reports what came of it.

use vstd::prelude::*;
use vstd::seq_lib::{to_multiset_build, to_multiset_insert};
use crate::topic::KafkaMessage;

verus! {

/// The number of polls after which a sampling read gives up.
pub const MAX_POLL_ATTEMPTS: usize = 50;

/// How long one poll waits for a record, in milliseconds.
pub const POLL_TIMEOUT_MS: u64 = 100;

/// What one poll of the consumer gave.
#[derive(Debug)]
pub enum PollOutcome {
    /// A record was delivered.
    Delivered(KafkaMessage),
    /// The delivery of one record failed. The read goes on.
    Failed,
    /// No record arrived within the poll's timeout.
    Idle,
}

/// What the caller of a sampler does next.
#[derive(Debug, Clone, Copy, PartialEq, Eq, Structural)]
pub enum SamplerAction {
    Poll,
    Stop,
}

/// The state of a sampling read as contracts see it.
pub struct SamplerState {
    pub max_messages: nat,
    pub attempts: nat,
    pub drained: bool,
    pub buffer: Seq<KafkaMessage>,
}

impl SamplerState {
    /// The state before the first poll.
    pub open spec fn initial(max_messages: nat) -> SamplerState {
        SamplerState { max_messages, attempts: 0, drained: false, buffer: Seq::empty() }
    }

    /// Whether the read goes on: the buffer is not full, polls are left, and
    /// no idle poll has followed a delivered record.
    pub open spec fn wants_poll(self) -> bool {
        &&& self.buffer.len() < self.max_messages
        &&& self.attempts < MAX_POLL_ATTEMPTS
        &&& !self.drained
    }

    pub open spec fn action(self) -> SamplerAction {
        if self.wants_poll() {
            SamplerAction::Poll
        } else {
            SamplerAction::Stop
        }
    }

    /// The state after one poll. A read that has stopped stays as it is.
    pub open spec fn step(self, outcome: PollOutcome) -> SamplerState {
        if !self.wants_poll() {
            self
        } else {
            match outcome {
                PollOutcome::Delivered(message) => SamplerState {
                    attempts: self.attempts + 1,
                    buffer: self.buffer.push(message),
                    ..self
                },
                PollOutcome::Failed => SamplerState { attempts: self.attempts + 1, ..self },
                PollOutcome::Idle => SamplerState {
                    attempts: self.attempts + 1,
                    drained: self.buffer.len() > 0,
                    ..self
                },
            }
        }
    }

    /// The state after a sequence of polls.
    pub open spec fn run(self, outcomes: Seq<PollOutcome>) -> SamplerState
        decreases outcomes.len(),
    {
        if outcomes.len() == 0 {
            self
        } else {
            self.run(outcomes.drop_last()).step(outcomes.last())
        }
    }

    /// What holds of every state that a read reaches.
    pub open spec fn within_bounds(self) -> bool {
        &&& self.buffer.len() <= self.max_messages
        &&& self.attempts <= MAX_POLL_ATTEMPTS
        &&& self.drained ==> self.buffer.len() > 0
    }
}

/// A sampling read in progress.
pub struct Sampler {
    max_messages: usize,
    attempts: usize,
    drained: bool,
    buffer: Vec<KafkaMessage>,
}

impl View for Sampler {
    type V = SamplerState;

    closed spec fn view(&self) -> SamplerState {
        SamplerState {
            max_messages: self.max_messages as nat,
            attempts: self.attempts as nat,
            drained: self.drained,
            buffer: self.buffer@,
        }
    }
}

impl Sampler {
    #[verifier::type_invariant]
    spec fn in_bounds(self) -> bool {
        self@.within_bounds()
    }

    /// Starts a read that returns at most `max_messages` records.
    pub fn new(max_messages: usize) -> (sampler: Sampler)
        ensures
            sampler@ == SamplerState::initial(max_messages as nat),
    {
        Sampler { max_messages, attempts: 0, drained: false, buffer: Vec::new() }
    }

    /// Says whether the consumer is to be polled once more.
    pub fn action(&self) -> (action: SamplerAction)
        ensures
            action == self@.action(),
            self@.within_bounds(),
    {
        proof {
            use_type_invariant(self);
        }
        if self.buffer.len() < self.max_messages && self.attempts < MAX_POLL_ATTEMPTS
            && !self.drained {
            SamplerAction::Poll
        } else {
            SamplerAction::Stop
        }
    }

    /// Takes in what a poll gave: the read after it, and what to do next.
    /// After `Stop` further outcomes change nothing.
    pub fn observe(self, outcome: PollOutcome) -> (next: (Sampler, SamplerAction))
        ensures
            next.0@ == self@.step(outcome),
            next.1 == next.0@.action(),
            next.0@.within_bounds(),
    {
        proof {
            use_type_invariant(&self);
        }
        let Sampler { max_messages, attempts, drained, buffer } = self;
        let mut buffer = buffer;
        let mut drained = drained;
        let mut attempts: usize = attempts;
        if buffer.len() < max_messages && attempts < MAX_POLL_ATTEMPTS && !drained {
            attempts = attempts + 1;
            match outcome {
                PollOutcome::Delivered(message) => {
                    buffer.push(message);
                },
                PollOutcome::Failed => {},
                PollOutcome::Idle => {
                    drained = buffer.len() > 0;
                },
            }
        }
        let sampler = Sampler { max_messages, attempts, drained, buffer };
        let action = sampler.action();
        (sampler, action)
    }

    /// Ends the read: the records taken in, newest first.
    pub fn finish(self) -> (messages: Vec<KafkaMessage>)
        ensures
            is_newest_first_of(messages@, self@.buffer),
            messages.len() <= self@.max_messages,
    {
        proof {
            use_type_invariant(&self);
        }
        sort_newest_first(self.buffer)
    }
}

/// The test for a record that lies at `offset`.
pub open spec fn lies_at(offset: i64) -> spec_fn(KafkaMessage) -> bool {
    |m: KafkaMessage| m.offset == offset
}

/// The records of `messages` that lie at `offset`, in their order.
pub open spec fn at_offset(messages: Seq<KafkaMessage>, offset: i64) -> Seq<KafkaMessage> {
    messages.filter(lies_at(offset))
}

/// No record is followed by one with a greater offset.
pub open spec fn newest_first(messages: Seq<KafkaMessage>) -> bool {
    forall|i: int, j: int|
        0 <= i < j < messages.len() ==> messages[i].offset >= messages[j].offset
}

/// `sorted` holds the records of `unsorted`, each as often as `unsorted` has
/// it, by falling offset, and records with one offset in the order in which
/// `unsorted` has them.
pub open spec fn is_newest_first_of(
    sorted: Seq<KafkaMessage>,
    unsorted: Seq<KafkaMessage>,
) -> bool {
    &&& newest_first(sorted)
    &&& sorted.len() == unsorted.len()
    &&& sorted.to_multiset() == unsorted.to_multiset()
    &&& forall|offset: i64| at_offset(sorted, offset) == at_offset(unsorted, offset)
}

/// Where `message` goes into `sorted`: behind every record whose offset is
/// not below its own.
fn insertion_point(sorted: &Vec<KafkaMessage>, offset: i64) -> (at: usize)
    requires
        newest_first(sorted@),
    ensures
        at <= sorted.len(),
        forall|i: int| 0 <= i < at ==> sorted[i].offset >= offset,
        forall|i: int| at <= i < sorted.len() ==> sorted[i].offset < offset,
{
    let mut at: usize = 0;
    while at < sorted.len() && sorted[at].offset >= offset
        invariant
            at <= sorted.len(),
            newest_first(sorted@),
            forall|i: int| 0 <= i < at ==> sorted[i].offset >= offset,
        decreases sorted.len() - at,
    {
        at += 1;
    }
    at
}

/// Inserting a record behind its equals and before everything older keeps
/// the order, and adds the record at the end of those with its offset.
proof fn lemma_insert_keeps_order(sorted: Seq<KafkaMessage>, at: int, message: KafkaMessage)
    requires
        newest_first(sorted),
        0 <= at <= sorted.len(),
        forall|i: int| 0 <= i < at ==> sorted[i].offset >= message.offset,
        forall|i: int| at <= i < sorted.len() ==> sorted[i].offset < message.offset,
    ensures
        newest_first(sorted.insert(at, message)),
        forall|offset: i64|
            at_offset(sorted.insert(at, message), offset) == at_offset(
                sorted.push(message),
                offset,
            ),
{
    let grown = sorted.insert(at, message);
    assert forall|i: int, j: int| 0 <= i < j < grown.len() implies grown[i].offset
        >= grown[j].offset by {
        if j < at {
        } else if i > at {
            assert(grown[i] == sorted[i - 1]);
            assert(grown[j] == sorted[j - 1]);
        } else if i == at {
            assert(grown[j] == sorted[j - 1]);
        } else if j == at {
        } else {
            assert(grown[j] == sorted[j - 1]);
        }
    }
    assert forall|offset: i64|
        at_offset(grown, offset) == at_offset(sorted.push(message), offset) by {
        let pred = lies_at(offset);
        let head = sorted.subrange(0, at);
        let tail = sorted.subrange(at, sorted.len() as int);
        let one = seq![message];
        assert(grown =~= head + one + tail);
        assert(sorted.push(message) =~= head + tail + one);
        Seq::filter_distributes_over_add(head + one, tail, pred);
        Seq::filter_distributes_over_add(head, one, pred);
        Seq::filter_distributes_over_add(head + tail, one, pred);
        Seq::filter_distributes_over_add(head, tail, pred);
        if message.offset == offset {
            tail.lemma_all_neg_filter_empty(pred);
            assert(tail.filter(pred) =~= Seq::empty());
        } else {
            one.lemma_all_neg_filter_empty(pred);
            assert(one.filter(pred) =~= Seq::empty());
        }
        assert(grown.filter(pred) =~= sorted.push(message).filter(pred));
    }
}

/// Sorts records by falling offset. Records with one offset keep their order.
pub fn sort_newest_first(messages: Vec<KafkaMessage>) -> (sorted: Vec<KafkaMessage>)
    ensures
        is_newest_first_of(sorted@, messages@),
{
    let mut rest = messages;
    let mut sorted: Vec<KafkaMessage> = Vec::new();
    let ghost taken: Seq<KafkaMessage> = Seq::empty();
    assert(messages@ =~= taken + rest@);
    while rest.len() > 0
        invariant
            messages@ == taken + rest@,
            is_newest_first_of(sorted@, taken),
        decreases rest.len(),
    {
        let message = rest.remove(0);
        let at: usize = insertion_point(&sorted, message.offset);
        proof {
            lemma_insert_keeps_order(sorted@, at as int, message);
            assert forall|offset: i64|
                at_offset(sorted@.insert(at as int, message), offset) == at_offset(
                    taken.push(message),
                    offset,
                ) by {
                let pred = lies_at(offset);
                let one = seq![message];
                assert(sorted@.push(message) =~= sorted@ + one);
                assert(taken.push(message) =~= taken + one);
                Seq::filter_distributes_over_add(sorted@, one, pred);
                Seq::filter_distributes_over_add(taken, one, pred);
                assert(at_offset(sorted@, offset) == at_offset(taken, offset));
                assert(at_offset(sorted@.insert(at as int, message), offset) == at_offset(
                    sorted@.push(message),
                    offset,
                ));
            }
            to_multiset_insert(sorted@, at as int, message);
            to_multiset_build(taken, message);
            assert(messages@ =~= taken.push(message) + rest@);
            taken = taken.push(message);
        }
        sorted.insert(at, message);
    }
    assert(messages@ =~= taken);
    sorted
}

/// Runs a whole read over the outcomes of its polls, in the order in which
/// the consumer gave them: the records that the read returns. Outcomes behind
/// the one at which the read stops change nothing.
pub fn sample_from(max_messages: usize, outcomes: Vec<PollOutcome>) -> (messages: Vec<KafkaMessage>)
    ensures
        is_newest_first_of(
            messages@,
            SamplerState::initial(max_messages as nat).run(outcomes@).buffer,
        ),
        messages.len() <= max_messages,
{
    let mut rest = outcomes;
    let mut sampler = Sampler::new(max_messages);
    let ghost fed: Seq<PollOutcome> = Seq::empty();
    assert(outcomes@ =~= fed + rest@);
    while rest.len() > 0
        invariant
            outcomes@ == fed + rest@,
            sampler@ == SamplerState::initial(max_messages as nat).run(fed),
        decreases rest.len(),
    {
        let outcome = rest.remove(0);
        proof {
            assert(fed.push(outcome).drop_last() =~= fed);
            assert(outcomes@ =~= fed.push(outcome) + rest@);
            fed = fed.push(outcome);
        }
        let (next, _) = sampler.observe(outcome);
        sampler = next;
    }
    assert(outcomes@ =~= fed);
    proof {
        lemma_run_keeps_budget(max_messages as nat, outcomes@);
    }
    sampler.finish()
}

/// However the polls turn out, a read holds no more records than were asked
/// for, polls no more often than the attempt budget allows, and keeps the
/// budget it was started with.
pub proof fn lemma_run_keeps_budget(max_messages: nat, outcomes: Seq<PollOutcome>)
    ensures
        SamplerState::initial(max_messages).run(outcomes).within_bounds(),
        SamplerState::initial(max_messages).run(outcomes).max_messages == max_messages,
        SamplerState::initial(max_messages).run(outcomes).attempts <= outcomes.len(),
    decreases outcomes.len(),
{
    if outcomes.len() > 0 {
        lemma_run_keeps_budget(max_messages, outcomes.drop_last());
    }
}

/// A read that has stopped takes in nothing more.
pub proof fn lemma_stopped_read_stays(state: SamplerState, outcomes: Seq<PollOutcome>)
    requires
        !state.wants_poll(),
    ensures
        state.run(outcomes) == state,
    decreases outcomes.len(),
{
    if outcomes.len() > 0 {
        lemma_stopped_read_stays(state, outcomes.drop_last());
    }
}

/// The outcomes of polls that deliver `messages`, one after the other.
pub open spec fn deliveries(messages: Seq<KafkaMessage>) -> Seq<PollOutcome> {
    Seq::new(messages.len(), |i: int| PollOutcome::Delivered(messages[i]))
}

/// While the buffer and the attempt budget have room, every delivered record
/// is taken in, in the order of its delivery.
pub proof fn lemma_deliveries_are_taken_in(max_messages: nat, messages: Seq<KafkaMessage>)
    requires
        messages.len() <= max_messages,
        messages.len() <= MAX_POLL_ATTEMPTS,
    ensures
        SamplerState::initial(max_messages).run(deliveries(messages)) == (SamplerState {
            max_messages,
            attempts: messages.len(),
            drained: false,
            buffer: messages,
        }),
    decreases messages.len(),
{
    if messages.len() > 0 {
        lemma_deliveries_are_taken_in(max_messages, messages.drop_last());
        assert(deliveries(messages).drop_last() =~= deliveries(messages.drop_last()));
        assert(messages.drop_last().push(messages.last()) =~= messages);
    } else {
        assert(messages =~= Seq::empty());
    }
}

/// A topic that holds fewer records than were asked for is returned whole,
/// and the read ends with the first idle poll behind its last record: it
/// does not use up the attempt budget.
pub proof fn lemma_short_topic_ends_early(max_messages: nat, messages: Seq<KafkaMessage>)
    requires
        0 < messages.len() < max_messages,
        messages.len() < MAX_POLL_ATTEMPTS,
    ensures
        SamplerState::initial(max_messages).run(deliveries(messages).push(PollOutcome::Idle))
            == (SamplerState {
            max_messages,
            attempts: messages.len() + 1,
            drained: true,
            buffer: messages,
        }),
        !SamplerState::initial(max_messages).run(
            deliveries(messages).push(PollOutcome::Idle),
        ).wants_poll(),
{
    lemma_deliveries_are_taken_in(max_messages, messages);
    assert(deliveries(messages).push(PollOutcome::Idle).drop_last() =~= deliveries(messages));
}

/// A read of a topic that delivers nothing returns nothing, and stops when
/// the attempt budget is used up: it does not wait without bound.
pub proof fn lemma_empty_topic_gives_nothing(max_messages: nat, outcomes: Seq<PollOutcome>)
    requires
        forall|i: int| 0 <= i < outcomes.len() ==> !(outcomes[i] is Delivered),
    ensures
        SamplerState::initial(max_messages).run(outcomes) == (SamplerState {
            max_messages,
            attempts: if max_messages == 0 {
                0
            } else if outcomes.len() <= MAX_POLL_ATTEMPTS {
                outcomes.len()
            } else {
                MAX_POLL_ATTEMPTS as nat
            },
            drained: false,
            buffer: Seq::empty(),
        }),
        outcomes.len() >= MAX_POLL_ATTEMPTS ==> !SamplerState::initial(max_messages).run(
            outcomes,
        ).wants_poll(),
    decreases outcomes.len(),
{
    if outcomes.len() > 0 {
        lemma_empty_topic_gives_nothing(max_messages, outcomes.drop_last());
        assert(!(outcomes.last() is Delivered));
    }
}

} // verus!
