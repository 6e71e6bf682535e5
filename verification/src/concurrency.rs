//! What workers share: a counter that is raised one guarded step at a time,
//! and a channel that hands messages over first in, first out.
//!
//! The types here hold the state and the rules. They know nothing of
//! threads: whoever runs workers side by side puts the counter behind a lock
//! and makes each step while holding it, so that the steps happen one after
//! another, in some order, as the functions here describe them.

use std::collections::VecDeque;
use vstd::prelude::*;

verus! {

/// A counter that workers share. Each worker raises it by one while it
/// alone has access.
pub struct SharedCounter {
    value: u64,
}

/// What one guarded increment makes of the counter's value.
pub open spec fn incremented(value: nat) -> nat {
    value + 1
}

impl SharedCounter {
    /// The number the counter stands at.
    pub closed spec fn view(&self) -> nat {
        self.value as nat
    }

    /// A counter at zero.
    pub fn new() -> (counter: SharedCounter)
        ensures
            counter@ == 0,
    {
        SharedCounter { value: 0 }
    }

    /// One guarded increment: the step that a worker makes while it holds
    /// the counter.
    pub fn increment(&mut self)
        requires
            old(self)@ < u64::MAX,
        ensures
            final(self)@ == incremented(old(self)@),
    {
        self.value = self.value + 1;
    }

    /// The number the counter stands at.
    pub fn value(&self) -> (value: u64)
        ensures
            value == self@,
    {
        self.value
    }
}

/// What a turn did for the worker that took it.
#[derive(Debug, PartialEq, Eq, Copy, Clone, Structural)]
pub enum Turn {
    /// The worker found the counter free and has it for itself now.
    Locked,
    /// Another worker has the counter: this one has to wait.
    Blocked,
    /// The worker, who had the counter, raised it and let go of it. Its
    /// work is done.
    Counted,
    /// The worker had done its work before.
    Idle,
}

/// The state of a group of workers who share a counter behind a lock, as
/// the contracts see it.
pub struct Shift {
    /// The value of the counter.
    pub count: nat,
    /// The worker who holds the lock, if one does.
    pub holder: Option<int>,
    /// For each worker, whether it has made its increment and let go.
    pub finished: Seq<bool>,
}

/// How many of the workers have finished.
pub open spec fn finished_count(finished: Seq<bool>) -> nat
    decreases finished.len(),
{
    if finished.len() == 0 {
        0
    } else if finished.last() {
        finished_count(finished.drop_last()) + 1
    } else {
        finished_count(finished.drop_last())
    }
}

impl Shift {
    /// The start of a shift: `workers` workers, none finished, the counter
    /// free and at zero.
    pub open spec fn start(workers: nat) -> Shift {
        Shift { count: 0, holder: None, finished: Seq::new(workers, |i: int| false) }
    }

    /// The counter stands at the number of workers who have finished, and
    /// who holds the lock is a worker who has not.
    pub open spec fn well_formed(self) -> bool {
        &&& self.count == finished_count(self.finished)
        &&& self.holder matches Some(h) ==> 0 <= h < self.finished.len() && !self.finished[h]
    }

    /// Every worker has finished.
    pub open spec fn all_finished(self) -> bool {
        forall|i: int| 0 <= i < self.finished.len() ==> self.finished[i]
    }

    /// What a turn does for `worker`.
    pub open spec fn turn_of(self, worker: int) -> Turn {
        if self.finished[worker] {
            Turn::Idle
        } else if self.holder == Some(worker) {
            Turn::Counted
        } else if self.holder is None {
            Turn::Locked
        } else {
            Turn::Blocked
        }
    }

    /// The state after `worker` took a turn: a worker who finds the counter
    /// free locks it; the worker who holds it makes one guarded increment,
    /// unlocks and is finished; for anyone else nothing changes.
    pub open spec fn after_turn(self, worker: int) -> Shift {
        match self.turn_of(worker) {
            Turn::Locked => Shift { holder: Some(worker), ..self },
            Turn::Counted => Shift {
                count: incremented(self.count),
                holder: None,
                finished: self.finished.update(worker, true),
            },
            _ => self,
        }
    }

    /// The state after the workers took their turns in the order of
    /// `schedule`.
    pub open spec fn after_schedule(self, schedule: Seq<usize>) -> Shift
        decreases schedule.len(),
    {
        if schedule.len() == 0 {
            self
        } else {
            self.after_schedule(schedule.drop_last()).after_turn(schedule.last() as int)
        }
    }
}

/// One more worker has finished once a worker who had not finished does.
pub proof fn lemma_finishing_counts(finished: Seq<bool>, worker: int)
    requires
        0 <= worker < finished.len(),
        !finished[worker],
    ensures
        finished_count(finished.update(worker, true)) == finished_count(finished) + 1,
        finished_count(finished) < finished.len(),
    decreases finished.len(),
{
    let after = finished.update(worker, true);
    if worker == finished.len() - 1 {
        assert(after.drop_last() =~= finished.drop_last());
        lemma_finished_count_bound(finished.drop_last());
    } else {
        assert(after.drop_last() =~= finished.drop_last().update(worker, true));
        lemma_finishing_counts(finished.drop_last(), worker);
    }
}

/// No more workers have finished than there are, and if all have finished,
/// as many.
pub proof fn lemma_finished_count_bound(finished: Seq<bool>)
    ensures
        finished_count(finished) <= finished.len(),
        (forall|i: int| 0 <= i < finished.len() ==> finished[i]) ==> finished_count(finished)
            == finished.len(),
    decreases finished.len(),
{
    if finished.len() > 0 {
        lemma_finished_count_bound(finished.drop_last());
        if forall|i: int| 0 <= i < finished.len() ==> finished[i] {
            assert forall|i: int| 0 <= i < finished.drop_last().len() implies finished.drop_last()[i] by {
                assert(finished.drop_last()[i] == finished[i]);
            }
        }
    }
}

/// A shift starts well formed, and no turn of any worker changes that.
pub proof fn lemma_turns_keep_well_formed(shift: Shift, worker: int)
    requires
        shift.well_formed(),
        0 <= worker < shift.finished.len(),
    ensures
        Shift::start(shift.finished.len()).well_formed(),
        shift.after_turn(worker).well_formed(),
        shift.after_turn(worker).finished.len() == shift.finished.len(),
{
    lemma_nobody_finished_at_start(shift.finished.len());
    if shift.turn_of(worker) == Turn::Counted {
        lemma_finishing_counts(shift.finished, worker);
    }
}

/// At the start of a shift nobody has finished.
proof fn lemma_nobody_finished_at_start(workers: nat)
    ensures
        finished_count(Seq::new(workers, |i: int| false)) == 0,
    decreases workers,
{
    if workers > 0 {
        assert(Seq::new(workers, |i: int| false).drop_last() =~= Seq::new(
            (workers - 1) as nat,
            |i: int| false,
        ));
        lemma_nobody_finished_at_start((workers - 1) as nat);
    }
}

/// Whatever the order in which the workers take their turns, the shift
/// stays well formed and keeps its workers.
pub proof fn lemma_schedules_keep_well_formed(shift: Shift, schedule: Seq<usize>)
    requires
        shift.well_formed(),
        forall|i: int| 0 <= i < schedule.len() ==> schedule[i] < shift.finished.len(),
    ensures
        shift.after_schedule(schedule).well_formed(),
        shift.after_schedule(schedule).finished.len() == shift.finished.len(),
    decreases schedule.len(),
{
    if schedule.len() > 0 {
        lemma_schedules_keep_well_formed(shift, schedule.drop_last());
        lemma_turns_keep_well_formed(
            shift.after_schedule(schedule.drop_last()),
            schedule.last() as int,
        );
    }
}

/// No increment is lost: however the turns of `workers` workers were
/// ordered, once all of them have finished the counter that started at zero
/// stands at `workers`.
pub proof fn lemma_no_increment_is_lost(workers: nat, schedule: Seq<usize>)
    requires
        forall|i: int| 0 <= i < schedule.len() ==> schedule[i] < workers,
        Shift::start(workers).after_schedule(schedule).all_finished(),
    ensures
        Shift::start(workers).after_schedule(schedule).count == workers,
{
    let start = Shift::start(workers);
    lemma_nobody_finished_at_start(workers);
    lemma_schedules_keep_well_formed(start, schedule);
    lemma_finished_count_bound(start.after_schedule(schedule).finished);
}

/// A group of workers who share a counter behind a lock. Each worker makes
/// one increment: it takes the lock when the lock is free, and raises the
/// counter and lets go on its next turn.
pub struct Workers {
    counter: SharedCounter,
    holder: Option<usize>,
    finished: Vec<bool>,
}

impl Workers {
    /// The state of the group.
    pub closed spec fn view(&self) -> Shift {
        Shift {
            count: self.counter@,
            holder: match self.holder {
                Some(h) => Some(h as int),
                None => None,
            },
            finished: self.finished@,
        }
    }

    /// `workers` workers at the start of their shift.
    pub fn new(workers: usize) -> (group: Workers)
        ensures
            group@ == Shift::start(workers as nat),
            group@.well_formed(),
    {
        let mut finished: Vec<bool> = Vec::new();
        let mut i: usize = 0;
        while i < workers
            invariant
                i <= workers,
                finished@ == Seq::new(i as nat, |k: int| false),
            decreases workers - i,
        {
            finished.push(false);
            assert(finished@ =~= Seq::new((i + 1) as nat, |k: int| false));
            i = i + 1;
        }
        proof {
            lemma_nobody_finished_at_start(workers as nat);
        }
        Workers { counter: SharedCounter::new(), holder: None, finished }
    }

    /// Gives `worker` a turn and says what the turn did.
    pub fn take_turn(&mut self, worker: usize) -> (turn: Turn)
        requires
            old(self)@.well_formed(),
            worker < old(self)@.finished.len(),
        ensures
            turn == old(self)@.turn_of(worker as int),
            final(self)@ == old(self)@.after_turn(worker as int),
            final(self)@.well_formed(),
    {
        proof {
            lemma_turns_keep_well_formed(self@, worker as int);
        }
        if self.finished[worker] {
            return Turn::Idle;
        }
        match self.holder {
            None => {
                self.holder = Some(worker);
                Turn::Locked
            },
            Some(holder) => {
                if holder == worker {
                    proof {
                        lemma_finishing_counts(self.finished@, worker as int);
                        assert(self.counter@ < self.finished.len() <= u64::MAX);
                    }
                    self.counter.increment();
                    self.holder = None;
                    self.finished.set(worker, true);
                    Turn::Counted
                } else {
                    Turn::Blocked
                }
            },
        }
    }

    /// Waits for the workers: the value of the counter once every worker
    /// has finished, which is then the number of workers; nothing as long
    /// as one has not.
    pub fn join(&self) -> (total: Option<u64>)
        requires
            self@.well_formed(),
        ensures
            total == (if self@.all_finished() {
                Some(self@.finished.len() as u64)
            } else {
                None
            }),
            total matches Some(n) ==> n == self@.finished.len() && n == self@.count,
    {
        let mut i: usize = 0;
        while i < self.finished.len()
            invariant
                i <= self.finished@.len(),
                forall|k: int| 0 <= k < i ==> self.finished@[k],
            decreases self.finished@.len() - i,
        {
            if !self.finished[i] {
                return None;
            }
            i = i + 1;
        }
        proof {
            lemma_finished_count_bound(self.finished@);
        }
        Some(self.counter.value())
    }
}

/// Lets `workers` workers take their turns in the order of `schedule` and
/// then waits for them. The result is the value of the counter if the
/// schedule let every worker finish, and nothing otherwise.
pub fn run_schedule(workers: usize, schedule: &Vec<usize>) -> (total: Option<u64>)
    requires
        forall|i: int| 0 <= i < schedule@.len() ==> schedule@[i] < workers,
    ensures
        total == (if Shift::start(workers as nat).after_schedule(schedule@).all_finished() {
            Some(workers as u64)
        } else {
            None
        }),
{
    let mut group = Workers::new(workers);
    let mut i: usize = 0;
    proof {
        assert(schedule@.take(0) =~= Seq::<usize>::empty());
    }
    while i < schedule.len()
        invariant
            i <= schedule@.len(),
            forall|k: int| 0 <= k < schedule@.len() ==> schedule@[k] < workers,
            group@ == Shift::start(workers as nat).after_schedule(schedule@.take(i as int)),
            group@.well_formed(),
            group@.finished.len() == workers,
        decreases schedule@.len() - i,
    {
        proof {
            assert(schedule@.take(i + 1).drop_last() =~= schedule@.take(i as int));
            lemma_turns_keep_well_formed(group@, schedule@[i as int] as int);
        }
        group.take_turn(schedule[i]);
        i = i + 1;
    }
    proof {
        assert(schedule@.take(i as int) =~= schedule@);
    }
    group.join()
}

/// Lets `workers` workers make their increment one after another, waits for
/// all of them and reads the counter: it stands at `workers`.
pub fn count_workers(workers: usize) -> (total: u64)
    ensures
        total == workers,
{
    let mut group = Workers::new(workers);
    let mut worker: usize = 0;
    while worker < workers
        invariant
            worker <= workers,
            group@.well_formed(),
            group@.holder is None,
            group@.finished == Seq::new(workers as nat, |i: int| i < worker),
        decreases workers - worker,
    {
        group.take_turn(worker);
        group.take_turn(worker);
        assert(group@.finished =~= Seq::new(workers as nat, |i: int| i < worker + 1));
        worker = worker + 1;
    }
    let total = group.join();
    assert(group@.all_finished());
    total.unwrap()
}

/// What a receiver gets when it asks a channel for the next message.
#[derive(Debug)]
pub enum Received<T> {
    /// The next message.
    Message(T),
    /// No message is waiting, but a sender is still there: one may come.
    Nothing,
    /// No message is waiting and no sender is left: none will come.
    Closed,
}

/// A channel from any number of senders to one receiver. Messages leave in
/// the order in which they came in; none is lost and none comes twice.
pub struct Channel<T> {
    waiting: VecDeque<T>,
    senders: usize,
    sent: Ghost<Seq<T>>,
    delivered: Ghost<Seq<T>>,
}

impl<T> Channel<T> {
    /// Every message sent so far, in the order of sending.
    pub closed spec fn sent(&self) -> Seq<T> {
        self.sent@
    }

    /// Every message handed to the receiver so far, in the order of
    /// receiving.
    pub closed spec fn delivered(&self) -> Seq<T> {
        self.delivered@
    }

    /// The messages that were sent and wait to be received.
    pub closed spec fn waiting(&self) -> Seq<T> {
        self.waiting@
    }

    /// How many senders there are.
    pub closed spec fn senders(&self) -> nat {
        self.senders as nat
    }

    /// The channel has lost nothing and made nothing up: what was sent is
    /// what was delivered followed by what waits.
    pub open spec fn well_formed(&self) -> bool {
        self.sent() == self.delivered() + self.waiting()
    }

    /// A new channel with one sender and no message.
    pub fn new() -> (channel: Channel<T>)
        ensures
            channel.well_formed(),
            channel.sent() == Seq::<T>::empty(),
            channel.delivered() == Seq::<T>::empty(),
            channel.senders() == 1,
    {
        Channel {
            waiting: VecDeque::new(),
            senders: 1,
            sent: Ghost(Seq::empty()),
            delivered: Ghost(Seq::empty()),
        }
    }

    /// One more sender.
    pub fn clone_sender(&mut self)
        requires
            old(self).well_formed(),
            old(self).senders() < usize::MAX,
        ensures
            final(self).well_formed(),
            final(self).senders() == old(self).senders() + 1,
            final(self).sent() == old(self).sent(),
            final(self).delivered() == old(self).delivered(),
            final(self).waiting() == old(self).waiting(),
    {
        self.senders = self.senders + 1;
    }

    /// One sender less. Without senders the channel is closed once the
    /// waiting messages are received.
    pub fn drop_sender(&mut self)
        requires
            old(self).well_formed(),
            old(self).senders() > 0,
        ensures
            final(self).well_formed(),
            final(self).senders() == old(self).senders() - 1,
            final(self).sent() == old(self).sent(),
            final(self).delivered() == old(self).delivered(),
            final(self).waiting() == old(self).waiting(),
    {
        self.senders = self.senders - 1;
    }

    /// Sends `message`: it waits behind the messages sent before it.
    pub fn send(&mut self, message: T)
        requires
            old(self).well_formed(),
            old(self).senders() > 0,
        ensures
            final(self).well_formed(),
            final(self).sent() == old(self).sent().push(message),
            final(self).waiting() == old(self).waiting().push(message),
            final(self).delivered() == old(self).delivered(),
            final(self).senders() == old(self).senders(),
    {
        proof {
            self.sent@ = self.sent@.push(message);
        }
        self.waiting.push_back(message);
        assert(self.sent@ =~= self.delivered@ + self.waiting@);
    }

    /// Asks for the next message: the one that has waited longest, if any
    /// waits; else the news whether one may still come.
    pub fn recv(&mut self) -> (received: Received<T>)
        requires
            old(self).well_formed(),
        ensures
            final(self).well_formed(),
            final(self).sent() == old(self).sent(),
            final(self).senders() == old(self).senders(),
            old(self).waiting().len() > 0 ==> {
                &&& received == Received::Message(old(self).waiting()[0])
                &&& final(self).delivered() == old(self).delivered().push(old(self).waiting()[0])
                &&& final(self).waiting() == old(self).waiting().drop_first()
            },
            old(self).waiting().len() == 0 ==> {
                &&& received == (if old(self).senders() == 0 {
                    Received::<T>::Closed
                } else {
                    Received::<T>::Nothing
                })
                &&& final(self).delivered() == old(self).delivered()
                &&& final(self).waiting() == old(self).waiting()
            },
    {
        match self.waiting.pop_front() {
            Some(message) => {
                proof {
                    self.delivered@ = self.delivered@.push(message);
                }
                assert(self.sent@ =~= self.delivered@ + self.waiting@);
                Received::Message(message)
            },
            None => {
                if self.senders == 0 {
                    Received::Closed
                } else {
                    Received::Nothing
                }
            },
        }
    }

    /// The receiver's loop on a channel that no sender is left of: receives
    /// until the channel is closed and returns the messages in the order in
    /// which they came. Afterwards everything that was ever sent has been
    /// delivered.
    pub fn drain(&mut self) -> (messages: Vec<T>)
        requires
            old(self).well_formed(),
            old(self).senders() == 0,
        ensures
            final(self).well_formed(),
            messages@ == old(self).waiting(),
            final(self).delivered() == old(self).sent(),
            final(self).sent() == old(self).sent(),
            final(self).waiting() == Seq::<T>::empty(),
            final(self).senders() == 0,
    {
        let mut messages: Vec<T> = Vec::new();
        loop
            invariant
                self.well_formed(),
                self.senders() == 0,
                self.sent() == old(self).sent(),
                messages@ + self.waiting() == old(self).waiting(),
                self.delivered() == old(self).delivered() + messages@,
            ensures
                self.well_formed(),
                self.senders() == 0,
                self.sent() == old(self).sent(),
                self.waiting() == Seq::<T>::empty(),
                messages@ == old(self).waiting(),
                self.delivered() == old(self).sent(),
            decreases self.waiting().len(),
        {
            let ghost before = self.waiting();
            match self.recv() {
                Received::Message(message) => {
                    messages.push(message);
                    proof {
                        assert(self.waiting() =~= before.drop_first());
                        assert(messages@ + self.waiting() =~= old(self).waiting());
                        assert(self.delivered() =~= old(self).delivered() + messages@);
                    }
                },
                _ => {
                    proof {
                        assert(before.len() == 0);
                        assert(messages@ =~= old(self).waiting());
                        assert(self.delivered() =~= old(self).sent());
                    }
                    break ;
                },
            }
        }
        messages
    }
}

/// Messages arrive in the order of sending: what the receiver has got so
/// far is the beginning of what was sent, as long as it is.
pub proof fn lemma_delivered_in_order<T>(channel: Channel<T>)
    requires
        channel.well_formed(),
    ensures
        channel.delivered().len() <= channel.sent().len(),
        channel.delivered() == channel.sent().take(channel.delivered().len() as int),
{
    assert(channel.sent().take(channel.delivered().len() as int) =~= channel.delivered());
}

/// Each sender's messages arrive in the order in which that sender sent
/// them, however the messages of several senders mix: for any way `by` of
/// telling one sender's messages from the rest, those delivered are the
/// beginning of those sent.
pub proof fn lemma_delivered_in_order_per_sender<T>(channel: Channel<T>, by: spec_fn(T) -> bool)
    requires
        channel.well_formed(),
    ensures
        channel.sent().filter(by) == channel.delivered().filter(by) + channel.waiting().filter(by),
{
    Seq::filter_distributes_over_add(channel.delivered(), channel.waiting(), by);
}

} // verus!
