use vstd::prelude::*;

use std::collections::HashMap;
use std::collections::VecDeque;

use crate::command::Command;

verus! {

broadcast use vstd::std_specs::hash::group_hash_axioms;

/// The queue `q` with `command` appended to the commands of tick `tick`.
pub open spec fn queued(q: Map<u64, Seq<Command>>, tick: u64, command: Command) -> Map<
    u64,
    Seq<Command>,
> {
    q.insert(
        tick,
        if q.contains_key(tick) {
            q[tick]
        } else {
            Seq::empty()
        }.push(command),
    )
}

/// The micro-operations scheduled for future T-cycles, in the order they
/// were queued within each cycle.
pub struct ExecutionQueue {
    pub map: HashMap<u64, VecDeque<Command>>,
}

impl View for ExecutionQueue {
    type V = Map<u64, Seq<Command>>;

    open spec fn view(&self) -> Map<u64, Seq<Command>> {
        self.map@.map_values(|q: VecDeque<Command>| q@)
    }
}

impl ExecutionQueue {
    /// Create a new, empty execution queue.
    pub fn new() -> (q: ExecutionQueue)
        ensures
            q@ == Map::<u64, Seq<Command>>::empty(),
    {
        let q = ExecutionQueue { map: HashMap::new() };
        assert(q@ =~= Map::<u64, Seq<Command>>::empty());
        q
    }

    /// Push a command to a specific tick.
    pub fn push_command_absolute(&mut self, tick: u64, command: Command)
        ensures
            final(self)@ == queued(old(self)@, tick, command),
    {
        match self.map.remove(&tick) {
            Some(mut cmds) => {
                cmds.push_back(command);
                self.map.insert(tick, cmds);
            },
            None => {
                let mut cmds = VecDeque::new();
                cmds.push_back(command);
                self.map.insert(tick, cmds);
            },
        }
        assert(self@ =~= queued(old(self)@, tick, command));
    }

    /// Pop the queue at a specific tick.
    pub fn pop(&mut self, tick: &u64) -> (r: Option<VecDeque<Command>>)
        ensures
            final(self)@ == old(self)@.remove(*tick),
            match r {
                Some(cmds) => old(self)@.contains_key(*tick) && cmds@ == old(self)@[*tick],
                None => !old(self)@.contains_key(*tick),
            },
    {
        let r = self.map.remove(tick);
        assert(self@ =~= old(self)@.remove(*tick));
        r
    }

    /// Peek at the queue of a specific tick.
    pub fn peek(&self, tick: &u64) -> (r: Option<&VecDeque<Command>>)
        ensures
            match r {
                Some(cmds) => self@.contains_key(*tick) && cmds@ == self@[*tick],
                None => !self@.contains_key(*tick),
            },
    {
        self.map.get(tick)
    }
}

/// Commands queued for one tick come out in the order they were queued,
/// and queueing for one tick leaves the commands of every other tick alone.
pub proof fn law_queue_fifo(
    q: Map<u64, Seq<Command>>,
    tick: u64,
    other: u64,
    first: Command,
    second: Command,
)
    ensures
        queued(queued(q, tick, first), tick, second)[tick] == (if q.contains_key(tick) {
            q[tick]
        } else {
            Seq::empty()
        }) + seq![first, second],
        other != tick ==> queued(q, tick, first).contains_key(other) == q.contains_key(other),
        other != tick && q.contains_key(other) ==> queued(q, tick, first)[other] == q[other],
{
    let before = if q.contains_key(tick) {
        q[tick]
    } else {
        Seq::<Command>::empty()
    };
    assert(queued(queued(q, tick, first), tick, second)[tick] =~= before + seq![first, second]);
}

} // verus!
