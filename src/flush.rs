//! When a client's buffered writes are forced out to the connection.
use vstd::prelude::*;

verus! {

/// The flush policy of a connection.
#[derive(Clone, Copy, Debug, PartialEq, Eq, Structural)]
pub enum FlushMode {
    /// Only the caller flushes.
    Manual,
    /// Flush before a write would take the buffered bytes over the bound,
    /// and when they reach it exactly.
    Bytes(u16),
    /// The same, counting each command as one, whatever its size.
    Commands(u16),
}

impl FlushMode {
    /// The bound on what is buffered, if the policy has one.
    pub open spec fn limit(self) -> Option<nat> {
        match self {
            FlushMode::Manual => None,
            FlushMode::Bytes(n) => Some(n as nat),
            FlushMode::Commands(n) => Some(n as nat),
        }
    }

    /// How much a command of `len` bytes counts toward the bound.
    pub open spec fn weight(self, len: nat) -> nat {
        match self {
            FlushMode::Commands(_) => 1,
            _ => len,
        }
    }
}

/// What a write of one command takes, as the policy decides it.
#[derive(Clone, Copy, Debug, PartialEq, Eq, Structural)]
pub struct WritePlan {
    /// Flush what is buffered before the command is written.
    pub flush_before: bool,
    /// Flush after the command is written.
    pub flush_after: bool,
}

/// Counts what was written since the last flush, under a flush policy.
#[derive(Clone, Copy, Debug)]
pub struct FlushCounter {
    mode: FlushMode,
    pending: usize,
}

impl FlushCounter {
    /// The policy.
    pub closed spec fn mode_spec(self) -> FlushMode {
        self.mode
    }

    /// What was counted since the last flush.
    pub closed spec fn pending_spec(self) -> nat {
        self.pending as nat
    }

    /// A counter with nothing pending.
    pub fn new(mode: FlushMode) -> (c: FlushCounter)
        ensures
            c.mode_spec() == mode,
            c.pending_spec() == 0,
    {
        FlushCounter { mode, pending: 0 }
    }

    /// The policy.
    pub fn mode(&self) -> (m: FlushMode)
        ensures
            m == self.mode_spec(),
    {
        self.mode
    }

    /// What was counted since the last flush.
    pub fn pending(&self) -> (n: usize)
        ensures
            n as nat == self.pending_spec(),
    {
        self.pending
    }

    /// Records a flush: nothing is pending after it.
    pub fn reset(&mut self)
        ensures
            final(self).mode_spec() == old(self).mode_spec(),
            final(self).pending_spec() == 0,
    {
        self.pending = 0;
    }

    /// Decides the flushes around a write of a command of `len` bytes, and
    /// counts the command as written with those flushes done.
    ///
    /// Under a bound `n`, a flush comes first when what is pending and the
    /// command together exceed `n`, and after the write when what is pending
    /// then equals `n`. Without a bound nothing is flushed or counted.
    pub fn plan(&mut self, len: usize) -> (p: WritePlan)
        ensures
            final(self).mode_spec() == old(self).mode_spec(),
            match old(self).mode_spec().limit() {
                None => {
                    &&& p == (WritePlan { flush_before: false, flush_after: false })
                    &&& final(self).pending_spec() == old(self).pending_spec()
                },
                Some(n) => {
                    let w = old(self).mode_spec().weight(len as nat);
                    let before = old(self).pending_spec() + w > n;
                    let counted = if before { w } else { old(self).pending_spec() + w };
                    &&& p.flush_before == before
                    &&& p.flush_after == (counted == n)
                    &&& final(self).pending_spec() == if counted == n { 0 } else { counted }
                },
            },
    {
        let (limit, weight): (usize, usize) = match self.mode {
            FlushMode::Manual => {
                return WritePlan { flush_before: false, flush_after: false };
            },
            FlushMode::Bytes(n) => (n as usize, len),
            FlushMode::Commands(n) => (n as usize, 1),
        };
        let flush_before = self.pending > limit || weight > limit - self.pending;
        if flush_before {
            self.pending = weight;
        } else {
            self.pending = self.pending + weight;
        }
        let flush_after = self.pending == limit;
        if flush_after {
            self.pending = 0;
        }
        WritePlan { flush_before, flush_after }
    }
}

} // verus!
