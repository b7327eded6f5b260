use vstd::prelude::*;

use crate::model::ADDRESS_SPACE;

verus! {

/// Execution statistics a debugging collaborator can gather: how many
/// times each address was called, and how many instructions ran.  Counts
/// saturate instead of overflowing.
pub struct Statistics {
    calls: Vec<usize>,
    instructions: usize,
}

impl Statistics {
    /// How many calls were recorded for each 16-bit target address.
    pub closed spec fn call_counts(&self) -> Seq<usize> {
        self.calls@
    }

    /// How many instructions were recorded.
    pub closed spec fn instruction_count(&self) -> usize {
        self.instructions
    }

    /// Well-formedness: one call counter per address.
    pub open spec fn wf(&self) -> bool {
        self.call_counts().len() == ADDRESS_SPACE
    }

    /// Fresh statistics: all counters zero.
    pub fn new() -> (r: Statistics)
        ensures
            r.wf(),
            r.call_counts() =~= Seq::new(ADDRESS_SPACE as nat, |i: int| 0usize),
            r.instruction_count() == 0,
    {
        let mut calls: Vec<usize> = Vec::new();
        let mut i: usize = 0;
        while i < ADDRESS_SPACE
            invariant
                i <= ADDRESS_SPACE,
                calls@.len() == i,
                forall|j: int| 0 <= j < i ==> calls@[j] == 0usize,
            decreases ADDRESS_SPACE - i,
        {
            calls.push(0);
            i += 1;
        }
        Statistics { calls, instructions: 0 }
    }

    /// Counts one call of the target address `n`; the counter saturates
    /// rather than overflow.
    pub fn record_call(&mut self, n: u16)
        requires
            old(self).wf(),
        ensures
            final(self).wf(),
            final(self).call_counts() =~= old(self).call_counts().update(
                n as int,
                if old(self).call_counts()[n as int] < usize::MAX {
                    (old(self).call_counts()[n as int] + 1) as usize
                } else {
                    usize::MAX
                },
            ),
            final(self).instruction_count() == old(self).instruction_count(),
    {
        let i = n as usize;
        let c = self.calls[i];
        if c < usize::MAX {
            self.calls[i] = c + 1;
        } else {
            proof {
                assert(self.call_counts() =~= self.call_counts().update(n as int, usize::MAX));
            }
        }
    }

    /// The recorded call count for target address `n`.
    pub fn get_call_count(&self, n: u16) -> (r: usize)
        requires
            self.wf(),
        ensures
            r == self.call_counts()[n as int],
    {
        self.calls[n as usize]
    }

    /// The recorded instruction count.
    pub fn get_instruction_count(&self) -> (r: usize)
        ensures
            r == self.instruction_count(),
    {
        self.instructions
    }

    /// Counts one executed instruction; the counter saturates rather
    /// than overflow.
    pub fn record_instruction(&mut self)
        requires
            old(self).wf(),
        ensures
            final(self).wf(),
            final(self).call_counts() == old(self).call_counts(),
            final(self).instruction_count() == if old(self).instruction_count() < usize::MAX {
                (old(self).instruction_count() + 1) as usize
            } else {
                usize::MAX
            },
    {
        if self.instructions < usize::MAX {
            self.instructions = self.instructions + 1;
        }
    }
}

/// The state a debugging collaborator keeps between instruction
/// boundaries: the registered breakpoints, whether it wants control at
/// the next boundary, free-form address annotations, and statistics.
/// The interactive presentation itself belongs to the collaborator, not
/// to the core.
pub struct Debugger {
    pub breakpoints: Vec<u16>,
    pub enabled: bool,
    pub labels: Vec<(usize, String)>,
    pub stats: Statistics,
}

impl Debugger {
    /// Well-formedness: the statistics are well-formed.
    pub open spec fn wf(&self) -> bool {
        self.stats.wf()
    }

    /// A fresh debugger: no breakpoints, not enabled, no annotations,
    /// zero statistics.
    pub fn build() -> (r: Debugger)
        ensures
            r.wf(),
            r.breakpoints@ == Seq::<u16>::empty(),
            !r.enabled,
            r.labels@ == Seq::<(usize, String)>::empty(),
            r.stats.call_counts() =~= Seq::new(ADDRESS_SPACE as nat, |i: int| 0usize),
            r.stats.instruction_count() == 0,
    {
        Debugger {
            breakpoints: Vec::new(),
            enabled: false,
            labels: Vec::new(),
            stats: Statistics::new(),
        }
    }

    /// Enables the debugger if a breakpoint is registered for `ip`;
    /// otherwise leaves it as it was.
    pub fn check_for_breakpoints(&mut self, ip: usize)
        ensures
            final(self).enabled == (old(self).enabled || old(self).breakpoints@.contains(
                ((ip as int) % (ADDRESS_SPACE as int)) as u16,
            )),
            final(self).breakpoints == old(self).breakpoints,
            final(self).labels == old(self).labels,
            final(self).stats == old(self).stats,
    {
        let target = (ip % ADDRESS_SPACE) as u16;
        let mut i: usize = 0;
        while i < self.breakpoints.len()
            invariant
                target == ((ip as int) % (ADDRESS_SPACE as int)) as u16,
                i <= self.breakpoints@.len(),
                forall|j: int| 0 <= j < i ==> self.breakpoints@[j] != target,
                *self == *old(self),
            decreases self.breakpoints@.len() - i,
        {
            if self.breakpoints[i] == target {
                proof {
                    assert(old(self).breakpoints@[i as int] == target);
                    assert(old(self).breakpoints@.contains(target));
                }
                self.enabled = true;
                return ;
            }
            i += 1;
        }
        proof {
            if old(self).breakpoints@.contains(target) {
                let j = choose|j: int|
                    0 <= j < old(self).breakpoints@.len() && old(self).breakpoints@[j] == target;
                assert(old(self).breakpoints@[j] == target);
            }
        }
    }

    /// Registers a breakpoint at `address`; registering one twice keeps
    /// a single entry.
    pub fn register_breakpoint(&mut self, address: u16)
        ensures
            final(self).breakpoints@ == if old(self).breakpoints@.contains(address) {
                old(self).breakpoints@
            } else {
                old(self).breakpoints@.push(address)
            },
            final(self).breakpoints@.contains(address),
            final(self).enabled == old(self).enabled,
            final(self).labels == old(self).labels,
            final(self).stats == old(self).stats,
    {
        let mut i: usize = 0;
        while i < self.breakpoints.len()
            invariant
                i <= self.breakpoints@.len(),
                forall|j: int| 0 <= j < i ==> self.breakpoints@[j] != address,
                *self == *old(self),
            decreases self.breakpoints@.len() - i,
        {
            if self.breakpoints[i] == address {
                proof {
                    assert(old(self).breakpoints@.contains(address));
                }
                return ;
            }
            i += 1;
        }
        self.breakpoints.push(address);
        proof {
            assert(self.breakpoints@.last() == address);
            assert(self.breakpoints@.contains(address));
        }
    }

    /// Hands control to the debugger at the next instruction boundary.
    pub fn enable(&mut self)
        ensures
            final(self).enabled,
            final(self).breakpoints == old(self).breakpoints,
            final(self).labels == old(self).labels,
            final(self).stats == old(self).stats,
    {
        self.enabled = true;
    }
}

} // verus!
