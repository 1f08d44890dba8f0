//! What is in flight: at most one mint cycle, and at most one withdrawal for
//! each caller.
//!
//! The host may start an operation while another waits for an answer. An
//! operation that reads state, waits, and then writes takes its place here
//! before the first wait and gives it up on every way out.

use vstd::prelude::*;

verus! {

/// The operations in flight.
#[derive(Debug)]
pub struct InFlight {
    minting: bool,
    withdrawing: Vec<String>,
}

impl InFlight {
    /// Whether a mint cycle is in flight.
    pub closed spec fn minting(self) -> bool {
        self.minting
    }

    /// The callers with a withdrawal in flight.
    pub closed spec fn callers(self) -> Set<Seq<char>> {
        Set::new(|caller: Seq<char>| holds(self.withdrawing@, caller))
    }

    /// Nothing in flight.
    pub fn new() -> (idle: InFlight)
        ensures
            !idle.minting(),
            idle.callers() == Set::<Seq<char>>::empty(),
    {
        let idle = InFlight { minting: false, withdrawing: Vec::new() };
        assert(idle.callers() =~= Set::<Seq<char>>::empty());
        idle
    }

    /// Takes the place of the mint cycle, if it is free, and says whether it
    /// was.
    pub fn begin_mint(&mut self) -> (started: bool)
        ensures
            started == !old(self).minting(),
            final(self).minting(),
            final(self).callers() == old(self).callers(),
    {
        let started = !self.minting;
        self.minting = true;
        started
    }

    /// Gives up the place of the mint cycle.
    pub fn end_mint(&mut self)
        ensures
            !final(self).minting(),
            final(self).callers() == old(self).callers(),
    {
        self.minting = false;
    }

    /// Whether `caller` has a withdrawal in flight.
    pub fn is_withdrawing(&self, caller: &str) -> (busy: bool)
        ensures
            busy == self.callers().contains(caller@),
    {
        let name = caller.to_owned();
        let mut i: usize = 0;
        while i < self.withdrawing.len()
            invariant
                i <= self.withdrawing@.len(),
                name@ == caller@,
                forall|j: int| 0 <= j < i ==> (#[trigger] self.withdrawing@[j])@ != caller@,
            decreases self.withdrawing@.len() - i,
        {
            if self.withdrawing[i] == name {
                assert(holds(self.withdrawing@, caller@));
                return true;
            }
            i += 1;
        }
        false
    }

    /// Takes the place of `caller`'s withdrawal, if it is free, and says
    /// whether it was.
    pub fn begin_withdrawal(&mut self, caller: &str) -> (started: bool)
        ensures
            started == !old(self).callers().contains(caller@),
            final(self).callers() == old(self).callers().insert(caller@),
            final(self).minting() == old(self).minting(),
    {
        if self.is_withdrawing(caller) {
            assert(self.callers().insert(caller@) =~= self.callers());
            return false;
        }
        let ghost before = self.withdrawing@;
        self.withdrawing.push(caller.to_owned());
        proof {
            let after = self.withdrawing@;
            assert forall|c: Seq<char>| holds(after, c) <==> (holds(before, c) || c == caller@) by {
                if holds(before, c) {
                    let j = choose|j: int| 0 <= j < before.len() && (#[trigger] before[j])@ == c;
                    assert(after[j]@ == c);
                }
                if c == caller@ {
                    assert(after[before.len() as int]@ == c);
                }
                if holds(after, c) {
                    let j = choose|j: int| 0 <= j < after.len() && (#[trigger] after[j])@ == c;
                    if j < before.len() {
                        assert(before[j]@ == c);
                    }
                }
            }
            assert(self.callers() =~= old(self).callers().insert(caller@));
        }
        true
    }

    /// Gives up the place of `caller`'s withdrawal.
    pub fn end_withdrawal(&mut self, caller: &str)
        ensures
            final(self).callers() == old(self).callers().remove(caller@),
            final(self).minting() == old(self).minting(),
    {
        let name = caller.to_owned();
        let mut kept: Vec<String> = Vec::new();
        let mut i: usize = 0;
        while i < self.withdrawing.len()
            invariant
                i <= self.withdrawing@.len(),
                name@ == caller@,
                forall|c: Seq<char>|
                    holds(kept@, c) <==> (c != caller@ && holds(
                        self.withdrawing@.subrange(0, i as int),
                        c,
                    )),
            decreases self.withdrawing@.len() - i,
        {
            let ghost seen = self.withdrawing@.subrange(0, i as int);
            let ghost next = self.withdrawing@.subrange(0, i + 1);
            let ghost entry = self.withdrawing@[i as int]@;
            let ghost kept_before = kept@;
            if self.withdrawing[i] != name {
                kept.push(self.withdrawing[i].clone());
            }
            proof {
                let kept_after = kept@;
                assert forall|c: Seq<char>|
                    holds(kept_after, c) <==> (c != caller@ && holds(next, c)) by {
                    if holds(kept_after, c) {
                        let j = choose|j: int|
                            0 <= j < kept_after.len() && (#[trigger] kept_after[j])@ == c;
                        if j < kept_before.len() {
                            assert(kept_before[j]@ == c);
                            assert(holds(kept_before, c));
                            let k = choose|k: int| 0 <= k < seen.len() && (#[trigger] seen[k])@ == c;
                            assert(next[k]@ == c);
                        } else {
                            assert(c == entry);
                            assert(next[i as int]@ == c);
                        }
                    }
                    if c != caller@ && holds(next, c) {
                        let k = choose|k: int| 0 <= k < next.len() && (#[trigger] next[k])@ == c;
                        if k < i {
                            assert(seen[k]@ == c);
                            assert(holds(kept_before, c));
                            let j = choose|j: int|
                                0 <= j < kept_before.len() && (#[trigger] kept_before[j])@ == c;
                            assert(kept_after[j]@ == c);
                        } else {
                            assert(c == entry);
                            assert(kept_after[kept_before.len() as int]@ == c);
                        }
                    }
                }
            }
            i += 1;
        }
        proof {
            assert(self.withdrawing@.subrange(0, i as int) =~= self.withdrawing@);
        }
        let ghost before = self.callers();
        self.withdrawing = kept;
        assert(self.callers() =~= before.remove(caller@));
    }
}

/// Whether some entry of `entries` reads `caller`.
pub open spec fn holds(entries: Seq<String>, caller: Seq<char>) -> bool {
    exists|i: int| 0 <= i < entries.len() && (#[trigger] entries[i])@ == caller
}

} // verus!
