//! The founders' revenue pool: a roster of at most sixty founders, the fees
//! collected for them, and what each has claimed.
use vstd::prelude::*;
use crate::errors::CustomError;
use crate::identity::Identity;

verus! {

/// Most founders the roster holds.
pub const MAX_FOUNDERS: usize = 60;

/// Each founder is entitled to this fraction of all collected fees, however
/// many founders the roster holds.
pub const ENTITLEMENT_DIVISOR: u64 = 60;

/// What one founder may have claimed in all, given the fees collected.
pub open spec fn entitlement(total_collected: u64) -> u64 {
    (total_collected / ENTITLEMENT_DIVISOR) as u64
}

/// The roster is distinct and within its cap, each founder has a claimed
/// amount, and no founder has claimed more than the entitlement.
pub open spec fn parts_wf(total: u64, roster: Seq<Identity>, claimed: Seq<u64>) -> bool {
    &&& roster.len() == claimed.len()
    &&& roster.len() <= MAX_FOUNDERS
    &&& forall|i: int, j: int| 0 <= i < j < roster.len() ==> roster[i] != roster[j]
    &&& forall|i: int| 0 <= i < claimed.len() ==> claimed[i] <= entitlement(total)
}

pub struct FoundersPool {
    total_collected: u64,
    founders: Vec<Identity>,
    claim_status: Vec<u64>,
}

impl FoundersPool {
    /// Fees collected for the founders so far.
    pub closed spec fn total(&self) -> u64 {
        self.total_collected
    }

    /// The founders, in the order they were added.
    pub closed spec fn roster(&self) -> Seq<Identity> {
        self.founders@
    }

    /// What each founder, by roster position, has claimed.
    pub closed spec fn claimed(&self) -> Seq<u64> {
        self.claim_status@
    }

    pub open spec fn wf(&self) -> bool {
        parts_wf(self.total(), self.roster(), self.claimed())
    }

    /// Rebuilds a pool from its stored parts; `None` unless they form a
    /// well-formed pool.
    pub fn from_parts(total_collected: u64, founders: Vec<Identity>, claim_status: Vec<u64>) -> (r:
        Option<FoundersPool>)
        ensures
            match r {
                Some(p) => p.wf() && p.total() == total_collected && p.roster() == founders@
                    && p.claimed() == claim_status@,
                None => !parts_wf(total_collected, founders@, claim_status@),
            },
    {
        if founders.len() != claim_status.len() || founders.len() > MAX_FOUNDERS {
            return None;
        }
        let share = total_collected / ENTITLEMENT_DIVISOR;
        let mut i: usize = 0;
        while i < founders.len()
            invariant
                founders@.len() == claim_status@.len() <= MAX_FOUNDERS,
                share == entitlement(total_collected),
                i <= founders@.len(),
                forall|a: int, b: int| 0 <= a < b < i ==> founders@[a] != founders@[b],
                forall|a: int| 0 <= a < i ==> claim_status@[a] <= share,
            decreases founders@.len() - i,
        {
            if claim_status[i] > share {
                return None;
            }
            let mut j: usize = 0;
            while j < i
                invariant
                    i < founders@.len(),
                    j <= i,
                    forall|b: int| 0 <= b < j ==> founders@[b] != founders@[i as int],
                decreases i - j,
            {
                if founders[j] == founders[i] {
                    return None;
                }
                j += 1;
            }
            i += 1;
        }
        Some(FoundersPool { total_collected, founders, claim_status })
    }

    /// The stored parts: collected total, roster, and claimed amounts.
    pub fn into_parts(self) -> (r: (u64, Vec<Identity>, Vec<u64>))
        ensures
            r.0 == self.total(),
            r.1@ == self.roster(),
            r.2@ == self.claimed(),
    {
        (self.total_collected, self.founders, self.claim_status)
    }

    /// An empty roster with nothing collected.
    pub fn initialize_founders_pool() -> (r: FoundersPool)
        ensures
            r.wf(),
            r.total() == 0,
            r.roster() == Seq::<Identity>::empty(),
            r.claimed() == Seq::<u64>::empty(),
    {
        FoundersPool { total_collected: 0, founders: Vec::new(), claim_status: Vec::new() }
    }

    pub fn total_collected(&self) -> (r: u64)
        ensures
            r == self.total(),
    {
        self.total_collected
    }

    pub fn founder_count(&self) -> (r: u8)
        requires
            self.wf(),
        ensures
            r == self.roster().len(),
    {
        self.founders.len() as u8
    }

    /// The roster position of `founder`, if on the roster.
    pub fn find_founder(&self, founder: Identity) -> (r: Option<usize>)
        requires
            self.wf(),
        ensures
            match r {
                Some(i) => i < self.roster().len() && self.roster()[i as int] == founder,
                None => !self.roster().contains(founder),
            },
    {
        let mut i: usize = 0;
        while i < self.founders.len()
            invariant
                i <= self.founders@.len(),
                forall|k: int| 0 <= k < i ==> self.founders@[k] != founder,
            decreases self.founders@.len() - i,
        {
            if self.founders[i] == founder {
                return Some(i);
            }
            i += 1;
        }
        None
    }

    /// What `founder` has claimed so far; `None` if not on the roster.
    pub fn claimed_by(&self, founder: Identity) -> (r: Option<u64>)
        requires
            self.wf(),
        ensures
            match r {
                Some(c) => exists|i: int|
                    0 <= i < self.roster().len() && self.roster()[i] == founder
                        && self.claimed()[i] == c,
                None => !self.roster().contains(founder),
            },
    {
        match self.find_founder(founder) {
            Some(i) => Some(self.claim_status[i]),
            None => None,
        }
    }

    /// Appends `new_founder` to the roster with nothing claimed. Only the
    /// deployer may add founders; a founder is added once; the roster holds
    /// at most sixty.
    pub fn add_founder(&mut self, caller: Identity, deployer: Identity, new_founder: Identity) -> (r:
        Result<(), CustomError>)
        requires
            old(self).wf(),
        ensures
            final(self).wf(),
            caller != deployer ==> r == Err::<(), CustomError>(CustomError::Unauthorized),
            caller == deployer && old(self).roster().contains(new_founder) ==> r == Err::<
                (),
                CustomError,
            >(CustomError::DuplicateFounder),
            caller == deployer && !old(self).roster().contains(new_founder)
                && old(self).roster().len() == MAX_FOUNDERS ==> r == Err::<(), CustomError>(
                CustomError::FounderLimitReached,
            ),
            caller == deployer && !old(self).roster().contains(new_founder)
                && old(self).roster().len() < MAX_FOUNDERS ==> r is Ok,
            r is Ok ==> final(self).roster() == old(self).roster().push(new_founder)
                && final(self).claimed() == old(self).claimed().push(0)
                && final(self).total() == old(self).total(),
            r is Err ==> *final(self) == *old(self),
    {
        if caller != deployer {
            return Err(CustomError::Unauthorized);
        }
        if self.find_founder(new_founder).is_some() {
            return Err(CustomError::DuplicateFounder);
        }
        if self.founders.len() >= MAX_FOUNDERS {
            return Err(CustomError::FounderLimitReached);
        }
        self.founders.push(new_founder);
        self.claim_status.push(0);
        Ok(())
    }

    /// Adds a collected founder fee to the pool.
    pub fn record_fee(&mut self, fee: u64)
        requires
            old(self).wf(),
            old(self).total() + fee <= u64::MAX,
        ensures
            final(self).wf(),
            final(self).total() == old(self).total() + fee,
            final(self).roster() == old(self).roster(),
            final(self).claimed() == old(self).claimed(),
    {
        let ghost before = self.total_collected as int;
        self.total_collected = self.total_collected + fee;
        let ghost after = self.total_collected as int;
        assert(before / 60 <= after / 60) by (nonlinear_arith)
            requires
                0 <= before <= after,
        ;
        assert forall|i: int| 0 <= i < self.claimed().len() implies self.claimed()[i] <= entitlement(
            self.total(),
        ) by {
            assert(old(self).claimed()[i] <= entitlement(old(self).total()));
        }
    }

    /// Pays `founder` what the entitlement exceeds the claimed amount by,
    /// and raises the claimed amount to the entitlement.
    pub fn claim_founder_share(&mut self, founder: Identity) -> (r: Result<u64, CustomError>)
        requires
            old(self).wf(),
        ensures
            final(self).wf(),
            !old(self).roster().contains(founder) ==> r == Err::<u64, CustomError>(
                CustomError::NotFounder,
            ),
            forall|i: int|
                0 <= i < old(self).roster().len() && old(self).roster()[i] == founder ==> {
                    let e = entitlement(old(self).total());
                    let c = old(self).claimed()[i];
                    &&& c == e ==> r == Err::<u64, CustomError>(CustomError::NothingToClaim)
                    &&& c < e ==> r == Ok::<u64, CustomError>((e - c) as u64)
                        && final(self).claimed() == old(self).claimed().update(i, e)
                },
            r is Ok ==> final(self).roster() == old(self).roster() && final(self).total()
                == old(self).total(),
            forall|i: int|
                0 <= i < old(self).claimed().len() ==> old(self).claimed()[i]
                    <= final(self).claimed()[i],
            r is Err ==> *final(self) == *old(self),
    {
        let idx = match self.find_founder(founder) {
            Some(i) => i,
            None => {
                return Err(CustomError::NotFounder);
            },
        };
        proof {
            assert forall|i: int|
                0 <= i < self.roster().len() && self.roster()[i] == founder implies i == idx by {
                if i != idx {
                    if i < idx {
                        assert(self.roster()[i] != self.roster()[idx as int]);
                    } else {
                        assert(self.roster()[idx as int] != self.roster()[i]);
                    }
                }
            }
        }
        let total_per_founder = self.total_collected / ENTITLEMENT_DIVISOR;
        let already_claimed = self.claim_status[idx];
        let claimable = total_per_founder.saturating_sub(already_claimed);
        if claimable == 0 {
            return Err(CustomError::NothingToClaim);
        }
        self.claim_status.set(idx, already_claimed + claimable);
        Ok(claimable)
    }
}

/// Within a well-formed pool, no founder's claimed amount exceeds the
/// entitlement, so what remains to claim is never negative.
pub proof fn lemma_claimed_within_entitlement(pool: &FoundersPool, i: int)
    requires
        pool.wf(),
        0 <= i < pool.claimed().len(),
    ensures
        pool.claimed()[i] <= entitlement(pool.total()),
        entitlement(pool.total()) - pool.claimed()[i] >= 0,
{
}

} // verus!
