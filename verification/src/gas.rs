//! Gas metering: a fixed limit, a monotonically growing counter of gas
//! used, and an atomic charge operation. A charge that would push usage
//! past the limit fails with `OutOfGas` and leaves the counter unchanged
//! (no partial charge).

use vstd::prelude::*;

use crate::error::ExecutionError;

verus! {

/// Compute-gas half of the fixed price of creating an actor.
pub const CREATE_ACTOR_COMPUTE_GAS: i64 = 40;
/// Storage-gas half of the fixed price of creating an actor.
pub const CREATE_ACTOR_STORAGE_GAS: i64 = 500;

/// One priced operation: a compute part and a storage part, both
/// non-negative, whose sum is the amount deducted from the budget.
#[derive(Clone, Copy, Debug)]
pub struct GasCharge {
    compute_gas: i64,
    storage_gas: i64,
}

impl GasCharge {
    pub closed spec fn compute(self) -> int {
        self.compute_gas as int
    }

    pub closed spec fn storage(self) -> int {
        self.storage_gas as int
    }

    /// The full amount this charge deducts.
    pub open spec fn total(self) -> int {
        self.compute() + self.storage()
    }

    /// A well-formed charge has non-negative parts whose sum fits the
    /// machine's gas word.
    pub open spec fn wf(self) -> bool {
        0 <= self.compute() && 0 <= self.storage() && self.total() <= i64::MAX
    }

    pub fn new(compute_gas: i64, storage_gas: i64) -> (r: GasCharge)
        requires
            0 <= compute_gas,
            0 <= storage_gas,
            compute_gas + storage_gas <= i64::MAX,
        ensures
            r.compute() == compute_gas,
            r.storage() == storage_gas,
            r.wf(),
    {
        GasCharge { compute_gas, storage_gas }
    }
}

/// The price of creating a new actor record, fixed for a protocol version.
pub fn price_on_create_actor() -> (r: GasCharge)
    ensures
        r.compute() == CREATE_ACTOR_COMPUTE_GAS,
        r.storage() == CREATE_ACTOR_STORAGE_GAS,
        r.wf(),
{
    GasCharge::new(CREATE_ACTOR_COMPUTE_GAS, CREATE_ACTOR_STORAGE_GAS)
}

/// The gas meter for one call tree: `gas_limit` is fixed at construction,
/// `gas_used` never decreases while charges succeed and never exceeds the
/// limit.
#[derive(Clone, Copy, Debug)]
pub struct GasTracker {
    gas_limit: i64,
    gas_used: i64,
}

impl GasTracker {
    pub closed spec fn limit(self) -> int {
        self.gas_limit as int
    }

    pub closed spec fn used(self) -> int {
        self.gas_used as int
    }

    /// Usage stays between zero and the limit.
    pub open spec fn wf(self) -> bool {
        0 <= self.used() && self.used() <= self.limit()
    }

    pub fn new(gas_limit: i64, gas_used: i64) -> (r: GasTracker)
        requires
            0 <= gas_used,
            gas_used <= gas_limit,
        ensures
            r.limit() == gas_limit,
            r.used() == gas_used,
            r.wf(),
    {
        GasTracker { gas_limit, gas_used }
    }

    /// Whether `charge` fits in the remaining budget of `self`.
    pub open spec fn fits(self, charge: GasCharge) -> bool {
        self.used() + charge.total() <= self.limit()
    }

    /// Deducts `charge` from the remaining budget. Fails atomically with
    /// `OutOfGas` when the deduction would exceed the limit: the counter
    /// is then left exactly as it was.
    pub fn charge_gas(&mut self, charge: GasCharge) -> (r: Result<(), ExecutionError>)
        requires
            old(self).wf(),
            charge.wf(),
        ensures
            final(self).wf(),
            final(self).limit() == old(self).limit(),
            r is Ok <==> old(self).fits(charge),
            r is Ok ==> final(self).used() == old(self).used() + charge.total(),
            r is Err ==> r == Err::<(), ExecutionError>(ExecutionError::OutOfGas)
                && final(self).used() == old(self).used(),
    {
        let total: i64 = charge.compute_gas + charge.storage_gas;
        if total > self.gas_limit - self.gas_used {
            Err(ExecutionError::OutOfGas)
        } else {
            self.gas_used = self.gas_used + total;
            Ok(())
        }
    }

    /// The budget still unspent.
    pub fn gas_available(&self) -> (r: i64)
        requires
            self.wf(),
        ensures
            r == self.limit() - self.used(),
    {
        self.gas_limit - self.gas_used
    }

    /// Cumulative usage so far.
    pub fn gas_used(&self) -> (r: i64)
        ensures
            r == self.used(),
    {
        self.gas_used
    }
}

/// Sum of the totals of a sequence of charges.
pub open spec fn sum_totals(cs: Seq<GasCharge>) -> int
    decreases cs.len(),
{
    if cs.len() == 0 {
        0
    } else {
        cs[0].total() + sum_totals(cs.drop_first())
    }
}

/// All of `cs`, charged one after another against a tracker that has used
/// `used` out of `limit`, succeed: each step fits the budget left by the
/// steps before it. This mirrors `charge_gas` exactly: success adds the
/// charge's total, failure would stop the sequence.
pub open spec fn charges_all_fit(used: int, limit: int, cs: Seq<GasCharge>) -> bool
    decreases cs.len(),
{
    cs.len() == 0 || (used + cs[0].total() <= limit && charges_all_fit(
        used + cs[0].total(),
        limit,
        cs.drop_first(),
    ))
}

/// A whole sequence of charges `c_1 .. c_n` against a budget of `limit`
/// (with `used` already spent, within the limit) succeeds if and only if
/// every prefix sum `used + c_1 + .. + c_i` stays within `limit`. The
/// first charge whose prefix sum exceeds the limit fails, and
/// `charge_gas`'s contract guarantees the failure is atomic, so usage
/// then reflects only the charges that succeeded before it.
pub proof fn lemma_charge_sequence(used: int, limit: int, cs: Seq<GasCharge>)
    requires
        used <= limit,
    ensures
        charges_all_fit(used, limit, cs) <==> (forall|i: int|
            0 <= i <= cs.len() ==> used + sum_totals(#[trigger] cs.take(i)) <= limit),
    decreases cs.len(),
{
    assert(cs.take(0) =~= Seq::<GasCharge>::empty());
    if cs.len() == 0 {
        assert forall|i: int| 0 <= i <= cs.len() implies used + sum_totals(
            #[trigger] cs.take(i),
        ) <= limit by {
            assert(cs.take(i) =~= Seq::<GasCharge>::empty());
        }
    } else {
        let rest = cs.drop_first();
        if used + cs[0].total() <= limit {
            lemma_charge_sequence(used + cs[0].total(), limit, rest);
            if charges_all_fit(used, limit, cs) {
                assert forall|i: int| 0 <= i <= cs.len() implies used + sum_totals(
                    #[trigger] cs.take(i),
                ) <= limit by {
                    if i == 0 {
                        assert(cs.take(0) =~= Seq::<GasCharge>::empty());
                    } else {
                        assert(rest.take(i - 1) =~= cs.take(i).drop_first());
                        assert(cs.take(i)[0] == cs[0]);
                        assert(sum_totals(cs.take(i)) == cs[0].total() + sum_totals(
                            rest.take(i - 1),
                        ));
                        assert(used + cs[0].total() + sum_totals(rest.take(i - 1)) <= limit);
                    }
                }
            } else {
                // The tail must contain a failing prefix; lift it by one.
                assert(!charges_all_fit(used + cs[0].total(), limit, rest));
                let j = choose|j: int|
                    0 <= j <= rest.len() && used + cs[0].total() + sum_totals(
                        #[trigger] rest.take(j),
                    ) > limit;
                assert(rest.take(j) =~= cs.take(j + 1).drop_first());
                assert(cs.take(j + 1)[0] == cs[0]);
                assert(sum_totals(cs.take(j + 1)) == cs[0].total() + sum_totals(rest.take(j)));
                assert(used + sum_totals(cs.take(j + 1)) > limit);
            }
        } else {
            // The very first charge already fails.
            assert(cs.take(1).len() == 1);
            assert(cs.take(1)[0] == cs[0]);
            assert(cs.take(1).drop_first() =~= Seq::<GasCharge>::empty());
            assert(sum_totals(Seq::<GasCharge>::empty()) == 0);
            assert(sum_totals(cs.take(1)) == cs[0].total());
            assert(used + sum_totals(cs.take(1)) > limit);
        }
    }
}

} // verus!
