//! The cost of the registry's actions, in units of computation time.
//!
//! Each cost is a base, a part that grows with the size `b` of the action, and
//! the cost of the database reads and writes that the action makes. Every sum
//! and product saturates at the largest weight.

use frame_support::weights::constants::RocksDbWeight;
use vstd::prelude::*;

verus! {

/// An amount of computation time.
pub type Weight = u64;

/// The cost of one database read and of one database write.
#[derive(Clone, Copy, PartialEq, Eq, Structural, Debug)]
pub struct DbWeight {
    pub read: Weight,
    pub write: Weight,
}

/// `a * b`, or the largest weight where the product exceeds it.
pub open spec fn sat_mul(a: Weight, b: Weight) -> Weight {
    if a * b > Weight::MAX {
        Weight::MAX
    } else {
        (a * b) as Weight
    }
}

/// `a + b`, or the largest weight where the sum exceeds it.
pub open spec fn sat_add(a: Weight, b: Weight) -> Weight {
    if a + b > Weight::MAX {
        Weight::MAX
    } else {
        (a + b) as Weight
    }
}

/// The cost of an action: `base`, plus `per_item` for each of `b` items, plus
/// `reads` database reads and `writes` database writes.
pub open spec fn cost(
    base: Weight,
    per_item: Weight,
    b: u32,
    db: DbWeight,
    reads: Weight,
    writes: Weight,
) -> Weight {
    sat_add(
        sat_add(sat_add(base, sat_mul(per_item, b as Weight)), sat_mul(db.read, reads)),
        sat_mul(db.write, writes),
    )
}

fn saturating_mul(a: Weight, b: Weight) -> (p: Weight)
    ensures
        p == sat_mul(a, b),
{
    match a.checked_mul(b) {
        Some(p) => p,
        None => Weight::MAX,
    }
}

fn saturating_add(a: Weight, b: Weight) -> (s: Weight)
    ensures
        s == sat_add(a, b),
{
    match a.checked_add(b) {
        Some(s) => s,
        None => Weight::MAX,
    }
}

fn cost_of(base: Weight, per_item: Weight, b: u32, db: DbWeight, reads: Weight, writes: Weight) -> (w:
    Weight)
    ensures
        w == cost(base, per_item, b, db, reads, writes),
{
    let sized = saturating_add(base, saturating_mul(per_item, b as Weight));
    let read = saturating_add(sized, saturating_mul(db.read, reads));
    saturating_add(read, saturating_mul(db.write, writes))
}

impl DbWeight {
    /// The cost of `r` reads.
    pub fn reads(self, r: Weight) -> (w: Weight)
        ensures
            w == sat_mul(self.read, r),
    {
        saturating_mul(self.read, r)
    }

    /// The cost of `w` writes.
    pub fn writes(self, w: Weight) -> (cost: Weight)
        ensures
            cost == sat_mul(self.write, w),
    {
        saturating_mul(self.write, w)
    }
}

/// The database costs of RocksDB: 25 microseconds a read, 100 a write.
pub open spec fn rocks_db() -> DbWeight {
    DbWeight { read: 25_000_000, write: 100_000_000 }
}

/// Reads `frame_support::weights::constants::RocksDbWeight`.
///
/// Trusted: the constant holds 25,000 times 1,000 for a read and 100,000 times
/// 1,000 for a write.
#[verifier::external_body]
fn rocks_db_weight() -> (db: DbWeight)
    ensures
        db == rocks_db(),
{
    let weight = RocksDbWeight::get();
    DbWeight { read: weight.read, write: weight.write }
}

/// Weight functions needed for the registry of roles.
pub trait WeightInfo {
    /// The database costs that the weights are computed with.
    spec fn db(&self) -> DbWeight;

    /// The cost of giving a role.
    fn investor(&self, b: u32) -> (w: Weight)
        ensures
            w == cost(44_555_000, 5_000, b, self.db(), 4, 2),
    ;

    /// The cost of granting a request.
    fn approval(&self, b: u32) -> (w: Weight)
        ensures
            w == cost(47_959_000, 0, b, self.db(), 2, 3),
    ;

    /// The cost of refusing a request.
    fn rejection(&self, b: u32) -> (w: Weight)
        ensures
            w == cost(40_261_000, 5_000, b, self.db(), 2, 1),
    ;

    /// The cost of handing the administration over.
    fn set_admin(&self, b: u32) -> (w: Weight)
        ensures
            w == cost(30_118_000, 4_000, b, self.db(), 1, 1),
    ;
}

/// The weights on the reference hardware, with the database costs of the
/// ledger that embeds the registry.
#[derive(Clone, Copy, PartialEq, Eq, Structural, Debug)]
pub struct SubstrateWeight {
    pub db_weight: DbWeight,
}

impl WeightInfo for SubstrateWeight {
    open spec fn db(&self) -> DbWeight {
        self.db_weight
    }

    fn investor(&self, b: u32) -> (w: Weight) {
        cost_of(44_555_000, 5_000, b, self.db_weight, 4, 2)
    }

    fn approval(&self, b: u32) -> (w: Weight) {
        cost_of(47_959_000, 0, b, self.db_weight, 2, 3)
    }

    fn rejection(&self, b: u32) -> (w: Weight) {
        cost_of(40_261_000, 5_000, b, self.db_weight, 2, 1)
    }

    fn set_admin(&self, b: u32) -> (w: Weight) {
        cost_of(30_118_000, 4_000, b, self.db_weight, 1, 1)
    }
}

/// The weights with the database costs of RocksDB.
impl WeightInfo for () {
    open spec fn db(&self) -> DbWeight {
        rocks_db()
    }

    fn investor(&self, b: u32) -> (w: Weight) {
        cost_of(44_555_000, 5_000, b, rocks_db_weight(), 4, 2)
    }

    fn approval(&self, b: u32) -> (w: Weight) {
        cost_of(47_959_000, 0, b, rocks_db_weight(), 2, 3)
    }

    fn rejection(&self, b: u32) -> (w: Weight) {
        cost_of(40_261_000, 5_000, b, rocks_db_weight(), 2, 1)
    }

    fn set_admin(&self, b: u32) -> (w: Weight) {
        cost_of(30_118_000, 4_000, b, rocks_db_weight(), 1, 1)
    }
}

} // verus!
