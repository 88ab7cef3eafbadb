use vstd::prelude::*;

verus! {

/// Number of mantissa steps per whole unit: quantities carry four decimal
/// places.
pub const DECIMAL_SCALE: i64 = 10000;

/// An exact fixed-point signed decimal quantity: `mantissa / 10^4`.
///
/// Cost arithmetic must be exact — merging ledgers is associative and exactly
/// reversible — so quantities are scaled integers, never floating point.
#[derive(Clone, Copy, Debug, PartialEq, Eq, Structural)]
pub struct Decimal {
    pub mantissa: i64,
}

impl Decimal {
    /// The quantity of `units` whole units.
    pub fn from_units(units: i64) -> (r: Decimal)
        requires
            i64::MIN <= units * DECIMAL_SCALE <= i64::MAX,
        ensures
            r.mantissa == units * DECIMAL_SCALE,
    {
        Decimal { mantissa: units * DECIMAL_SCALE }
    }

    /// The quantity `mantissa / 10^4`, exactly.
    pub fn from_scaled(mantissa: i64) -> (r: Decimal)
        ensures
            r.mantissa == mantissa,
    {
        Decimal { mantissa }
    }

    pub fn is_zero(&self) -> (r: bool)
        ensures
            r == (self.mantissa == 0),
    {
        self.mantissa == 0
    }
}

/// One category of a cost ledger: a labor occupation or a resource label,
/// with its signed quantity.
#[derive(Debug, PartialEq, Eq)]
pub struct CostEntry {
    pub key: String,
    pub amount: Decimal,
}

impl Clone for CostEntry {
    fn clone(&self) -> (r: Self)
        ensures
            r == *self,
    {
        CostEntry { key: self.key.clone(), amount: self.amount }
    }
}

/// Total signed amount recorded for category `key` in `entries`.
pub open spec fn bag_amount(entries: Seq<CostEntry>, key: Seq<char>) -> int
    decreases entries.len(),
{
    if entries.len() == 0 {
        0
    } else {
        bag_amount(entries.drop_last(), key) + (if entries.last().key@ == key {
            entries.last().amount.mantissa as int
        } else {
            0
        })
    }
}

/// No category appears twice.
pub open spec fn unique_keys(entries: Seq<CostEntry>) -> bool {
    forall|i: int, j: int|
        0 <= i < j < entries.len() ==> #[trigger] entries[i].key@ != #[trigger] entries[j].key@
}

proof fn lemma_bag_amount_absent(entries: Seq<CostEntry>, key: Seq<char>)
    requires
        forall|i: int| 0 <= i < entries.len() ==> #[trigger] entries[i].key@ != key,
    ensures
        bag_amount(entries, key) == 0,
    decreases entries.len(),
{
    if entries.len() > 0 {
        assert(entries.last() == entries[entries.len() - 1]);
        assert forall|i: int| 0 <= i < entries.drop_last().len() implies #[trigger] entries.drop_last()[i].key@
            != key by {
            assert(entries.drop_last()[i] == entries[i]);
        }
        lemma_bag_amount_absent(entries.drop_last(), key);
    }
}

proof fn lemma_bag_amount_all_zero(entries: Seq<CostEntry>, key: Seq<char>)
    requires
        forall|i: int| 0 <= i < entries.len() ==> #[trigger] entries[i].amount.mantissa == 0,
    ensures
        bag_amount(entries, key) == 0,
    decreases entries.len(),
{
    if entries.len() > 0 {
        assert(entries.last() == entries[entries.len() - 1]);
        assert forall|i: int| 0 <= i < entries.drop_last().len() implies #[trigger] entries.drop_last()[i].amount.mantissa
            == 0 by {
            assert(entries.drop_last()[i] == entries[i]);
        }
        lemma_bag_amount_all_zero(entries.drop_last(), key);
    }
}

proof fn lemma_bag_amount_at(entries: Seq<CostEntry>, i: int)
    requires
        unique_keys(entries),
        0 <= i < entries.len(),
    ensures
        bag_amount(entries, entries[i].key@) == entries[i].amount.mantissa as int,
    decreases entries.len(),
{
    let key = entries[i].key@;
    assert(entries.last() == entries[entries.len() - 1]);
    if i == entries.len() - 1 {
        assert forall|j: int| 0 <= j < entries.drop_last().len() implies #[trigger] entries.drop_last()[j].key@
            != key by {
            assert(entries.drop_last()[j] == entries[j]);
        }
        lemma_bag_amount_absent(entries.drop_last(), key);
    } else {
        assert forall|a: int, b: int| 0 <= a < b < entries.drop_last().len() implies #[trigger] entries.drop_last()[a].key@
            != #[trigger] entries.drop_last()[b].key@ by {
            assert(entries.drop_last()[a] == entries[a]);
            assert(entries.drop_last()[b] == entries[b]);
        }
        assert(entries.drop_last()[i] == entries[i]);
        lemma_bag_amount_at(entries.drop_last(), i);
        assert(entries[i].key@ != entries[entries.len() - 1].key@);
    }
}

proof fn lemma_bag_amount_in_range(entries: Seq<CostEntry>, key: Seq<char>)
    requires
        unique_keys(entries),
    ensures
        i64::MIN <= bag_amount(entries, key) <= i64::MAX,
{
    if exists|i: int| 0 <= i < entries.len() && #[trigger] entries[i].key@ == key {
        let i = choose|i: int| 0 <= i < entries.len() && #[trigger] entries[i].key@ == key;
        lemma_bag_amount_at(entries, i);
    } else {
        assert forall|i: int| 0 <= i < entries.len() implies #[trigger] entries[i].key@ != key by {}
        lemma_bag_amount_absent(entries, key);
    }
}

proof fn lemma_bag_amount_push(entries: Seq<CostEntry>, e: CostEntry, key: Seq<char>)
    ensures
        bag_amount(entries.push(e), key) == bag_amount(entries, key) + (if e.key@ == key {
            e.amount.mantissa as int
        } else {
            0
        }),
{
    assert(entries.push(e).drop_last() =~= entries);
    assert(entries.push(e).last() == e);
}

proof fn lemma_bag_amount_update(entries: Seq<CostEntry>, i: int, e: CostEntry, key: Seq<char>)
    requires
        0 <= i < entries.len(),
        e.key@ == entries[i].key@,
    ensures
        bag_amount(entries.update(i, e), key) == bag_amount(entries, key) + (if entries[i].key@
            == key {
            e.amount.mantissa - entries[i].amount.mantissa
        } else {
            0
        }),
    decreases entries.len(),
{
    let s2 = entries.update(i, e);
    assert(entries.last() == entries[entries.len() - 1]);
    assert(s2.last() == s2[entries.len() - 1]);
    if i == entries.len() - 1 {
        assert(s2.drop_last() =~= entries.drop_last());
        assert(s2.last() == e);
    } else {
        assert(s2.drop_last() =~= entries.drop_last().update(i, e));
        assert(entries.drop_last()[i] == entries[i]);
        lemma_bag_amount_update(entries.drop_last(), i, e, key);
        assert(s2.last() == entries.last());
    }
}

proof fn lemma_bag_amount_take_step(entries: Seq<CostEntry>, j: int, key: Seq<char>)
    requires
        0 <= j < entries.len(),
    ensures
        bag_amount(entries.take(j + 1), key) == bag_amount(entries.take(j), key) + (
        if entries[j].key@ == key {
            entries[j].amount.mantissa as int
        } else {
            0
        }),
{
    assert(entries.take(j + 1) =~= entries.take(j).push(entries[j]));
    lemma_bag_amount_push(entries.take(j), entries[j], key);
}

/// Index of `key` in `entries`, if present.
fn bag_find(entries: &Vec<CostEntry>, key: &String) -> (r: Option<usize>)
    ensures
        r matches Some(i) ==> i < entries@.len() && entries@[i as int].key@ == key@,
        r is None ==> forall|j: int| 0 <= j < entries@.len() ==> #[trigger] entries@[j].key@
            != key@,
{
    let mut i: usize = 0;
    while i < entries.len()
        invariant
            i <= entries@.len(),
            forall|j: int| 0 <= j < i ==> #[trigger] entries@[j].key@ != key@,
        decreases entries@.len() - i,
    {
        if entries[i].key == *key {
            return Some(i);
        }
        i = i + 1;
    }
    None
}

/// Copy of `entries`, element for element.
fn bag_copy(entries: &Vec<CostEntry>) -> (r: Vec<CostEntry>)
    ensures
        r@ == entries@,
{
    let mut out: Vec<CostEntry> = Vec::new();
    let mut i: usize = 0;
    while i < entries.len()
        invariant
            i <= entries@.len(),
            out@ =~= entries@.take(i as int),
        decreases entries@.len() - i,
    {
        out.push(CostEntry { key: entries[i].key.clone(), amount: entries[i].amount });
        proof {
            assert(entries@.take(i + 1) =~= entries@.take(i as int).push(entries@[i as int]));
        }
        i = i + 1;
    }
    assert(out@ =~= entries@);
    out
}

/// Category-wise sum of two ledgers.
fn bag_merge(a: &Vec<CostEntry>, b: &Vec<CostEntry>) -> (r: Vec<CostEntry>)
    requires
        unique_keys(a@),
        unique_keys(b@),
        forall|k: Seq<char>|
            i64::MIN <= #[trigger] bag_amount(a@, k) + bag_amount(b@, k) <= i64::MAX,
    ensures
        unique_keys(r@),
        forall|k: Seq<char>| #[trigger] bag_amount(r@, k) == bag_amount(a@, k) + bag_amount(
            b@,
            k,
        ),
{
    let mut out = bag_copy(a);
    let mut j: usize = 0;
    proof {
        assert(b@.take(0) =~= Seq::<CostEntry>::empty());
        assert forall|k: Seq<char>| #[trigger] bag_amount(out@, k) == bag_amount(a@, k)
            + bag_amount(b@.take(0), k) by {}
    }
    while j < b.len()
        invariant
            unique_keys(a@),
            unique_keys(b@),
            unique_keys(out@),
            j <= b@.len(),
            forall|k: Seq<char>| #[trigger] bag_amount(out@, k) == bag_amount(a@, k) + bag_amount(
                b@.take(j as int),
                k,
            ),
            forall|k: Seq<char>|
                i64::MIN <= #[trigger] bag_amount(a@, k) + bag_amount(b@, k) <= i64::MAX,
        decreases b@.len() - j,
    {
        let ghost prev = out@;
        let key = b[j].key.clone();
        let amount = b[j].amount;
        proof {
            lemma_bag_amount_at(b@, j as int);
            assert forall|t: int| 0 <= t < b@.take(j as int).len() implies #[trigger] b@.take(
                j as int,
            )[t].key@ != key@ by {
                assert(b@.take(j as int)[t] == b@[t]);
            }
            lemma_bag_amount_absent(b@.take(j as int), key@);
        }
        match bag_find(&out, &key) {
            Some(i) => {
                proof {
                    lemma_bag_amount_at(out@, i as int);
                }
                let total: i64 = out[i].amount.mantissa + amount.mantissa;
                out[i] = CostEntry { key, amount: Decimal { mantissa: total } };
                proof {
                    assert forall|k: Seq<char>| #[trigger] bag_amount(out@, k) == bag_amount(a@, k)
                        + bag_amount(b@.take(j + 1), k) by {
                        lemma_bag_amount_update(
                            prev,
                            i as int,
                            CostEntry { key: b@[j as int].key, amount: Decimal { mantissa: total } },
                            k,
                        );
                        assert(out@ =~= prev.update(
                            i as int,
                            CostEntry { key: b@[j as int].key, amount: Decimal { mantissa: total } },
                        ));
                        lemma_bag_amount_take_step(b@, j as int, k);
                    }
                    assert forall|s: int, t: int| 0 <= s < t < out@.len() implies #[trigger] out@[s].key@
                        != #[trigger] out@[t].key@ by {
                        assert(prev[s].key@ != prev[t].key@);
                    }
                }
            },
            None => {
                out.push(CostEntry { key, amount });
                proof {
                    assert forall|k: Seq<char>| #[trigger] bag_amount(out@, k) == bag_amount(a@, k)
                        + bag_amount(b@.take(j + 1), k) by {
                        lemma_bag_amount_push(
                            prev,
                            CostEntry { key: b@[j as int].key, amount: b@[j as int].amount },
                            k,
                        );
                        lemma_bag_amount_take_step(b@, j as int, k);
                    }
                    assert forall|s: int, t: int| 0 <= s < t < out@.len() implies #[trigger] out@[s].key@
                        != #[trigger] out@[t].key@ by {
                        if t < out@.len() - 1 {
                            assert(prev[s].key@ != prev[t].key@);
                        } else {
                            assert(out@[t].key@ == b@[j as int].key@);
                            assert(out@[s] == prev[s]);
                        }
                    }
                }
            },
        }
        j = j + 1;
    }
    proof {
        assert(b@.take(b@.len() as int) =~= b@);
    }
    out
}

/// Category-wise negation of a ledger.
fn bag_negate(entries: &Vec<CostEntry>) -> (r: Vec<CostEntry>)
    requires
        unique_keys(entries@),
        forall|k: Seq<char>| #[trigger] bag_amount(entries@, k) != i64::MIN,
    ensures
        unique_keys(r@),
        forall|k: Seq<char>| #[trigger] bag_amount(r@, k) == -bag_amount(entries@, k),
{
    let mut out: Vec<CostEntry> = Vec::new();
    let mut i: usize = 0;
    proof {
        assert(entries@.take(0) =~= Seq::<CostEntry>::empty());
    }
    while i < entries.len()
        invariant
            unique_keys(entries@),
            i <= entries@.len(),
            out@.len() == i,
            forall|t: int| 0 <= t < i ==> #[trigger] out@[t].key@ == entries@[t].key@,
            forall|k: Seq<char>| #[trigger] bag_amount(out@, k) == -bag_amount(
                entries@.take(i as int),
                k,
            ),
            forall|k: Seq<char>| #[trigger] bag_amount(entries@, k) != i64::MIN,
        decreases entries@.len() - i,
    {
        let ghost prev = out@;
        proof {
            lemma_bag_amount_at(entries@, i as int);
        }
        let negated: i64 = -entries[i].amount.mantissa;
        out.push(CostEntry { key: entries[i].key.clone(), amount: Decimal { mantissa: negated } });
        proof {
            assert forall|k: Seq<char>| #[trigger] bag_amount(out@, k) == -bag_amount(
                entries@.take(i + 1),
                k,
            ) by {
                lemma_bag_amount_push(
                    prev,
                    CostEntry { key: entries@[i as int].key, amount: Decimal { mantissa: negated } },
                    k,
                );
                lemma_bag_amount_take_step(entries@, i as int, k);
            }
            assert forall|s: int, t: int| 0 <= s < t < out@.len() implies #[trigger] out@[s].key@
                != #[trigger] out@[t].key@ by {
                assert(entries@[s].key@ != entries@[t].key@);
            }
        }
        i = i + 1;
    }
    proof {
        assert(entries@.take(entries@.len() as int) =~= entries@);
    }
    out
}

/// Whether every category of the ledger holds exactly zero.
fn bag_is_zero(entries: &Vec<CostEntry>) -> (r: bool)
    requires
        unique_keys(entries@),
    ensures
        r == forall|k: Seq<char>| #[trigger] bag_amount(entries@, k) == 0,
{
    let mut i: usize = 0;
    while i < entries.len()
        invariant
            unique_keys(entries@),
            i <= entries@.len(),
            forall|t: int| 0 <= t < i ==> #[trigger] entries@[t].amount.mantissa == 0,
        decreases entries@.len() - i,
    {
        if entries[i].amount.mantissa != 0 {
            proof {
                lemma_bag_amount_at(entries@, i as int);
                assert(bag_amount(entries@, entries@[i as int].key@) != 0);
            }
            return false;
        }
        i = i + 1;
    }
    proof {
        assert forall|k: Seq<char>| #[trigger] bag_amount(entries@, k) == 0 by {
            lemma_bag_amount_all_zero(entries@, k);
        }
    }
    true
}

/// An additive ledger vector: labor hours keyed by occupation and resource
/// quantities keyed by resource label, with exact signed decimal quantities.
#[derive(Debug, PartialEq, Eq)]
pub struct Costs {
    pub labor: Vec<CostEntry>,
    pub resources: Vec<CostEntry>,
}

impl Clone for Costs {
    fn clone(&self) -> (r: Self)
        ensures
            r.labor@ == self.labor@,
            r.resources@ == self.resources@,
    {
        Costs { labor: bag_copy(&self.labor), resources: bag_copy(&self.resources) }
    }
}

/// Both ledgers of `a` can absorb those of `b` without leaving the
/// representable range — a machine limit, not a domain rule.
pub open spec fn can_merge(a: Costs, b: Costs) -> bool {
    &&& forall|k: Seq<char>|
        i64::MIN <= #[trigger] a.labor_at(k) + b.labor_at(k) <= i64::MAX
    &&& forall|k: Seq<char>|
        i64::MIN <= #[trigger] a.resource_at(k) + b.resource_at(k) <= i64::MAX
}

/// The ledgers of `b` can be subtracted from those of `a` without leaving the
/// representable range.
pub open spec fn can_sub(a: Costs, b: Costs) -> bool {
    &&& forall|k: Seq<char>| #[trigger] b.labor_at(k) != i64::MIN
    &&& forall|k: Seq<char>| #[trigger] b.resource_at(k) != i64::MIN
    &&& forall|k: Seq<char>|
        i64::MIN <= #[trigger] a.labor_at(k) - b.labor_at(k) <= i64::MAX
    &&& forall|k: Seq<char>|
        i64::MIN <= #[trigger] a.resource_at(k) - b.resource_at(k) <= i64::MAX
}

impl Costs {
    /// Internal invariant: no category appears twice in either ledger.
    pub open spec fn wf(self) -> bool {
        unique_keys(self.labor@) && unique_keys(self.resources@)
    }

    /// Total labor recorded for occupation `key`, zero when untracked.
    pub open spec fn labor_at(self, key: Seq<char>) -> int {
        bag_amount(self.labor@, key)
    }

    /// Total resource quantity recorded for label `key`, zero when untracked.
    pub open spec fn resource_at(self, key: Seq<char>) -> int {
        bag_amount(self.resources@, key)
    }

    /// A ledger is zero exactly when every category holds zero.
    pub open spec fn is_zero_spec(self) -> bool {
        &&& forall|k: Seq<char>| #[trigger] self.labor_at(k) == 0
        &&& forall|k: Seq<char>| #[trigger] self.resource_at(k) == 0
    }

    /// The empty (zero) ledger.
    pub fn new() -> (r: Costs)
        ensures
            r.wf(),
            r.is_zero_spec(),
            r.labor@.len() == 0,
            r.resources@.len() == 0,
    {
        let r = Costs { labor: Vec::new(), resources: Vec::new() };
        proof {
            assert forall|k: Seq<char>| #[trigger] r.labor_at(k) == 0 by {}
            assert forall|k: Seq<char>| #[trigger] r.resource_at(k) == 0 by {}
        }
        r
    }

    /// A ledger holding `amount` of labor for occupation `key` and nothing
    /// else.
    pub fn new_with_labor(key: String, amount: Decimal) -> (r: Costs)
        ensures
            r.wf(),
            forall|k: Seq<char>| #[trigger] r.labor_at(k) == (if k == key@ {
                amount.mantissa as int
            } else {
                0
            }),
            forall|k: Seq<char>| #[trigger] r.resource_at(k) == 0,
    {
        let mut r = Costs::new();
        r.track_labor(key, amount);
        r
    }

    /// A ledger holding `amount` of resource `key` and nothing else.
    pub fn new_with_resource(key: String, amount: Decimal) -> (r: Costs)
        ensures
            r.wf(),
            forall|k: Seq<char>| #[trigger] r.resource_at(k) == (if k == key@ {
                amount.mantissa as int
            } else {
                0
            }),
            forall|k: Seq<char>| #[trigger] r.labor_at(k) == 0,
    {
        let mut r = Costs::new();
        r.track_resource(key, amount);
        r
    }

    /// Add `amount` of labor under occupation `key`, in place.
    pub fn track_labor(&mut self, key: String, amount: Decimal)
        requires
            old(self).wf(),
            i64::MIN <= old(self).labor_at(key@) + amount.mantissa <= i64::MAX,
        ensures
            final(self).wf(),
            forall|k: Seq<char>| #[trigger] final(self).labor_at(k) == old(self).labor_at(k) + (
            if k == key@ {
                amount.mantissa as int
            } else {
                0
            }),
            final(self).resources@ == old(self).resources@,
    {
        let mut single: Vec<CostEntry> = Vec::new();
        single.push(CostEntry { key, amount });
        proof {
            assert forall|k: Seq<char>| #[trigger] bag_amount(single@, k) == (if k
                == single@[0].key@ {
                amount.mantissa as int
            } else {
                0
            }) by {
                lemma_bag_amount_push(Seq::<CostEntry>::empty(), single@[0], k);
                assert(Seq::<CostEntry>::empty().push(single@[0]) =~= single@);
            }
            assert forall|k: Seq<char>|
                i64::MIN <= #[trigger] bag_amount(self.labor@, k) + bag_amount(single@, k)
                    <= i64::MAX by {
                lemma_bag_amount_in_range(self.labor@, k);
                assert(self.labor_at(key@) == bag_amount(self.labor@, key@));
            }
        }
        self.labor = bag_merge(&self.labor, &single);
    }

    /// Add `amount` of resource `key`, in place.
    pub fn track_resource(&mut self, key: String, amount: Decimal)
        requires
            old(self).wf(),
            i64::MIN <= old(self).resource_at(key@) + amount.mantissa <= i64::MAX,
        ensures
            final(self).wf(),
            forall|k: Seq<char>| #[trigger] final(self).resource_at(k) == old(self).resource_at(k)
                + (if k == key@ {
                amount.mantissa as int
            } else {
                0
            }),
            final(self).labor@ == old(self).labor@,
    {
        let mut single: Vec<CostEntry> = Vec::new();
        single.push(CostEntry { key, amount });
        proof {
            assert forall|k: Seq<char>| #[trigger] bag_amount(single@, k) == (if k
                == single@[0].key@ {
                amount.mantissa as int
            } else {
                0
            }) by {
                lemma_bag_amount_push(Seq::<CostEntry>::empty(), single@[0], k);
                assert(Seq::<CostEntry>::empty().push(single@[0]) =~= single@);
            }
            assert forall|k: Seq<char>|
                i64::MIN <= #[trigger] bag_amount(self.resources@, k) + bag_amount(single@, k)
                    <= i64::MAX by {
                lemma_bag_amount_in_range(self.resources@, k);
                assert(self.resource_at(key@) == bag_amount(self.resources@, key@));
            }
        }
        self.resources = bag_merge(&self.resources, &single);
    }

    /// Category-wise sum: matching categories add, all others carry over.
    pub fn merge(&self, other: &Costs) -> (r: Costs)
        requires
            self.wf(),
            other.wf(),
            can_merge(*self, *other),
        ensures
            r.wf(),
            forall|k: Seq<char>| #[trigger] r.labor_at(k) == self.labor_at(k) + other.labor_at(k),
            forall|k: Seq<char>| #[trigger] r.resource_at(k) == self.resource_at(k)
                + other.resource_at(k),
    {
        proof {
            assert forall|k: Seq<char>|
                i64::MIN <= #[trigger] bag_amount(self.labor@, k) + bag_amount(other.labor@, k)
                    <= i64::MAX by {
                assert(i64::MIN <= self.labor_at(k) + other.labor_at(k) <= i64::MAX);
            }
            assert forall|k: Seq<char>|
                i64::MIN <= #[trigger] bag_amount(self.resources@, k) + bag_amount(
                    other.resources@,
                    k,
                ) <= i64::MAX by {
                assert(i64::MIN <= self.resource_at(k) + other.resource_at(k) <= i64::MAX);
            }
        }
        Costs {
            labor: bag_merge(&self.labor, &other.labor),
            resources: bag_merge(&self.resources, &other.resources),
        }
    }

    /// Category-wise additive inverse.
    pub fn negate(&self) -> (r: Costs)
        requires
            self.wf(),
            forall|k: Seq<char>| #[trigger] self.labor_at(k) != i64::MIN,
            forall|k: Seq<char>| #[trigger] self.resource_at(k) != i64::MIN,
        ensures
            r.wf(),
            forall|k: Seq<char>| #[trigger] r.labor_at(k) == -self.labor_at(k),
            forall|k: Seq<char>| #[trigger] r.resource_at(k) == -self.resource_at(k),
    {
        proof {
            assert forall|k: Seq<char>| #[trigger] bag_amount(self.labor@, k) != i64::MIN by {
                assert(self.labor_at(k) != i64::MIN);
            }
            assert forall|k: Seq<char>| #[trigger] bag_amount(self.resources@, k) != i64::MIN by {
                assert(self.resource_at(k) != i64::MIN);
            }
        }
        Costs { labor: bag_negate(&self.labor), resources: bag_negate(&self.resources) }
    }

    /// Category-wise difference: the additive inverse of [`Costs::merge`].
    pub fn sub(&self, other: &Costs) -> (r: Costs)
        requires
            self.wf(),
            other.wf(),
            can_sub(*self, *other),
        ensures
            r.wf(),
            forall|k: Seq<char>| #[trigger] r.labor_at(k) == self.labor_at(k) - other.labor_at(k),
            forall|k: Seq<char>| #[trigger] r.resource_at(k) == self.resource_at(k)
                - other.resource_at(k),
    {
        let negated = other.negate();
        proof {
            assert forall|k: Seq<char>|
                i64::MIN <= #[trigger] self.labor_at(k) + negated.labor_at(k) <= i64::MAX by {
                assert(i64::MIN <= self.labor_at(k) - other.labor_at(k) <= i64::MAX);
            }
            assert forall|k: Seq<char>|
                i64::MIN <= #[trigger] self.resource_at(k) + negated.resource_at(k)
                    <= i64::MAX by {
                assert(i64::MIN <= self.resource_at(k) - other.resource_at(k) <= i64::MAX);
            }
        }
        self.merge(&negated)
    }

    /// Whether every category of both ledgers holds exactly zero.
    pub fn is_zero(&self) -> (r: bool)
        requires
            self.wf(),
        ensures
            r == self.is_zero_spec(),
    {
        let labor_zero = bag_is_zero(&self.labor);
        let resources_zero = bag_is_zero(&self.resources);
        proof {
            if labor_zero && resources_zero {
                assert forall|k: Seq<char>| #[trigger] self.labor_at(k) == 0 by {
                    assert(bag_amount(self.labor@, k) == 0);
                }
                assert forall|k: Seq<char>| #[trigger] self.resource_at(k) == 0 by {
                    assert(bag_amount(self.resources@, k) == 0);
                }
            } else if !labor_zero {
                assert(exists|k: Seq<char>| #[trigger] bag_amount(self.labor@, k) != 0);
                let k = choose|k: Seq<char>| #[trigger] bag_amount(self.labor@, k) != 0;
                assert(self.labor_at(k) != 0);
            } else {
                assert(exists|k: Seq<char>| #[trigger] bag_amount(self.resources@, k) != 0);
                let k = choose|k: Seq<char>| #[trigger] bag_amount(self.resources@, k) != 0;
                assert(self.resource_at(k) != 0);
            }
        }
        labor_zero && resources_zero
    }
}

/// Law: subtracting a ledger exactly undoes merging it. For any `a` and `b`,
/// `merge(a, b)` followed by `sub(.., b)` restores every category of `a` —
/// cost arithmetic never clamps or truncates.
pub proof fn lemma_sub_undoes_merge(a: Costs, b: Costs, merged: Costs, unmerged: Costs)
    requires
        forall|k: Seq<char>| #[trigger] merged.labor_at(k) == a.labor_at(k) + b.labor_at(k),
        forall|k: Seq<char>| #[trigger] merged.resource_at(k) == a.resource_at(k) + b.resource_at(
            k,
        ),
        forall|k: Seq<char>| #[trigger] unmerged.labor_at(k) == merged.labor_at(k) - b.labor_at(k),
        forall|k: Seq<char>| #[trigger] unmerged.resource_at(k) == merged.resource_at(k)
            - b.resource_at(k),
    ensures
        forall|k: Seq<char>| #[trigger] unmerged.labor_at(k) == a.labor_at(k),
        forall|k: Seq<char>| #[trigger] unmerged.resource_at(k) == a.resource_at(k),
{
    assert forall|k: Seq<char>| #[trigger] unmerged.labor_at(k) == a.labor_at(k) by {
        assert(merged.labor_at(k) == a.labor_at(k) + b.labor_at(k));
        assert(unmerged.labor_at(k) == merged.labor_at(k) - b.labor_at(k));
    }
    assert forall|k: Seq<char>| #[trigger] unmerged.resource_at(k) == a.resource_at(k) by {
        assert(merged.resource_at(k) == a.resource_at(k) + b.resource_at(k));
        assert(unmerged.resource_at(k) == merged.resource_at(k) - b.resource_at(k));
    }
}

/// Law: repeated merges are associative. Merging `a` with `b` and then `c`
/// yields the same ledger, category by category, as merging `a` with the
/// merge of `b` and `c`.
pub proof fn lemma_merge_associative(
    a: Costs,
    b: Costs,
    c: Costs,
    ab: Costs,
    ab_c: Costs,
    bc: Costs,
    a_bc: Costs,
)
    requires
        forall|k: Seq<char>| #[trigger] ab.labor_at(k) == a.labor_at(k) + b.labor_at(k),
        forall|k: Seq<char>| #[trigger] ab.resource_at(k) == a.resource_at(k) + b.resource_at(k),
        forall|k: Seq<char>| #[trigger] ab_c.labor_at(k) == ab.labor_at(k) + c.labor_at(k),
        forall|k: Seq<char>| #[trigger] ab_c.resource_at(k) == ab.resource_at(k) + c.resource_at(
            k,
        ),
        forall|k: Seq<char>| #[trigger] bc.labor_at(k) == b.labor_at(k) + c.labor_at(k),
        forall|k: Seq<char>| #[trigger] bc.resource_at(k) == b.resource_at(k) + c.resource_at(k),
        forall|k: Seq<char>| #[trigger] a_bc.labor_at(k) == a.labor_at(k) + bc.labor_at(k),
        forall|k: Seq<char>| #[trigger] a_bc.resource_at(k) == a.resource_at(k) + bc.resource_at(
            k,
        ),
    ensures
        forall|k: Seq<char>| #[trigger] ab_c.labor_at(k) == a_bc.labor_at(k),
        forall|k: Seq<char>| #[trigger] ab_c.resource_at(k) == a_bc.resource_at(k),
{
    assert forall|k: Seq<char>| #[trigger] ab_c.labor_at(k) == a_bc.labor_at(k) by {
        assert(ab.labor_at(k) == a.labor_at(k) + b.labor_at(k));
        assert(ab_c.labor_at(k) == ab.labor_at(k) + c.labor_at(k));
        assert(bc.labor_at(k) == b.labor_at(k) + c.labor_at(k));
        assert(a_bc.labor_at(k) == a.labor_at(k) + bc.labor_at(k));
    }
    assert forall|k: Seq<char>| #[trigger] ab_c.resource_at(k) == a_bc.resource_at(k) by {
        assert(ab.resource_at(k) == a.resource_at(k) + b.resource_at(k));
        assert(ab_c.resource_at(k) == ab.resource_at(k) + c.resource_at(k));
        assert(bc.resource_at(k) == b.resource_at(k) + c.resource_at(k));
        assert(a_bc.resource_at(k) == a.resource_at(k) + bc.resource_at(k));
    }
}

} // verus!
