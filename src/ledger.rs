//! The per-developer workload ledger: developer name to
//! `(points_excluding_reviewed, points_total)`, with saturating updates.

use dashmap::DashMap;
use vstd::prelude::*;

verus! {

#[verifier::external_type_specification]
#[verifier::external_body]
#[verifier::reject_recursive_types(K)]
#[verifier::reject_recursive_types(V)]
#[verifier::reject_recursive_types(S)]
pub struct ExDashMap<K, V, S>(DashMap<K, V, S>);

/// What a ledger map holds, keyed by the characters of each developer name.
pub uninterp spec fn points_of(m: DashMap<String, (u32, u32)>) -> Map<Seq<char>, (u32, u32)>;

/// `a + b`, clamped to `u32::MAX`.
pub open spec fn sat_add(a: u32, b: u32) -> u32 {
    if a as int + b as int > u32::MAX as int { u32::MAX } else { (a + b) as u32 }
}

/// `a - b`, clamped to 0.
pub open spec fn sat_sub(a: u32, b: u32) -> u32 {
    if a < b { 0 } else { (a - b) as u32 }
}

/// The entry after counting `weight`: the total always grows, the first
/// accumulator only when `excluding` is set.
pub open spec fn added(v: (u32, u32), weight: u32, excluding: bool) -> (u32, u32) {
    (if excluding { sat_add(v.0, weight) } else { v.0 }, sat_add(v.1, weight))
}

/// The entry after retracting `weight`: the total always shrinks, the first
/// accumulator only when `excluding` is set.
pub open spec fn subtracted(v: (u32, u32), weight: u32, excluding: bool) -> (u32, u32) {
    (if excluding { sat_sub(v.0, weight) } else { v.0 }, sat_sub(v.1, weight))
}

/// The value a name has in a ledger, `(0, 0)` for a name never seen.
pub open spec fn entry_or_zero(m: Map<Seq<char>, (u32, u32)>, k: Seq<char>) -> (u32, u32) {
    if m.contains_key(k) { m[k] } else { (0, 0) }
}

/// `ensure(k)` followed by `add(k, weight, excluding)`.
pub open spec fn ledger_add(m: Map<Seq<char>, (u32, u32)>, k: Seq<char>, weight: u32, excluding: bool) -> Map<Seq<char>, (u32, u32)> {
    m.insert(k, added(entry_or_zero(m, k), weight, excluding))
}

/// `subtract(k, weight, excluding)`: a name never seen stays absent.
pub open spec fn ledger_sub(m: Map<Seq<char>, (u32, u32)>, k: Seq<char>, weight: u32, excluding: bool) -> Map<Seq<char>, (u32, u32)> {
    if m.contains_key(k) { m.insert(k, subtracted(m[k], weight, excluding)) } else { m }
}

pub fn saturating_add_u32(a: u32, b: u32) -> (r: u32)
    ensures
        r == sat_add(a, b),
{
    a.saturating_add(b)
}

pub fn saturating_sub_u32(a: u32, b: u32) -> (r: u32)
    ensures
        r == sat_sub(a, b),
{
    a.saturating_sub(b)
}

/// The entry after counting `weight` (see [`added`]).
pub fn add_points(v: (u32, u32), weight: u32, excluding: bool) -> (r: (u32, u32))
    ensures
        r == added(v, weight, excluding),
{
    let first = if excluding { saturating_add_u32(v.0, weight) } else { v.0 };
    (first, saturating_add_u32(v.1, weight))
}

/// The entry after retracting `weight` (see [`subtracted`]).
pub fn sub_points(v: (u32, u32), weight: u32, excluding: bool) -> (r: (u32, u32))
    ensures
        r == subtracted(v, weight, excluding),
{
    let first = if excluding { saturating_sub_u32(v.0, weight) } else { v.0 };
    (first, saturating_sub_u32(v.1, weight))
}

/// The entry after counting (`retract` unset) or retracting (`retract` set) `weight`.
pub open spec fn changed(v: (u32, u32), weight: u32, excluding: bool, retract: bool) -> (u32, u32) {
    if retract { subtracted(v, weight, excluding) } else { added(v, weight, excluding) }
}

/// The entry after counting or retracting `weight` (see [`changed`]).
pub fn change_points(v: (u32, u32), weight: u32, excluding: bool, retract: bool) -> (r: (u32, u32))
    ensures
        r == changed(v, weight, excluding, retract),
{
    if retract { sub_points(v, weight, excluding) } else { add_points(v, weight, excluding) }
}

/// Relies on `DashMap::new`: the new map is empty.
#[verifier::external_body]
fn new_map() -> (r: DashMap<String, (u32, u32)>)
    ensures
        points_of(r) =~= Map::empty(),
{
    DashMap::new()
}

/// Relies on `DashMap::entry(..).or_insert`: an absent key gets `value`, a present one
/// keeps its value, other keys are untouched.
#[verifier::external_body]
fn map_or_insert(m: &mut DashMap<String, (u32, u32)>, key: String, value: (u32, u32))
    ensures
        points_of(*final(m)) == (if points_of(*old(m)).contains_key(key@) {
            points_of(*old(m))
        } else {
            points_of(*old(m)).insert(key@, value)
        }),
{
    m.entry(key).or_insert(value);
}

/// Relies on `DashMap::get`: the value under `key`, if any, copied out.
#[verifier::external_body]
fn map_get(m: &DashMap<String, (u32, u32)>, key: &String) -> (r: Option<(u32, u32)>)
    ensures
        r == (if points_of(*m).contains_key(key@) {
            Some(points_of(*m)[key@])
        } else {
            None
        }),
{
    m.get(key).map(|e| *e.value())
}

/// Relies on `DashMap::alter`: under the key's shard lock, a present value is replaced by
/// `change_points(value, weight, excluding, retract)`; an absent key is left absent.
#[verifier::external_body]
fn map_alter(m: &mut DashMap<String, (u32, u32)>, key: &String, weight: u32, excluding: bool, retract: bool)
    ensures
        points_of(*final(m)) == (if points_of(*old(m)).contains_key(key@) {
            points_of(*old(m)).insert(key@, changed(points_of(*old(m))[key@], weight, excluding, retract))
        } else {
            points_of(*old(m))
        }),
{
    m.alter(key, |_, v| change_points(v, weight, excluding, retract));
}

/// Relies on `DashMap::iter`: one pair per key, each with the value it holds.
#[verifier::external_body]
fn map_entries(m: &DashMap<String, (u32, u32)>) -> (r: Vec<(String, (u32, u32))>)
    ensures
        r@.len() == points_of(*m).len(),
        forall|i: int| 0 <= i < r@.len() ==> points_of(*m).contains_key(#[trigger] r@[i].0@)
            && points_of(*m)[r@[i].0@] == r@[i].1,
        forall|i: int, j: int| 0 <= i < j < r@.len() ==> #[trigger] r@[i].0@ != #[trigger] r@[j].0@,
        forall|k: Seq<char>| points_of(*m).contains_key(k) ==> exists|i: int| 0 <= i < r@.len() && #[trigger] r@[i].0@ == k,
{
    m.iter().map(|e| (e.key().clone(), *e.value())).collect()
}

/// The workload ledger. Every update takes `&mut self`, so a read-modify-write of one
/// entry never interleaves with another update of it.
pub struct Ledger {
    points: DashMap<String, (u32, u32)>,
}

impl View for Ledger {
    type V = Map<Seq<char>, (u32, u32)>;

    closed spec fn view(&self) -> Map<Seq<char>, (u32, u32)> {
        points_of(self.points)
    }
}

impl Ledger {
    /// An empty ledger.
    pub fn new() -> (r: Ledger)
        ensures
            r@ == Map::<Seq<char>, (u32, u32)>::empty(),
    {
        Ledger { points: new_map() }
    }

    /// Inserts `(0, 0)` for `developer` if absent; idempotent.
    pub fn ensure(&mut self, developer: &String)
        ensures
            final(self)@ == (if old(self)@.contains_key(developer@) {
                old(self)@
            } else {
                old(self)@.insert(developer@, (0, 0))
            }),
    {
        map_or_insert(&mut self.points, developer.clone(), (0, 0));
    }

    /// Ensures the entry, then saturating-adds `weight` to its total, and to its
    /// excluding-reviewed accumulator when `excluding` is set.
    pub fn add(&mut self, developer: &String, weight: u32, excluding: bool)
        ensures
            final(self)@ == ledger_add(old(self)@, developer@, weight, excluding),
    {
        self.ensure(developer);
        map_alter(&mut self.points, developer, weight, excluding, false);
    }

    /// Saturating-subtracts `weight` from the total of `developer`, and from its
    /// excluding-reviewed accumulator when `excluding` is set; an absent developer is
    /// left absent.
    pub fn subtract(&mut self, developer: &String, weight: u32, excluding: bool)
        ensures
            final(self)@ == ledger_sub(old(self)@, developer@, weight, excluding),
    {
        map_alter(&mut self.points, developer, weight, excluding, true);
    }

    /// The current values of `developer`, if present.
    pub fn snapshot(&self, developer: &String) -> (r: Option<(u32, u32)>)
        ensures
            r == (if self@.contains_key(developer@) { Some(self@[developer@]) } else { None }),
    {
        map_get(&self.points, developer)
    }

    /// Every developer with its values, in no particular order, each once.
    pub fn entries(&self) -> (r: Vec<(String, (u32, u32))>)
        ensures
            r@.len() == self@.len(),
            forall|i: int| 0 <= i < r@.len() ==> self@.contains_key(#[trigger] r@[i].0@)
                && self@[r@[i].0@] == r@[i].1,
            forall|i: int, j: int| 0 <= i < j < r@.len() ==> #[trigger] r@[i].0@ != #[trigger] r@[j].0@,
            forall|k: Seq<char>| self@.contains_key(k) ==> exists|i: int| 0 <= i < r@.len() && #[trigger] r@[i].0@ == k,
    {
        map_entries(&self.points)
    }
}

} // verus!
