//! The catalog snapshot and its range query.
//!
//! The catalog is a read-only snapshot of parts, one row per part. Each row
//! declares at most one physical magnitude per family, in base units
//! (picoohms, picofarads, picohenries). The range query returns the rows of
//! one family whose declared magnitude lies inside an inclusive window,
//! optionally restricted to one package, capped at a fixed row count.

use vstd::prelude::*;
use crate::units::Family;

verus! {

/// A catalog row. `basic` marks a part the supplier stocks as a standard,
/// readily available item; `stock` is the quantity on hand; `price` is in
/// millionths of the store's currency unit.
#[derive(Debug)]
pub struct Component {
    pub id: u64,
    pub lcsc: String,
    pub category_id: u64,
    pub mfr: Option<String>,
    pub package: Option<String>,
    pub joints: u64,
    pub manufacturer: String,
    pub basic: bool,
    pub description: Option<String>,
    pub datasheet: Option<String>,
    pub stock: u64,
    pub price: Option<u64>,
    pub resistance: Option<u128>,
    pub inductance: Option<u128>,
    pub capacitance: Option<u128>,
    pub dielectric: Option<String>,
}

pub(crate) fn clone_opt_string(o: &Option<String>) -> (r: Option<String>)
    ensures
        r == o,
{
    match o {
        Some(s) => Some(s.clone()),
        None => None,
    }
}

impl Clone for Component {
    fn clone(&self) -> (res: Self)
        ensures
            res == self,
    {
        Component {
            id: self.id,
            lcsc: self.lcsc.clone(),
            category_id: self.category_id,
            mfr: clone_opt_string(&self.mfr),
            package: clone_opt_string(&self.package),
            joints: self.joints,
            manufacturer: self.manufacturer.clone(),
            basic: self.basic,
            description: clone_opt_string(&self.description),
            datasheet: clone_opt_string(&self.datasheet),
            stock: self.stock,
            price: self.price,
            resistance: self.resistance,
            inductance: self.inductance,
            capacitance: self.capacitance,
            dielectric: clone_opt_string(&self.dielectric),
        }
    }
}

/// The category identifier each family's rows carry in the snapshot.
pub open spec fn spec_category_id(family: Family) -> int {
    match family {
        Family::Resistor => 46,
        Family::Capacitor => 27,
        Family::Inductor => 12,
    }
}

pub fn family_category_id(family: Family) -> (id: u64)
    ensures
        id == spec_category_id(family),
{
    match family {
        Family::Resistor => 46,
        Family::Capacitor => 27,
        Family::Inductor => 12,
    }
}

/// The magnitude a row declares for the given family, if any.
pub open spec fn spec_declared_value(c: Component, family: Family) -> Option<u128> {
    match family {
        Family::Resistor => c.resistance,
        Family::Capacitor => c.capacitance,
        Family::Inductor => c.inductance,
    }
}

pub fn declared_value(c: &Component, family: Family) -> (r: Option<u128>)
    ensures
        r == spec_declared_value(*c, family),
{
    match family {
        Family::Resistor => c.resistance,
        Family::Capacitor => c.capacitance,
        Family::Inductor => c.inductance,
    }
}

/// Whether a row's package passes the optional exact-match filter.
pub open spec fn spec_package_matches(package: Option<String>, filter: Option<String>) -> bool {
    match filter {
        None => true,
        Some(f) => match package {
            Some(p) => p@ == f@,
            None => false,
        },
    }
}

pub fn package_matches(package: &Option<String>, filter: &Option<String>) -> (r: bool)
    ensures
        r == spec_package_matches(*package, *filter),
{
    match filter {
        None => true,
        Some(f) => match package {
            Some(p) => crate::ext::str_eq(p.as_str(), f.as_str()),
            None => false,
        },
    }
}

/// Whether a row belongs to the family, declares a magnitude inside the
/// inclusive window, and passes the package filter.
pub open spec fn spec_matches(
    c: Component,
    family: Family,
    low: int,
    high: int,
    filter: Option<String>,
) -> bool {
    &&& c.category_id == spec_category_id(family)
    &&& match spec_declared_value(c, family) {
        Some(v) => low <= v <= high,
        None => false,
    }
    &&& spec_package_matches(c.package, filter)
}

pub fn matches_window(
    c: &Component,
    family: Family,
    low: u128,
    high: u128,
    filter: &Option<String>,
) -> (r: bool)
    ensures
        r == spec_matches(*c, family, low as int, high as int, *filter),
{
    if c.category_id != family_category_id(family) {
        return false;
    }
    let in_range = match declared_value(c, family) {
        Some(v) => low <= v && v <= high,
        None => false,
    };
    in_range && package_matches(&c.package, filter)
}

/// The cap on rows one query returns. It protects against unbounded scans;
/// its exact size is configurable and carries no correctness weight.
pub open spec fn query_limit() -> int {
    100
}

/// A sequence cut down to at most `n` elements.
pub open spec fn spec_truncate<A>(s: Seq<A>, n: int) -> Seq<A> {
    if s.len() <= n {
        s
    } else {
        s.take(n)
    }
}

/// All rows matching a window, in catalog order.
pub open spec fn spec_matching(
    cat: Seq<Component>,
    family: Family,
    low: int,
    high: int,
    filter: Option<String>,
) -> Seq<Component>
    decreases cat.len(),
{
    if cat.len() == 0 {
        Seq::empty()
    } else {
        let rest = spec_matching(cat.drop_last(), family, low, high, filter);
        if spec_matches(cat.last(), family, low, high, filter) {
            rest.push(cat.last())
        } else {
            rest
        }
    }
}

/// What the range query returns: the matching rows in catalog order, capped
/// at the query limit.
pub open spec fn spec_find_in_range(
    cat: Seq<Component>,
    family: Family,
    low: int,
    high: int,
    filter: Option<String>,
) -> Seq<Component> {
    spec_truncate(spec_matching(cat, family, low, high, filter), query_limit())
}

/// Extending the catalog by one row extends the matching rows by that row
/// exactly when it matches.
proof fn lemma_matching_push(
    cat: Seq<Component>,
    c: Component,
    family: Family,
    low: int,
    high: int,
    filter: Option<String>,
)
    ensures
        spec_matching(cat.push(c), family, low, high, filter) == if spec_matches(
            c,
            family,
            low,
            high,
            filter,
        ) {
            spec_matching(cat, family, low, high, filter).push(c)
        } else {
            spec_matching(cat, family, low, high, filter)
        },
{
    let s = cat.push(c);
    assert(s.drop_last() =~= cat);
    assert(s.last() == c);
}

/// Every matching row satisfies the window predicate.
pub proof fn lemma_matching_members(
    cat: Seq<Component>,
    family: Family,
    low: int,
    high: int,
    filter: Option<String>,
)
    ensures
        forall|j: int|
            0 <= j < spec_matching(cat, family, low, high, filter).len()
                ==> spec_matches(
                #[trigger] spec_matching(cat, family, low, high, filter)[j],
                family,
                low,
                high,
                filter,
            ),
    decreases cat.len(),
{
    if cat.len() > 0 {
        lemma_matching_members(cat.drop_last(), family, low, high, filter);
        let rest = spec_matching(cat.drop_last(), family, low, high, filter);
        let m = spec_matching(cat, family, low, high, filter);
        assert forall|j: int| 0 <= j < m.len() implies spec_matches(
            m[j],
            family,
            low,
            high,
            filter,
        ) by {
            if j < rest.len() {
                assert(m[j] == rest[j]);
            } else {
                assert(m[j] == cat.last());
            }
        }
    }
}

/// Every row the query returns satisfies the window predicate.
pub proof fn lemma_find_in_range_members(
    cat: Seq<Component>,
    family: Family,
    low: int,
    high: int,
    filter: Option<String>,
)
    ensures
        forall|j: int|
            0 <= j < spec_find_in_range(cat, family, low, high, filter).len()
                ==> spec_matches(
                #[trigger] spec_find_in_range(cat, family, low, high, filter)[j],
                family,
                low,
                high,
                filter,
            ),
{
    lemma_matching_members(cat, family, low, high, filter);
}

/// If some row of the catalog matches the window, the query returns at
/// least one row.
pub proof fn lemma_find_in_range_nonempty(
    cat: Seq<Component>,
    family: Family,
    low: int,
    high: int,
    filter: Option<String>,
    witness: int,
)
    requires
        0 <= witness < cat.len(),
        spec_matches(cat[witness], family, low, high, filter),
    ensures
        spec_find_in_range(cat, family, low, high, filter).len() > 0,
    decreases cat.len(),
{
    if witness == cat.len() - 1 {
    } else {
        lemma_find_in_range_nonempty(
            cat.drop_last(),
            family,
            low,
            high,
            filter,
            witness,
        );
        assert(cat.drop_last()[witness] == cat[witness]);
    }
}

/// Returns the rows of `family` in `catalog` whose declared magnitude lies
/// in the inclusive window `[low, high]` and whose package passes the
/// filter, in catalog order, capped at the query limit.
pub fn find_in_range(
    catalog: &Vec<Component>,
    family: Family,
    low: u128,
    high: u128,
    package: &Option<String>,
) -> (r: Vec<Component>)
    ensures
        r@ == spec_find_in_range(catalog@, family, low as int, high as int, *package),
{
    let mut result: Vec<Component> = Vec::new();
    let mut i: usize = 0;
    while i < catalog.len()
        invariant
            i <= catalog.len(),
            result@.len() <= query_limit(),
            result@ == spec_find_in_range(
                catalog@.take(i as int),
                family,
                low as int,
                high as int,
                *package,
            ),
        decreases catalog.len() - i,
    {
        let ghost prefix = catalog@.take(i as int);
        let ghost matched_prefix = spec_matching(prefix, family, low as int, high as int, *package);
        proof {
            assert(catalog@.take(i + 1int) =~= prefix.push(catalog@[i as int]));
            lemma_matching_push(
                prefix,
                catalog@[i as int],
                family,
                low as int,
                high as int,
                *package,
            );
        }
        if matches_window(&catalog[i], family, low, high, package) && result.len() < 100 {
            result.push(catalog[i].clone());
            proof {
                assert(result@ =~= spec_find_in_range(
                    catalog@.take(i + 1int),
                    family,
                    low as int,
                    high as int,
                    *package,
                ));
            }
        } else {
            proof {
                if spec_matches(
                    catalog@[i as int],
                    family,
                    low as int,
                    high as int,
                    *package,
                ) {
                    assert(matched_prefix.len() >= query_limit());
                    assert(result@ =~= spec_find_in_range(
                        catalog@.take(i + 1int),
                        family,
                        low as int,
                        high as int,
                        *package,
                    ));
                }
            }
        }
        i = i + 1;
    }
    proof {
        assert(catalog@.take(catalog@.len() as int) =~= catalog@);
    }
    result
}

} // verus!
