//! Version discovery: which package versions a `check` reports.
use vstd::prelude::*;

use crate::models::{package_views, version_strings, Package, PackageView, Version};

verus! {

/// Holds of a package whose name is exactly `name`.
pub open spec fn has_name(name: Seq<char>) -> spec_fn(PackageView) -> bool {
    |p: PackageView| p.name == name
}

/// Holds of a package created after the package with id `cutoff`.
pub open spec fn is_newer(cutoff: u64) -> spec_fn(PackageView) -> bool {
    |p: PackageView| p.id > cutoff
}

/// The packages named exactly `name`, in their original order.
pub open spec fn exact_named(s: Seq<PackageView>, name: Seq<char>) -> Seq<PackageView> {
    s.filter(has_name(name))
}

/// The packages with an id above `cutoff`, in their original order.
pub open spec fn newer_than(s: Seq<PackageView>, cutoff: u64) -> Seq<PackageView> {
    s.filter(is_newer(cutoff))
}

/// The id of the first package whose version string is `v`, if any.
pub open spec fn first_id_of_version(s: Seq<PackageView>, v: Seq<char>) -> Option<u64>
    decreases s.len(),
{
    if s.len() == 0 {
        None
    } else if s[0].version == v {
        Some(s[0].id)
    } else {
        first_id_of_version(s.subrange(1, s.len() as int), v)
    }
}

/// Non-decreasing ids.
pub open spec fn sorted_by_id(s: Seq<PackageView>) -> bool {
    forall|i: int, j: int| 0 <= i < j < s.len() ==> s[i].id <= s[j].id
}

/// Strictly increasing ids.
pub open spec fn strictly_ascending_ids(s: Seq<PackageView>) -> bool {
    forall|i: int, j: int| 0 <= i < j < s.len() ==> s[i].id < s[j].id
}

/// No two packages share an id.
pub open spec fn distinct_ids(s: Seq<PackageView>) -> bool {
    forall|i: int, j: int| 0 <= i < s.len() && 0 <= j < s.len() && i != j ==> s[i].id != s[j].id
}

/// `x` placed after every element of `s` whose id is at most its own,
/// counted from the back: inserting into a sorted sequence keeps it sorted,
/// and packages with equal ids keep their order.
pub open spec fn insert_by_id(s: Seq<PackageView>, x: PackageView) -> Seq<PackageView>
    decreases s.len(),
{
    if s.len() == 0 {
        seq![x]
    } else if s.last().id <= x.id {
        s.push(x)
    } else {
        insert_by_id(s.drop_last(), x).push(s.last())
    }
}

/// The stable sort of `s` by ascending id.
pub open spec fn sort_by_id(s: Seq<PackageView>) -> Seq<PackageView>
    decreases s.len(),
{
    if s.len() == 0 {
        s
    } else {
        insert_by_id(sort_by_id(s.drop_last()), s.last())
    }
}

/// The version strings of a sequence of packages.
pub open spec fn versions_in(s: Seq<PackageView>) -> Seq<Seq<char>> {
    s.map_values(|p: PackageView| p.version)
}

/// The version string of an optional version.
pub open spec fn version_string(v: Option<Version>) -> Option<Seq<char>> {
    match v {
        Some(v) => Some(v.version@),
        None => None,
    }
}

/// The exactly named packages that are newer than `previous`; all of them
/// when no previous version is given or it names none of them.
pub open spec fn new_packages(
    s: Seq<PackageView>,
    name: Seq<char>,
    previous: Option<Seq<char>>,
) -> Seq<PackageView> {
    let named = exact_named(s, name);
    match previous {
        Some(v) => match first_id_of_version(named, v) {
            Some(cutoff) => newer_than(named, cutoff),
            None => named,
        },
        None => named,
    }
}

/// `previous` is a version of an exactly named package and none of them is newer.
pub open spec fn previous_is_latest(
    s: Seq<PackageView>,
    name: Seq<char>,
    previous: Option<Seq<char>>,
) -> bool {
    &&& previous is Some
    &&& first_id_of_version(exact_named(s, name), previous->0) is Some
    &&& new_packages(s, name, previous).len() == 0
}

/// What `check` reports: the previous version alone when it is still the
/// latest, else the versions of the new packages in ascending id order.
pub open spec fn check_result(
    s: Seq<PackageView>,
    name: Seq<char>,
    previous: Option<Seq<char>>,
) -> Seq<Seq<char>> {
    if previous_is_latest(s, name, previous) {
        seq![previous->0]
    } else {
        versions_in(sort_by_id(new_packages(s, name, previous)))
    }
}

/// Inserting at the first position, from the back, that follows no larger id.
proof fn lemma_insert_by_id_at(s: Seq<PackageView>, x: PackageView, k: int)
    requires
        0 <= k <= s.len(),
        forall|j: int| k <= j < s.len() ==> s[j].id > x.id,
        k == 0 || s[k - 1].id <= x.id,
    ensures
        insert_by_id(s, x) == s.insert(k, x),
    decreases s.len(),
{
    if s.len() == 0 {
        assert(seq![x] =~= s.insert(k, x));
    } else if s.last().id <= x.id {
        assert(s.push(x) =~= s.insert(k, x));
    } else {
        lemma_insert_by_id_at(s.drop_last(), x, k);
        assert(s.drop_last().insert(k, x).push(s.last()) =~= s.insert(k, x));
    }
}

/// Inserting by id adds exactly the new package.
pub proof fn lemma_insert_by_id_multiset(s: Seq<PackageView>, x: PackageView)
    ensures
        insert_by_id(s, x).to_multiset() =~= s.to_multiset().insert(x),
    decreases s.len(),
{
    broadcast use vstd::seq_lib::group_to_multiset_ensures;

    if s.len() == 0 {
        assert(seq![x] =~= s.push(x));
    } else if s.last().id <= x.id {
    } else {
        lemma_insert_by_id_multiset(s.drop_last(), x);
        assert(s =~= s.drop_last().push(s.last()));
    }
}

/// Sorting by id rearranges the packages and neither adds nor drops one.
pub proof fn lemma_sort_by_id_multiset(s: Seq<PackageView>)
    ensures
        sort_by_id(s).to_multiset() =~= s.to_multiset(),
    decreases s.len(),
{
    broadcast use vstd::seq_lib::group_to_multiset_ensures;

    if s.len() > 0 {
        lemma_sort_by_id_multiset(s.drop_last());
        lemma_insert_by_id_multiset(sort_by_id(s.drop_last()), s.last());
        assert(s =~= s.drop_last().push(s.last()));
    }
}

/// Every package of `insert_by_id(s, x)` is `x` or a package of `s`.
proof fn lemma_insert_by_id_contents(s: Seq<PackageView>, x: PackageView, y: PackageView)
    requires
        insert_by_id(s, x).contains(y),
    ensures
        y == x || s.contains(y),
{
    broadcast use vstd::seq_lib::group_to_multiset_ensures;

    lemma_insert_by_id_multiset(s, x);
    assert(insert_by_id(s, x).to_multiset().count(y) > 0);
}

/// Every package of `sort_by_id(s)` is a package of `s`.
proof fn lemma_sort_by_id_contents(s: Seq<PackageView>, y: PackageView)
    requires
        sort_by_id(s).contains(y),
    ensures
        s.contains(y),
{
    broadcast use vstd::seq_lib::group_to_multiset_ensures;

    lemma_sort_by_id_multiset(s);
    assert(sort_by_id(s).to_multiset().count(y) > 0);
}

/// Inserting by id into a sorted sequence keeps it sorted.
proof fn lemma_insert_by_id_sorted(s: Seq<PackageView>, x: PackageView)
    requires
        sorted_by_id(s),
    ensures
        sorted_by_id(insert_by_id(s, x)),
    decreases s.len(),
{
    if s.len() > 0 && s.last().id > x.id {
        let d = s.drop_last();
        lemma_insert_by_id_sorted(d, x);
        let inner = insert_by_id(d, x);
        assert forall|i: int| 0 <= i < inner.len() implies inner[i].id <= s.last().id by {
            lemma_insert_by_id_contents(d, x, inner[i]);
            if inner[i] != x {
                let j = choose|j: int| 0 <= j < d.len() && d[j] == inner[i];
                assert(s[j] == d[j]);
            }
        }
    }
}

/// Sorting by id yields non-decreasing ids.
pub proof fn lemma_sort_by_id_sorted(s: Seq<PackageView>)
    ensures
        sorted_by_id(sort_by_id(s)),
    decreases s.len(),
{
    if s.len() > 0 {
        lemma_sort_by_id_sorted(s.drop_last());
        lemma_insert_by_id_sorted(sort_by_id(s.drop_last()), s.last());
    }
}

/// No package of `s` has id `id`.
pub open spec fn avoids_id(s: Seq<PackageView>, id: u64) -> bool {
    forall|i: int| 0 <= i < s.len() ==> s[i].id != id
}

/// A package of a sequence has none of the ids that the sequence avoids.
proof fn lemma_avoids_contains(s: Seq<PackageView>, id: u64, y: PackageView)
    requires
        avoids_id(s, id),
        s.contains(y),
    ensures
        y.id != id,
{
    let j = choose|j: int| 0 <= j < s.len() && s[j] == y;
}

/// Inserting a package with a fresh id keeps the ids distinct.
proof fn lemma_insert_by_id_distinct(s: Seq<PackageView>, x: PackageView)
    requires
        distinct_ids(s),
        avoids_id(s, x.id),
    ensures
        distinct_ids(insert_by_id(s, x)),
    decreases s.len(),
{
    if s.len() > 0 && s.last().id > x.id {
        let d = s.drop_last();
        lemma_insert_by_id_distinct(d, x);
        let inner = insert_by_id(d, x);
        assert(avoids_id(d, s.last().id));
        assert forall|i: int| 0 <= i < inner.len() implies inner[i].id != s.last().id by {
            lemma_insert_by_id_contents(d, x, inner[i]);
            if inner[i] != x {
                lemma_avoids_contains(d, s.last().id, inner[i]);
            }
        }
        assert(insert_by_id(s, x) == inner.push(s.last()));
    } else if s.len() > 0 {
        assert(insert_by_id(s, x) == s.push(x));
    }
}

/// Sorting by id keeps distinct ids distinct.
proof fn lemma_sort_by_id_distinct(s: Seq<PackageView>)
    requires
        distinct_ids(s),
    ensures
        distinct_ids(sort_by_id(s)),
    decreases s.len(),
{
    if s.len() > 0 {
        let d = s.drop_last();
        lemma_sort_by_id_distinct(d);
        let sd = sort_by_id(d);
        assert forall|i: int| 0 <= i < sd.len() implies sd[i].id != s.last().id by {
            lemma_sort_by_id_contents(d, sd[i]);
            let j = choose|j: int| 0 <= j < d.len() && d[j] == sd[i];
            assert(s[j] == d[j]);
        }
        lemma_insert_by_id_distinct(sd, s.last());
    }
}

/// Filtering keeps distinct ids distinct.
proof fn lemma_filter_distinct(s: Seq<PackageView>, pred: spec_fn(PackageView) -> bool)
    requires
        distinct_ids(s),
    ensures
        distinct_ids(s.filter(pred)),
    decreases s.len(),
{
    reveal(Seq::filter);
    if s.len() > 0 {
        let d = s.drop_last();
        lemma_filter_distinct(d, pred);
        let fd = d.filter(pred);
        assert forall|i: int| 0 <= i < fd.len() implies fd[i].id != s.last().id by {
            d.lemma_filter_contains_rev(pred, fd[i]);
            let j = choose|j: int| 0 <= j < d.len() && d[j] == fd[i];
            assert(s[j] == d[j]);
        }
    }
}

/// Filtering twice by the same predicate is filtering once.
proof fn lemma_filter_idempotent(s: Seq<PackageView>, pred: spec_fn(PackageView) -> bool)
    ensures
        s.filter(pred).filter(pred) == s.filter(pred),
    decreases s.len(),
{
    reveal(Seq::filter);
    if s.len() > 0 {
        lemma_filter_idempotent(s.drop_last(), pred);
        let fd = s.drop_last().filter(pred);
        if pred(s.last()) {
            assert(fd.push(s.last()).drop_last() =~= fd);
        }
    }
}

/// Exact-name filtering comes before everything else: the report depends
/// only on the exactly named packages, so entries whose name merely
/// contains the requested one change nothing, and every package that the
/// report is drawn from carries the requested name.
pub proof fn lemma_check_sees_only_exact_names(
    s: Seq<PackageView>,
    name: Seq<char>,
    previous: Option<Seq<char>>,
)
    ensures
        check_result(exact_named(s, name), name, previous) == check_result(s, name, previous),
        forall|i: int|
            0 <= i < new_packages(s, name, previous).len() ==> (#[trigger] new_packages(
                s,
                name,
                previous,
            )[i]).name == name,
{
    lemma_filter_idempotent(s, has_name(name));
    let named = exact_named(s, name);
    assert forall|i: int| 0 <= i < new_packages(s, name, previous).len() implies (
    #[trigger] new_packages(s, name, previous)[i]).name == name by {
        let np = new_packages(s, name, previous);
        if np != named {
            let cutoff = first_id_of_version(named, previous->0)->0;
            named.lemma_filter_contains_rev(is_newer(cutoff), np[i]);
            let j = choose|j: int| 0 <= j < named.len() && named[j] == np[i];
            s.lemma_filter_pred(has_name(name), j);
        } else {
            s.lemma_filter_pred(has_name(name), i);
        }
    }
}

/// When the previous version is the newest exactly named package, the
/// report is that version alone, and asking again with it reports the same.
pub proof fn lemma_check_at_latest_is_stable(s: Seq<PackageView>, name: Seq<char>, v: Seq<char>)
    requires
        first_id_of_version(exact_named(s, name), v) is Some,
        forall|i: int|
            0 <= i < exact_named(s, name).len() ==> #[trigger] exact_named(s, name)[i].id
                <= first_id_of_version(exact_named(s, name), v)->0,
    ensures
        check_result(s, name, Some(v)) == seq![v],
        check_result(s, name, Some(check_result(s, name, Some(v)).last())) == seq![v],
{
    let named = exact_named(s, name);
    let cutoff = first_id_of_version(named, v)->0;
    let np = newer_than(named, cutoff);
    if np.len() > 0 {
        // The newer package is an exactly named one, so its id is at most the cutoff.
        assert(np.contains(np[0]));
        named.lemma_filter_contains_rev(is_newer(cutoff), np[0]);
        named.lemma_filter_pred(is_newer(cutoff), 0);
    }
    assert(seq![v].last() == v);
}

/// The packages that a report is drawn from come in strictly ascending id
/// order, provided no two exactly named packages share an id.
pub proof fn lemma_check_strictly_ascending(
    s: Seq<PackageView>,
    name: Seq<char>,
    previous: Option<Seq<char>>,
)
    requires
        distinct_ids(exact_named(s, name)),
    ensures
        strictly_ascending_ids(sort_by_id(new_packages(s, name, previous))),
        !previous_is_latest(s, name, previous) ==> check_result(s, name, previous) == versions_in(
            sort_by_id(new_packages(s, name, previous)),
        ),
{
    let named = exact_named(s, name);
    let np = new_packages(s, name, previous);
    if np != named {
        lemma_filter_distinct(named, is_newer(first_id_of_version(named, previous->0)->0));
    }
    lemma_sort_by_id_sorted(np);
    lemma_sort_by_id_distinct(np);
}

/// A previous version that no exactly named package carries is ignored: the
/// report is the whole exactly named history, as if none had been given.
pub proof fn lemma_check_unknown_previous(s: Seq<PackageView>, name: Seq<char>, v: Seq<char>)
    requires
        first_id_of_version(exact_named(s, name), v) is None,
    ensures
        check_result(s, name, Some(v)) == check_result(s, name, None),
        check_result(s, name, None) == versions_in(sort_by_id(exact_named(s, name))),
{
}

/// Keeps the packages named exactly `name`, in their order.
pub fn retain_exact_name(packages: &Vec<Package>, name: &String) -> (r: Vec<Package>)
    ensures
        package_views(r@) == exact_named(package_views(packages@), name@),
{
    let ghost pv = package_views(packages@);
    let mut out: Vec<Package> = Vec::new();
    let mut i: usize = 0;
    while i < packages.len()
        invariant
            i <= packages.len(),
            pv == package_views(packages@),
            package_views(out@) == pv.take(i as int).filter(has_name(name@)),
        decreases packages.len() - i,
    {
        proof {
            reveal(Seq::filter);
            assert(pv.take(i + 1).drop_last() =~= pv.take(i as int));
        }
        if packages[i].name.eq(name) {
            let p = packages[i].copy();
            out.push(p);
            assert(package_views(out@) =~= pv.take(i + 1).filter(has_name(name@)));
        } else {
            assert(package_views(out@) =~= pv.take(i + 1).filter(has_name(name@)));
        }
        i += 1;
    }
    assert(pv.take(packages.len() as int) =~= pv);
    out
}

/// Keeps the packages whose id is above `cutoff`, in their order.
pub fn retain_newer(packages: &Vec<Package>, cutoff: u64) -> (r: Vec<Package>)
    ensures
        package_views(r@) == newer_than(package_views(packages@), cutoff),
{
    let ghost pv = package_views(packages@);
    let mut out: Vec<Package> = Vec::new();
    let mut i: usize = 0;
    while i < packages.len()
        invariant
            i <= packages.len(),
            pv == package_views(packages@),
            package_views(out@) == pv.take(i as int).filter(is_newer(cutoff)),
        decreases packages.len() - i,
    {
        proof {
            reveal(Seq::filter);
            assert(pv.take(i + 1).drop_last() =~= pv.take(i as int));
        }
        if packages[i].id > cutoff {
            let p = packages[i].copy();
            out.push(p);
            assert(package_views(out@) =~= pv.take(i + 1).filter(is_newer(cutoff)));
        } else {
            assert(package_views(out@) =~= pv.take(i + 1).filter(is_newer(cutoff)));
        }
        i += 1;
    }
    assert(pv.take(packages.len() as int) =~= pv);
    out
}

/// The id of the first package whose version is `version`.
pub fn cutoff_id(packages: &Vec<Package>, version: &String) -> (r: Option<u64>)
    ensures
        r == first_id_of_version(package_views(packages@), version@),
{
    let ghost pv = package_views(packages@);
    let mut i: usize = 0;
    assert(pv.subrange(0, pv.len() as int) =~= pv);
    while i < packages.len()
        invariant
            i <= packages.len(),
            pv == package_views(packages@),
            first_id_of_version(pv, version@) == first_id_of_version(
                pv.subrange(i as int, pv.len() as int),
                version@,
            ),
        decreases packages.len() - i,
    {
        let ghost rest = pv.subrange(i as int, pv.len() as int);
        assert(rest.subrange(1, rest.len() as int) =~= pv.subrange(i + 1, pv.len() as int));
        assert(rest[0] == packages@[i as int]@);
        if packages[i].version.eq(version) {
            return Some(packages[i].id);
        }
        i += 1;
    }
    None
}

/// A copy of `packages` sorted by ascending id; equal ids keep their order.
pub fn sort_packages_by_id(packages: &Vec<Package>) -> (r: Vec<Package>)
    ensures
        package_views(r@) == sort_by_id(package_views(packages@)),
{
    let ghost pv = package_views(packages@);
    let mut out: Vec<Package> = Vec::new();
    let mut i: usize = 0;
    assert(pv.take(0) =~= Seq::<PackageView>::empty());
    while i < packages.len()
        invariant
            i <= packages.len(),
            out@.len() == i,
            pv == package_views(packages@),
            package_views(out@) == sort_by_id(pv.take(i as int)),
        decreases packages.len() - i,
    {
        let id = packages[i].id;
        let mut k: usize = out.len();
        while k > 0 && out[k - 1].id > id
            invariant
                k <= out@.len(),
                forall|j: int| k <= j < out@.len() ==> out@[j].id > id,
            decreases k,
        {
            k -= 1;
        }
        let ghost before = package_views(out@);
        proof {
            lemma_insert_by_id_at(before, pv[i as int], k as int);
            assert(pv.take(i + 1).drop_last() =~= pv.take(i as int));
        }
        let p = packages[i].copy();
        out.insert(k, p);
        assert(package_views(out@) =~= before.insert(k as int, pv[i as int]));
        i += 1;
    }
    assert(pv.take(packages.len() as int) =~= pv);
    out
}

/// The versions of `packages`, in their order.
pub fn versions_of(packages: &Vec<Package>) -> (r: Vec<Version>)
    ensures
        version_strings(r@) == versions_in(package_views(packages@)),
{
    let mut out: Vec<Version> = Vec::new();
    let mut i: usize = 0;
    while i < packages.len()
        invariant
            i <= packages.len(),
            out@.len() == i,
            version_strings(out@) == versions_in(package_views(packages@)).take(i as int),
        decreases packages.len() - i,
    {
        let v = Version { version: packages[i].version.clone() };
        let ghost before = out@;
        out.push(v);
        assert(out@ =~= before.push(v));
        assert(version_strings(out@) =~= versions_in(package_views(packages@)).take(i + 1));
        i += 1;
    }
    assert(versions_in(package_views(packages@)).take(packages.len() as int)
        =~= versions_in(package_views(packages@)));
    out
}

/// The versions that a `check` reports, oldest first, given every package
/// that the registry's name search returned.
pub fn check_versions(packages: &Vec<Package>, package: &String, previous: &Option<Version>) -> (r:
    Vec<Version>)
    ensures
        version_strings(r@) == check_result(
            package_views(packages@),
            package@,
            version_string(*previous),
        ),
{
    let named = retain_exact_name(packages, package);
    if let Some(prev) = previous {
        if let Some(cutoff) = cutoff_id(&named, &prev.version) {
            let newer = retain_newer(&named, cutoff);
            if newer.len() == 0 {
                let mut r: Vec<Version> = Vec::new();
                r.push(Version { version: prev.version.clone() });
                assert(version_strings(r@) =~= seq![prev.version@]);
                return r;
            }
            let sorted = sort_packages_by_id(&newer);
            return versions_of(&sorted);
        }
    }
    let sorted = sort_packages_by_id(&named);
    versions_of(&sorted)
}

} // verus!
