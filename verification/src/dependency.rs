//! Ordering of bootstrap loaders by their declared dependencies.
//!
//! Every loader has a name and a list of names of loaders that must run before it.
//! The order is found greedily: the remaining loaders are scanned in the order they
//! were registered, and the first one whose dependencies are all satisfied is placed
//! next. Meeting a loader whose name was already placed is an error, and so is a
//! scan that finds no loader to place.
use vstd::prelude::*;

verus! {

/// The name of a bootstrap loader and the names of the loaders it depends on.
#[derive(Debug)]
pub struct LoaderDependencies {
    pub name: String,
    pub depends_on: Vec<String>,
}

/// Why no load order could be found.
#[derive(Debug)]
pub enum LoaderOrderError {
    /// A loader carries the name of a loader that was already placed.
    DuplicateLoader(String),
    /// No remaining loader has all of its dependencies placed; the indices of the
    /// loaders still remaining, in registration order.
    UnresolvedDependencies(Vec<usize>),
}

/// The character sequences of a list of strings.
pub open spec fn string_views(v: Seq<String>) -> Seq<Seq<char>> {
    v.map_values(|s: String| s@)
}

/// Abstract view of one loader: its name and its dependency names.
pub open spec fn dependency_view(l: LoaderDependencies) -> (Seq<char>, Seq<Seq<char>>) {
    (l.name@, string_views(l.depends_on@))
}

/// Abstract view of a list of loaders.
pub open spec fn loaders_view(ls: Seq<LoaderDependencies>) -> Seq<(Seq<char>, Seq<Seq<char>>)> {
    ls.map_values(|l: LoaderDependencies| dependency_view(l))
}

/// Some loader already placed carries `name`.
pub open spec fn name_satisfied(
    g: Seq<(Seq<char>, Seq<Seq<char>>)>,
    placed: Seq<int>,
    name: Seq<char>,
) -> bool {
    exists|k: int| 0 <= k < placed.len() && #[trigger] g[placed[k]].0 == name
}

/// Every dependency of loader `i` is the name of a loader already placed.
pub open spec fn dependencies_met(
    g: Seq<(Seq<char>, Seq<Seq<char>>)>,
    placed: Seq<int>,
    i: int,
) -> bool {
    forall|d: int| 0 <= d < g[i].1.len() ==> name_satisfied(g, placed, #[trigger] g[i].1[d])
}

/// The scan over the remaining loaders stops at loader `i`: it is not placed yet and
/// either its name is already taken or it is ready to be placed.
pub open spec fn stops_scan(g: Seq<(Seq<char>, Seq<Seq<char>>)>, placed: Seq<int>, i: int) -> bool {
    &&& !placed.contains(i)
    &&& (name_satisfied(g, placed, g[i].0) || dependencies_met(g, placed, i))
}

/// Where one scan over the remaining loaders ends.
pub enum ScanStop {
    Ready(int),
    Duplicate(int),
    Exhausted,
}

/// The scan over loaders `q`, `q + 1`, ... given the loaders placed so far.
pub open spec fn scan_from(g: Seq<(Seq<char>, Seq<Seq<char>>)>, placed: Seq<int>, q: int) -> ScanStop
    decreases g.len() - q,
{
    if q < 0 || q >= g.len() {
        ScanStop::Exhausted
    } else if stops_scan(g, placed, q) {
        if name_satisfied(g, placed, g[q].0) {
            ScanStop::Duplicate(q)
        } else {
            ScanStop::Ready(q)
        }
    } else {
        scan_from(g, placed, q + 1)
    }
}

/// Outcome of ordering the loaders.
pub enum LoadOrderOutcome {
    /// Every loader placed, in this order of indices.
    Ordered(Seq<int>),
    /// Loader `i` repeats a name; the loaders placed before the scan reached it.
    Duplicate(Seq<int>, int),
    /// No remaining loader could be placed after the loaders given.
    Unresolved(Seq<int>),
}

/// The greedy ordering, continued from the loaders already placed.
pub open spec fn resolve_from(g: Seq<(Seq<char>, Seq<Seq<char>>)>, placed: Seq<int>) -> LoadOrderOutcome
    decreases g.len() - placed.len(),
{
    if placed.len() >= g.len() {
        LoadOrderOutcome::Ordered(placed)
    } else {
        match scan_from(g, placed, 0) {
            ScanStop::Ready(i) => resolve_from(g, placed.push(i)),
            ScanStop::Duplicate(i) => LoadOrderOutcome::Duplicate(placed, i),
            ScanStop::Exhausted => LoadOrderOutcome::Unresolved(placed),
        }
    }
}

/// The greedy ordering of all loaders.
pub open spec fn resolve_load_order(g: Seq<(Seq<char>, Seq<Seq<char>>)>) -> LoadOrderOutcome {
    resolve_from(g, Seq::empty())
}

/// `rem` lists, in increasing order, exactly the indices below `n` missing from `placed`.
pub open spec fn lists_unplaced(n: int, placed: Seq<int>, rem: Seq<usize>) -> bool {
    &&& forall|a: int, b: int| 0 <= a < b < rem.len() ==> rem[a] < rem[b]
    &&& forall|a: int| 0 <= a < rem.len() ==> rem[a] < n
    &&& forall|i: int| 0 <= i < n ==> (rem.contains(i as usize) <==> !placed.contains(i))
}

/// The result of [`resolve_loader_order`] agrees with the greedy ordering.
pub open spec fn order_result_matches(
    r: Result<Vec<usize>, LoaderOrderError>,
    g: Seq<(Seq<char>, Seq<Seq<char>>)>,
) -> bool {
    match resolve_load_order(g) {
        LoadOrderOutcome::Ordered(p) => r matches Ok(order) && order@.map_values(|i: usize| i as int)
            == p,
        LoadOrderOutcome::Duplicate(_, i) => r matches Err(LoaderOrderError::DuplicateLoader(name))
            && name@ == g[i].0,
        LoadOrderOutcome::Unresolved(p) => r matches Err(
            LoaderOrderError::UnresolvedDependencies(rem),
        ) && lists_unplaced(g.len() as int, p, rem@),
    }
}

/// `names` holds `name`.
fn contains_name(names: &Vec<String>, name: &String) -> (r: bool)
    ensures
        r == string_views(names@).contains(name@),
{
    let ghost view = string_views(names@);
    let mut i: usize = 0;
    while i < names.len()
        invariant
            i <= names.len(),
            view == string_views(names@),
            forall|j: int| 0 <= j < i ==> view[j] != name@,
        decreases names.len() - i,
    {
        if names[i].eq(name) {
            assert(view[i as int] == name@);
            return true;
        }
        i = i + 1;
    }
    assert forall|j: int| 0 <= j < view.len() implies view[j] != name@ by {}
    false
}

/// With the names of the placed loaders at hand, a name is taken exactly when it is among them.
proof fn lemma_satisfied_names(
    g: Seq<(Seq<char>, Seq<Seq<char>>)>,
    placed: Seq<int>,
    names: Seq<Seq<char>>,
    name: Seq<char>,
)
    requires
        names == placed.map_values(|i: int| g[i].0),
    ensures
        names.contains(name) == name_satisfied(g, placed, name),
{
    if names.contains(name) {
        let k = choose|k: int| 0 <= k < names.len() && names[k] == name;
        assert(g[placed[k]].0 == name);
    }
    if name_satisfied(g, placed, name) {
        let k = choose|k: int| 0 <= k < placed.len() && #[trigger] g[placed[k]].0 == name;
        assert(names[k] == name);
    }
}

/// Every name in `deps` is in `names`.
fn all_names_present(names: &Vec<String>, deps: &Vec<String>) -> (r: bool)
    ensures
        r == forall|d: int|
            0 <= d < deps@.len() ==> #[trigger] string_views(names@).contains(
                deps@[d]@,
            ),
{
    let mut d: usize = 0;
    while d < deps.len()
        invariant
            d <= deps.len(),
            forall|e: int|
                0 <= e < d ==> #[trigger] string_views(names@).contains(deps@[e]@),
        decreases deps.len() - d,
    {
        if !contains_name(names, &deps[d]) {
            return false;
        }
        d = d + 1;
    }
    true
}

/// Skipping loaders that do not stop the scan leaves its outcome unchanged.
proof fn lemma_scan_skip(g: Seq<(Seq<char>, Seq<Seq<char>>)>, placed: Seq<int>, a: int, b: int)
    requires
        0 <= a <= b <= g.len(),
        forall|i: int| a <= i < b ==> !stops_scan(g, placed, i),
    ensures
        scan_from(g, placed, a) == scan_from(g, placed, b),
    decreases b - a,
{
    if a < b {
        lemma_scan_skip(g, placed, a + 1, b);
    }
}

/// Placing the loader at position `q` of the remaining list keeps the list exact.
proof fn lemma_place_remaining(n: int, placed: Seq<int>, rem: Seq<usize>, q: int)
    requires
        lists_unplaced(n, placed, rem),
        0 <= q < rem.len(),
        n <= usize::MAX,
    ensures
        lists_unplaced(n, placed.push(rem[q] as int), rem.remove(q)),
{
    let idx = rem[q];
    let placed2 = placed.push(idx as int);
    let rem2 = rem.remove(q);
    assert forall|a: int, b: int| 0 <= a < b < rem2.len() implies rem2[a] < rem2[b] by {
        let a2 = if a < q { a } else { a + 1 };
        let b2 = if b < q { b } else { b + 1 };
        assert(rem2[a] == rem[a2]);
        assert(rem2[b] == rem[b2]);
    }
    assert forall|a: int| 0 <= a < rem2.len() implies rem2[a] < n by {
        let a2 = if a < q { a } else { a + 1 };
        assert(rem2[a] == rem[a2]);
    }
    assert forall|x: int| 0 <= x < n implies (rem2.contains(x as usize) <==> !placed2.contains(x)) by {
        let xu = x as usize;
        assert(xu as int == x);
        if rem2.contains(xu) {
            let k = choose|k: int| 0 <= k < rem2.len() && rem2[k] == xu;
            let k2 = if k < q { k } else { k + 1 };
            assert(rem[k2] == xu);
            assert(rem.contains(xu));
            assert(!placed.contains(x));
            if k2 < q {
                assert(rem[k2] < rem[q]);
            } else {
                assert(rem[q] < rem[k2]);
            }
            assert(x != idx as int);
            if placed2.contains(x) {
                let j = choose|j: int| 0 <= j < placed2.len() && placed2[j] == x;
                if j < placed.len() {
                    assert(placed[j] == x);
                }
                assert(false);
            }
        } else {
            if !placed2.contains(x) {
                if placed.contains(x) {
                    let j = choose|j: int| 0 <= j < placed.len() && placed[j] == x;
                    assert(placed2[j] == x);
                }
                assert(!placed.contains(x));
                assert(rem.contains(xu));
                let k = choose|k: int| 0 <= k < rem.len() && rem[k] == xu;
                if k < q {
                    assert(rem2[k] == xu);
                } else if k > q {
                    assert(rem2[k - 1] == xu);
                } else {
                    assert(placed2[placed2.len() - 1] == x);
                }
                assert(false);
            }
        }
    }
}

/// Where the scan over the remaining loaders stops, by position in `rem`.
enum RemainingScan {
    Ready(usize),
    Duplicate(usize),
    Exhausted,
}

/// Scans the remaining loaders `rem` (increasing indices) given the names of those placed.
fn scan_remaining(
    loaders: &Vec<LoaderDependencies>,
    rem: &Vec<usize>,
    satisfied: &Vec<String>,
    Ghost(placed): Ghost<Seq<int>>,
) -> (r: RemainingScan)
    requires
        lists_unplaced(loaders@.len() as int, placed, rem@),
        string_views(satisfied@) == placed.map_values(
            |i: int| loaders_view(loaders@)[i].0,
        ),
    ensures
        match r {
            RemainingScan::Ready(q) => q < rem@.len() && scan_from(loaders_view(loaders@), placed, 0)
                == ScanStop::Ready(rem@[q as int] as int),
            RemainingScan::Duplicate(q) => q < rem@.len() && scan_from(
                loaders_view(loaders@),
                placed,
                0,
            ) == ScanStop::Duplicate(rem@[q as int] as int),
            RemainingScan::Exhausted => scan_from(loaders_view(loaders@), placed, 0)
                == ScanStop::Exhausted,
        },
{
    let ghost g = loaders_view(loaders@);
    let ghost names = string_views(satisfied@);
    let ghost n = loaders@.len() as int;
    let len = loaders.len();
    let mut q: usize = 0;
    while q < rem.len()
        invariant
            q <= rem@.len(),
            g == loaders_view(loaders@),
            n == loaders@.len(),
            n == len,
            names == string_views(satisfied@),
            names == placed.map_values(|i: int| g[i].0),
            lists_unplaced(n, placed, rem@),
            forall|i: int|
                0 <= i < (if q < rem@.len() {
                    rem@[q as int] as int
                } else {
                    n
                }) ==> !stops_scan(g, placed, i),
        decreases rem.len() - q,
    {
        let idx = rem[q];
        let loader = &loaders[idx];
        assert(g[idx as int] == dependency_view(loaders@[idx as int]));
        let taken = contains_name(satisfied, &loader.name);
        proof {
            lemma_satisfied_names(g, placed, names, g[idx as int].0);
            assert(rem@.contains(idx));
            assert(!placed.contains(idx as int));
            lemma_scan_skip(g, placed, 0, idx as int);
        }
        if taken {
            return RemainingScan::Duplicate(q);
        }
        let ready = all_names_present(satisfied, &loader.depends_on);
        assert(ready == dependencies_met(g, placed, idx as int)) by {
            assert(g[idx as int].1 == string_views(loader.depends_on@));
            if ready {
                assert forall|d: int| 0 <= d < g[idx as int].1.len() implies name_satisfied(
                    g,
                    placed,
                    #[trigger] g[idx as int].1[d],
                ) by {
                    assert(names.contains(loader.depends_on@[d]@));
                    lemma_satisfied_names(g, placed, names, g[idx as int].1[d]);
                }
            } else {
                let d = choose|d: int|
                    0 <= d < loader.depends_on@.len() && !(
                    #[trigger] names.contains(loader.depends_on@[d]@));
                lemma_satisfied_names(g, placed, names, g[idx as int].1[d]);
                assert(!dependencies_met(g, placed, idx as int));
            }
        }
        if ready {
            return RemainingScan::Ready(q);
        }
        proof {
            let next = if q + 1 < rem@.len() {
                rem@[q + 1] as int
            } else {
                n
            };
            assert forall|i: int| 0 <= i < next implies !stops_scan(g, placed, i) by {
                if i == idx {
                    assert(!name_satisfied(g, placed, g[idx as int].0));
                    assert(!dependencies_met(g, placed, idx as int));
                } else if i > idx && !placed.contains(i) {
                    assert(i < n);
                    assert(rem@.contains(i as usize));
                    let k = choose|k: int| 0 <= k < rem@.len() && rem@[k] == i as usize;
                    assert(rem@[k] as int == i);
                    if k < q {
                        assert(rem@[k] < rem@[q as int]);
                    } else if k > q + 1 {
                        assert(rem@[q + 1] < rem@[k]);
                    }
                    assert(false);
                } else if i < idx {
                    assert(!stops_scan(g, placed, i));
                }
            }
        }
        q = q + 1;
    }
    proof {
        lemma_scan_skip(g, placed, 0, n);
    }
    RemainingScan::Exhausted
}

/// Orders the loaders so that each follows the loaders it depends on.
///
/// The remaining loaders are scanned in registration order; the first one whose name is
/// already placed makes the result `DuplicateLoader` with that name, and the first one
/// whose dependencies are all placed is placed next. When a scan places nothing, the
/// result is `UnresolvedDependencies` with the indices of the loaders left.
pub fn resolve_loader_order(loaders: &Vec<LoaderDependencies>) -> (r: Result<
    Vec<usize>,
    LoaderOrderError,
>)
    ensures
        order_result_matches(r, loaders_view(loaders@)),
{
    let ghost g = loaders_view(loaders@);
    let n = loaders.len();
    let mut remaining: Vec<usize> = Vec::new();
    let mut i: usize = 0;
    while i < n
        invariant
            i <= n,
            n == loaders@.len(),
            remaining@.len() == i,
            forall|a: int| 0 <= a < i ==> remaining@[a] == a,
        decreases n - i,
    {
        remaining.push(i);
        i = i + 1;
    }
    let mut order: Vec<usize> = Vec::new();
    let mut satisfied: Vec<String> = Vec::new();
    proof {
        assert(order@.map_values(|i: usize| i as int) =~= Seq::<int>::empty());
        assert(string_views(satisfied@) =~= Seq::<int>::empty().map_values(
            |i: int| g[i].0,
        ));
        assert forall|x: int| 0 <= x < n implies (remaining@.contains(x as usize)
            <==> !Seq::<int>::empty().contains(x)) by {
            assert(remaining@[x] == x as usize);
        }
    }
    loop
        invariant
            n == loaders@.len(),
            g == loaders_view(loaders@),
            order@.len() + remaining@.len() == n,
            forall|k: int| 0 <= k < order@.len() ==> order@[k] < n,
            resolve_from(g, order@.map_values(|i: usize| i as int)) == resolve_load_order(g),
            lists_unplaced(n as int, order@.map_values(|i: usize| i as int), remaining@),
            string_views(satisfied@) == order@.map_values(|i: usize| i as int).map_values(
                |i: int| g[i].0,
            ),
        decreases remaining@.len(),
    {
        let ghost placed = order@.map_values(|i: usize| i as int);
        if remaining.len() == 0 {
            return Ok(order);
        }
        match scan_remaining(loaders, &remaining, &satisfied, Ghost(placed)) {
            RemainingScan::Ready(q) => {
                let ghost old_rem = remaining@;
                let ghost old_sat = satisfied@;
                let idx = remaining.remove(q);
                let name = loaders[idx].name.clone();
                order.push(idx);
                satisfied.push(name);
                proof {
                    let placed2 = order@.map_values(|i: usize| i as int);
                    assert(placed2 =~= placed.push(idx as int));
                    assert(g[idx as int] == dependency_view(loaders@[idx as int]));
                    assert(satisfied@ =~= old_sat.push(name));
                    assert(name@ == g[idx as int].0);
                    assert(string_views(old_sat).len() == old_sat.len());
                    assert(old_sat.len() == placed.len());
                    assert(satisfied@.len() == placed2.len());
                    assert forall|j: int| 0 <= j < placed2.len() implies #[trigger] string_views(satisfied@)[j]
                        == placed2.map_values(|i: int| g[i].0)[j] by {
                        if j < placed.len() {
                            assert(string_views(old_sat)[j] == placed.map_values(|i: int| g[i].0)[j]);
                            assert(satisfied@[j] == old_sat[j]);
                            assert(placed2[j] == placed[j]);
                        } else {
                            assert(satisfied@[j] == name);
                            assert(placed2[j] == idx as int);
                        }
                    }
                    assert(string_views(satisfied@) =~= placed2.map_values(
                        |i: int| g[i].0,
                    ));
                    assert(old_rem.remove(q as int) =~= remaining@);
                    lemma_place_remaining(n as int, placed, old_rem, q as int);
                    assert(resolve_from(g, placed) == resolve_from(g, placed.push(idx as int)));
                }
            },
            RemainingScan::Duplicate(q) => {
                let idx = remaining[q];
                proof {
                    assert(g[idx as int] == dependency_view(loaders@[idx as int]));
                    assert(resolve_from(g, placed) == LoadOrderOutcome::Duplicate(
                        placed,
                        idx as int,
                    ));
                }
                return Err(LoaderOrderError::DuplicateLoader(loaders[idx].name.clone()));
            },
            RemainingScan::Exhausted => {
                proof {
                    assert(resolve_from(g, placed) == LoadOrderOutcome::Unresolved(placed));
                }
                return Err(LoaderOrderError::UnresolvedDependencies(remaining));
            },
        }
    }
}

/// `p` lists every loader exactly once, and each dependency of a loader is the name of a
/// loader placed before it.
pub open spec fn is_valid_load_order(g: Seq<(Seq<char>, Seq<Seq<char>>)>, p: Seq<int>) -> bool {
    &&& p.len() == g.len()
    &&& forall|k: int| 0 <= k < p.len() ==> 0 <= #[trigger] p[k] < g.len()
    &&& p.no_duplicates()
    &&& follows_dependencies(g, p)
}

/// Some loader among the first `k` of `p` carries `name`.
pub open spec fn placed_before(g: Seq<(Seq<char>, Seq<Seq<char>>)>, p: Seq<int>, k: int, name: Seq<char>) -> bool {
    exists|j: int| 0 <= j < k && #[trigger] g[p[j]].0 == name
}

/// Each dependency of a loader in `p` is the name of a loader placed before it.
pub open spec fn follows_dependencies(g: Seq<(Seq<char>, Seq<Seq<char>>)>, p: Seq<int>) -> bool {
    forall|k: int, d: int|
        0 <= k < p.len() && 0 <= d < g[p[k]].1.len() ==> #[trigger] placed_before(g, p, k, g[p[k]].1[d])
}

/// No two loaders carry the same name.
pub open spec fn names_distinct(g: Seq<(Seq<char>, Seq<Seq<char>>)>) -> bool {
    forall|i: int, j: int| 0 <= i < j < g.len() ==> g[i].0 != g[j].0
}

/// The loaders in `p` carry pairwise different names.
pub open spec fn placed_names_distinct(g: Seq<(Seq<char>, Seq<Seq<char>>)>, p: Seq<int>) -> bool {
    forall|a: int, b: int| 0 <= a < b < p.len() ==> g[p[a]].0 != g[p[b]].0
}

/// What holds of the loaders placed at any point of the greedy ordering.
spec fn placed_well(g: Seq<(Seq<char>, Seq<Seq<char>>)>, p: Seq<int>) -> bool {
    &&& p.len() <= g.len()
    &&& forall|k: int| 0 <= k < p.len() ==> 0 <= #[trigger] p[k] < g.len()
    &&& p.no_duplicates()
    &&& placed_names_distinct(g, p)
    &&& follows_dependencies(g, p)
}

/// What a scan's outcome says of the loaders it passed.
proof fn lemma_scan_outcome(g: Seq<(Seq<char>, Seq<Seq<char>>)>, placed: Seq<int>, q: int)
    requires
        0 <= q,
    ensures
        match scan_from(g, placed, q) {
            ScanStop::Ready(i) => q <= i < g.len() && stops_scan(g, placed, i) && !name_satisfied(
                g,
                placed,
                g[i].0,
            ),
            ScanStop::Duplicate(i) => q <= i < g.len() && !placed.contains(i) && name_satisfied(
                g,
                placed,
                g[i].0,
            ),
            ScanStop::Exhausted => forall|j: int| q <= j < g.len() ==> !stops_scan(g, placed, j),
        },
    decreases g.len() - q,
{
    if q < g.len() && !stops_scan(g, placed, q) {
        lemma_scan_outcome(g, placed, q + 1);
    }
}

/// Placing a ready loader keeps the placed loaders well formed.
proof fn lemma_place_ready(g: Seq<(Seq<char>, Seq<Seq<char>>)>, p: Seq<int>, i: int)
    requires
        placed_well(g, p),
        p.len() < g.len(),
        0 <= i < g.len(),
        stops_scan(g, p, i),
        !name_satisfied(g, p, g[i].0),
    ensures
        placed_well(g, p.push(i)),
{
    let p2 = p.push(i);
    assert(dependencies_met(g, p, i));
    assert forall|a: int, b: int| 0 <= a < p2.len() && 0 <= b < p2.len() && a != b implies p2[a]
        != p2[b] by {
        if b == p.len() {
            assert(p.contains(p2[a]));
        } else if a == p.len() {
            assert(p.contains(p2[b]));
        }
    }
    assert(p2.no_duplicates());
    assert forall|k: int| 0 <= k < p2.len() implies 0 <= #[trigger] p2[k] < g.len() by {
        if k < p.len() {
            assert(p2[k] == p[k]);
        }
    }
    assert forall|a: int, b: int| 0 <= a < b < p2.len() implies g[p2[a]].0 != g[p2[b]].0 by {
        if b == p.len() {
            assert(g[p[a]].0 != g[i].0);
        }
    }
    assert forall|k: int, d: int| 0 <= k < p2.len() && 0 <= d < g[p2[k]].1.len() implies #[trigger] placed_before(g, p2, k, g[p2[k]].1[d]) by {
        if k < p.len() {
            assert(placed_before(g, p, k, g[p[k]].1[d]));
            let j = choose|j: int| 0 <= j < k && #[trigger] g[p[j]].0 == g[p[k]].1[d];
            assert(g[p2[j]].0 == g[p2[k]].1[d]);
        } else {
            assert(name_satisfied(g, p, g[i].1[d]));
            let j = choose|j: int| 0 <= j < p.len() && #[trigger] g[p[j]].0 == g[i].1[d];
            assert(g[p2[j]].0 == g[p2[k]].1[d]);
        }
    }
    assert(p2.len() <= g.len());
    assert(placed_names_distinct(g, p2));
}

/// The greedy ordering keeps the placed loaders well formed, and stops for the reason
/// it reports.
proof fn lemma_resolve_from(g: Seq<(Seq<char>, Seq<Seq<char>>)>, placed: Seq<int>)
    requires
        placed_well(g, placed),
    ensures
        match resolve_from(g, placed) {
            LoadOrderOutcome::Ordered(p) => placed_well(g, p) && p.len() == g.len(),
            LoadOrderOutcome::Duplicate(p, i) => placed_well(g, p) && p.len() < g.len()
                && scan_from(g, p, 0) == ScanStop::Duplicate(i),
            LoadOrderOutcome::Unresolved(p) => placed_well(g, p) && p.len() < g.len() && scan_from(
                g,
                p,
                0,
            ) == ScanStop::Exhausted,
        },
    decreases g.len() - placed.len(),
{
    if placed.len() < g.len() {
        lemma_scan_outcome(g, placed, 0);
        if let ScanStop::Ready(i) = scan_from(g, placed, 0) {
            lemma_place_ready(g, placed, i);
            lemma_resolve_from(g, placed.push(i));
        }
    }
}

/// A repetition-free sequence whose elements all occur in `p` is no longer than `p`.
proof fn lemma_distinct_subsequence_len(q: Seq<int>, p: Seq<int>)
    requires
        q.no_duplicates(),
        forall|k: int| 0 <= k < q.len() ==> p.contains(#[trigger] q[k]),
    ensures
        q.len() <= p.len(),
{
    q.unique_seq_to_set();
    p.lemma_cardinality_of_set();
    assert(q.to_set().subset_of(p.to_set())) by {
        assert forall|x: int| q.to_set().contains(x) implies p.to_set().contains(x) by {
            let k = choose|k: int| 0 <= k < q.len() && q[k] == x;
            assert(p.contains(q[k]));
        }
    }
    vstd::set_lib::lemma_len_subset(q.to_set(), p.to_set());
}

/// Law: when the loaders are ordered, every loader appears exactly once, each one follows
/// the loaders it depends on, and no two of them carry the same name.
pub proof fn lemma_ordered_loaders_are_valid(g: Seq<(Seq<char>, Seq<Seq<char>>)>)
    ensures
        resolve_load_order(g) matches LoadOrderOutcome::Ordered(p) ==> is_valid_load_order(g, p)
            && placed_names_distinct(g, p),
{
    assert(placed_well(g, Seq::<int>::empty()));
    lemma_resolve_from(g, Seq::<int>::empty());
    if let LoadOrderOutcome::Ordered(p) = resolve_load_order(g) {
        assert(placed_well(g, p));
        assert(p.len() == g.len());
        assert(forall|k: int| 0 <= k < p.len() ==> 0 <= #[trigger] p[k] < g.len());
        assert(p.no_duplicates());
        assert(is_valid_load_order(g, p));
    }
}

/// Law: a loader is reported as a duplicate only when another loader carries its name.
pub proof fn lemma_duplicate_loader_shares_name(g: Seq<(Seq<char>, Seq<Seq<char>>)>)
    ensures
        resolve_load_order(g) matches LoadOrderOutcome::Duplicate(_, i) ==> 0 <= i < g.len()
            && exists|j: int| 0 <= j < g.len() && j != i && #[trigger] g[j].0 == g[i].0,
{
    assert(placed_well(g, Seq::<int>::empty()));
    lemma_resolve_from(g, Seq::<int>::empty());
    if let LoadOrderOutcome::Duplicate(p, i) = resolve_load_order(g) {
        lemma_scan_outcome(g, p, 0);
        let k = choose|k: int| 0 <= k < p.len() && #[trigger] g[p[k]].0 == g[i].0;
        assert(p[k] != i);
        assert(g[p[k]].0 == g[i].0);
    }
}

/// Law: when no loader can be placed, there is no valid order of the loaders at all.
pub proof fn lemma_unresolved_has_no_valid_order(
    g: Seq<(Seq<char>, Seq<Seq<char>>)>,
    q: Seq<int>,
)
    requires
        resolve_load_order(g) is Unresolved,
    ensures
        !is_valid_load_order(g, q),
{
    assert(placed_well(g, Seq::<int>::empty()));
    lemma_resolve_from(g, Seq::<int>::empty());
    if let LoadOrderOutcome::Unresolved(p) = resolve_load_order(g) {
        lemma_scan_outcome(g, p, 0);
        if is_valid_load_order(g, q) {
            if forall|k: int| 0 <= k < q.len() ==> p.contains(#[trigger] q[k]) {
                lemma_distinct_subsequence_len(q, p);
                assert(false);
            }
            let k0 = choose|k: int| 0 <= k < q.len() && !p.contains(#[trigger] q[k]);
            let k = lemma_first_unplaced(q, p, k0);
            let i = q[k];
            assert forall|d: int| 0 <= d < g[i].1.len() implies name_satisfied(
                g,
                p,
                #[trigger] g[i].1[d],
            ) by {
                assert(placed_before(g, q, k, g[q[k]].1[d]));
                let j = choose|j: int| 0 <= j < k && #[trigger] g[q[j]].0 == g[q[k]].1[d];
                assert(p.contains(q[j]));
                let m = choose|m: int| 0 <= m < p.len() && p[m] == q[j];
                assert(g[p[m]].0 == g[i].1[d]);
            }
            assert(stops_scan(g, p, i));
        }
    }
}

/// The first position of `q` whose element is missing from `p`.
proof fn lemma_first_unplaced(q: Seq<int>, p: Seq<int>, k0: int) -> (k: int)
    requires
        0 <= k0 < q.len(),
        !p.contains(q[k0]),
    ensures
        0 <= k <= k0,
        !p.contains(q[k]),
        forall|j: int| 0 <= j < k ==> p.contains(#[trigger] q[j]),
    decreases k0,
{
    if forall|j: int| 0 <= j < k0 ==> p.contains(#[trigger] q[j]) {
        k0
    } else {
        let j = choose|j: int| 0 <= j < k0 && !p.contains(#[trigger] q[j]);
        lemma_first_unplaced(q, p, j)
    }
}

/// Law: when the names are distinct and some valid order exists, the loaders are ordered.
pub proof fn lemma_distinct_orderable_loaders_resolve(
    g: Seq<(Seq<char>, Seq<Seq<char>>)>,
    q: Seq<int>,
)
    requires
        names_distinct(g),
        is_valid_load_order(g, q),
    ensures
        resolve_load_order(g) is Ordered,
{
    lemma_duplicate_loader_shares_name(g);
    if let LoadOrderOutcome::Duplicate(_, i) = resolve_load_order(g) {
        let j = choose|j: int| 0 <= j < g.len() && j != i && #[trigger] g[j].0 == g[i].0;
        if i < j {
            assert(g[i].0 != g[j].0);
        } else {
            assert(g[j].0 != g[i].0);
        }
    }
    if resolve_load_order(g) is Unresolved {
        lemma_unresolved_has_no_valid_order(g, q);
    }
}

} // verus!
