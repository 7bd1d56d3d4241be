//! The application builder: registers bootstrap loaders, a window title and a window
//! size, and orders the loaders by their dependencies when the application is built.
use vstd::prelude::*;
use crate::dependency::{
    LoadOrderOutcome, LoaderDependencies, LoaderOrderError, lists_unplaced, loaders_view,
    resolve_load_order, resolve_loader_order, string_views,
};

verus! {

/// A type that is built through a builder value.
pub trait HasHeapBuilder {
    type Builder: Default + core::fmt::Debug;

    /// A builder with its default settings: what the builder type's `default` gives.
    fn builder() -> (r: Self::Builder)
        ensures
            call_ensures(Self::Builder::default, (), r),
    {
        Default::default()
    }
}

/// Something that declares a dependency name and the names it depends on.
pub trait IndirectDependency {
    spec fn spec_dependency_name(&self) -> Seq<char>;

    spec fn spec_depends_on(&self) -> Seq<Seq<char>>;

    /// The name other loaders use to depend on this one.
    fn dependency_name(&self) -> (r: String)
        ensures
            r@ == self.spec_dependency_name(),
    ;

    /// The names of the loaders this one depends on.
    fn depends_on(&self) -> (r: Vec<String>)
        ensures
            string_views(r@) == self.spec_depends_on(),
    ;
}

/// The logical size of a window, in pixels.
#[derive(Clone, Copy, Debug, PartialEq, Eq, Structural)]
pub struct WindowSize {
    pub width: i32,
    pub height: i32,
}

/// Settings and bootstrap loaders collected before the application is created.
#[derive(Debug)]
pub struct AppBuilder<L> {
    bootstrap_loaders: Vec<L>,
    initial_title: String,
    default_size: WindowSize,
}

/// What building yields: the settings, with the loaders in dependency order.
#[derive(Debug)]
pub struct AppConfig<L> {
    pub initial_title: String,
    pub default_size: WindowSize,
    pub bootstrap_loaders: Vec<L>,
}

/// The dependency view of a list of loaders.
pub open spec fn loader_graph<L: IndirectDependency>(ls: Seq<L>) -> Seq<(Seq<char>, Seq<Seq<char>>)> {
    ls.map_values(|l: L| (l.spec_dependency_name(), l.spec_depends_on()))
}

impl<L> AppBuilder<L> {
    /// The loaders registered so far, in registration order.
    pub closed spec fn loaders(&self) -> Seq<L> {
        self.bootstrap_loaders@
    }

    /// The window title.
    pub closed spec fn title(&self) -> Seq<char> {
        self.initial_title@
    }

    /// The window size.
    pub closed spec fn size(&self) -> WindowSize {
        self.default_size
    }

    /// Registers one more bootstrap loader.
    pub fn add_bootstrap_loader(self, loader: L) -> (r: Self)
        ensures
            r.loaders() == self.loaders().push(loader),
            r.title() == self.title(),
            r.size() == self.size(),
    {
        let mut s = self;
        s.bootstrap_loaders.push(loader);
        s
    }

    /// Sets the window title.
    pub fn initial_title(self, title: String) -> (r: Self)
        ensures
            r.loaders() == self.loaders(),
            r.title() == title@,
            r.size() == self.size(),
    {
        let mut s = self;
        s.initial_title = title;
        s
    }

    /// Sets the window size.
    pub fn default_size(self, size: WindowSize) -> (r: Self)
        ensures
            r.loaders() == self.loaders(),
            r.title() == self.title(),
            r.size() == size,
    {
        let mut s = self;
        s.default_size = size;
        s
    }
}

impl<L> Default for AppBuilder<L> {
    /// No loaders, an empty title and a 300 by 300 window.
    fn default() -> (r: Self)
        ensures
            r.loaders() == Seq::<L>::empty(),
            r.title() == Seq::<char>::empty(),
            r.size() == (WindowSize { width: 300, height: 300 }),
    {
        AppBuilder {
            bootstrap_loaders: Vec::new(),
            initial_title: String::new(),
            default_size: WindowSize { width: 300, height: 300 },
        }
    }
}

/// `order` holds each index below `n` exactly once.
pub open spec fn is_index_permutation(order: Seq<usize>, n: int) -> bool {
    &&& order.len() == n
    &&& forall|k: int| 0 <= k < n ==> #[trigger] order[k] < n
    &&& forall|a: int, b: int| 0 <= a < n && 0 <= b < n && a != b ==> order[a] != order[b]
}

/// Moves the items into a new list, item `order[k]` at position `k`.
fn take_in_order<L>(items: Vec<L>, order: &Vec<usize>) -> (r: Vec<L>)
    requires
        is_index_permutation(order@, items@.len() as int),
    ensures
        r@.len() == order@.len(),
        forall|k: int| 0 <= k < r@.len() ==> r@[k] == items@[order@[k] as int],
{
    let ghost orig = items@;
    let n = items.len();
    let mut rest = items;
    let mut slots: Vec<Option<L>> = Vec::new();
    while rest.len() > 0
        invariant
            n == orig.len(),
            slots@.len() + rest@.len() == n,
            rest@ == orig.subrange(0, rest@.len() as int),
            forall|j: int| 0 <= j < slots@.len() ==> slots@[j] == Some(orig[n - 1 - j]),
        decreases rest@.len(),
    {
        let x = rest.pop().unwrap();
        slots.push(Some(x));
    }
    let mut result: Vec<L> = Vec::new();
    let mut k: usize = 0;
    while k < n
        invariant
            n == orig.len(),
            k <= n,
            slots@.len() == n,
            is_index_permutation(order@, n as int),
            result@.len() == k,
            forall|j: int| 0 <= j < k ==> result@[j] == orig[order@[j] as int],
            forall|j: int|
                k <= j < n ==> slots@[n - 1 - order@[j]] == Some(orig[order@[j] as int]),
        decreases n - k,
    {
        let i = order[k];
        let j = n - 1 - i;
        let x = slots[j].take();
        proof {
            assert forall|m: int| k + 1 <= m < n implies slots@[n - 1 - order@[m]] == Some(
                orig[order@[m] as int],
            ) by {
                assert(order@[m] != order@[k as int]);
            }
        }
        result.push(x.unwrap());
        k = k + 1;
    }
    result
}

/// The result of building agrees with the greedy load order of the registered loaders.
pub open spec fn build_result_matches<L: IndirectDependency>(
    r: Result<AppConfig<L>, LoaderOrderError>,
    loaders: Seq<L>,
    title: Seq<char>,
    size: WindowSize,
) -> bool {
    let g = loader_graph(loaders);
    match resolve_load_order(g) {
        LoadOrderOutcome::Ordered(p) => r matches Ok(cfg) && cfg.initial_title@ == title
            && cfg.default_size == size && cfg.bootstrap_loaders@.len() == p.len() && forall|
            k: int,
        | 0 <= k < p.len() ==> #[trigger] cfg.bootstrap_loaders@[k] == loaders[p[k]],
        LoadOrderOutcome::Duplicate(_, i) => r matches Err(LoaderOrderError::DuplicateLoader(name))
            && name@ == g[i].0,
        LoadOrderOutcome::Unresolved(p) => r matches Err(
            LoaderOrderError::UnresolvedDependencies(rem),
        ) && lists_unplaced(g.len() as int, p, rem@),
    }
}

impl<L: IndirectDependency> AppBuilder<L> {
    /// Orders the registered loaders so that each follows the loaders it depends on (see
    /// [`resolve_loader_order`]) and hands back the settings with the ordered loaders.
    pub fn build(self) -> (r: Result<AppConfig<L>, LoaderOrderError>)
        ensures
            build_result_matches(r, self.loaders(), self.title(), self.size()),
    {
        let ghost g = loader_graph(self.loaders());
        let mut deps: Vec<LoaderDependencies> = Vec::new();
        let mut i: usize = 0;
        while i < self.bootstrap_loaders.len()
            invariant
                i <= self.bootstrap_loaders@.len(),
                g == loader_graph(self.bootstrap_loaders@),
                deps@.len() == i,
                forall|j: int| 0 <= j < i ==> loaders_view(deps@)[j] == #[trigger] g[j],
            decreases self.bootstrap_loaders@.len() - i,
        {
            let loader = &self.bootstrap_loaders[i];
            let entry = LoaderDependencies {
                name: loader.dependency_name(),
                depends_on: loader.depends_on(),
            };
            deps.push(entry);
            proof {
                assert forall|j: int| 0 <= j < i + 1 implies loaders_view(deps@)[j] == #[trigger] g[j] by {
                    if j < i {
                        assert(loaders_view(deps@)[j] == loaders_view(deps@.drop_last())[j]);
                    }
                }
            }
            i = i + 1;
        }
        assert(loaders_view(deps@) =~= g);
        let order = resolve_loader_order(&deps);
        match order {
            Ok(order) => {
                proof {
                    crate::dependency::lemma_ordered_loaders_are_valid(g);
                    let p = order@.map_values(|i: usize| i as int);
                    assert forall|a: int, b: int|
                        0 <= a < order@.len() && 0 <= b < order@.len() && a != b implies order@[a]
                        != order@[b] by {
                        assert(p[a] != p[b]);
                    }
                    assert forall|k: int| 0 <= k < order@.len() implies #[trigger] order@[k]
                        < g.len() by {
                        assert(0 <= p[k] < g.len());
                    }
                }
                let AppBuilder { bootstrap_loaders, initial_title, default_size } = self;
                let ordered = take_in_order(bootstrap_loaders, &order);
                Ok(AppConfig { initial_title, default_size, bootstrap_loaders: ordered })
            },
            Err(e) => Err(e),
        }
    }
}

} // verus!
