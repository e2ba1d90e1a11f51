//! The typed container: one value per type key, in a base layer and an
//! overlay layer, where the overlay is looked at first.

use std::sync::Arc;
use vstd::prelude::*;
use vstd::string::*;

verus! {

/// The key under which a value is kept: the identity of its type, as an integer.
pub type TypeKey = u64;

/// One layer of the container. A later insert under a key replaces the
/// earlier value.
#[derive(Debug, Clone)]
pub struct ResourcesInner<V> {
    entries: Vec<(TypeKey, V)>,
}

/// The value that the last entry under `key` holds, if there is one.
pub open spec fn find_last<V>(entries: Seq<(TypeKey, V)>, key: TypeKey) -> Option<V>
    decreases entries.len(),
{
    if entries.len() == 0 {
        None
    } else if entries.last().0 == key {
        Some(entries.last().1)
    } else {
        find_last(entries.drop_last(), key)
    }
}

/// The map that a sequence of inserts builds.
pub open spec fn entries_map<V>(entries: Seq<(TypeKey, V)>) -> Map<TypeKey, V> {
    Map::new(
        |k: TypeKey| find_last(entries, k) is Some,
        |k: TypeKey| find_last(entries, k)->Some_0,
    )
}

/// Entries appended behind others take precedence over them.
pub proof fn lemma_find_last_concat<V>(a: Seq<(TypeKey, V)>, b: Seq<(TypeKey, V)>, key: TypeKey)
    ensures
        find_last(a + b, key) == if find_last(b, key) is Some {
            find_last(b, key)
        } else {
            find_last(a, key)
        },
    decreases b.len(),
{
    if b.len() == 0 {
        assert(a + b =~= a);
    } else {
        assert((a + b).last() == b.last());
        assert((a + b).drop_last() =~= a + b.drop_last());
        lemma_find_last_concat(a, b.drop_last(), key);
    }
}

impl<V> View for ResourcesInner<V> {
    type V = Map<TypeKey, V>;

    closed spec fn view(&self) -> Map<TypeKey, V> {
        entries_map(self.entries@)
    }
}

impl<V> ResourcesInner<V> {
    /// A layer with an entry holds a value.
    proof fn lemma_entry_is_held(&self)
        ensures
            self.entries@.len() > 0 ==> self@ != Map::<TypeKey, V>::empty(),
            self.entries@.len() == 0 ==> self@ == Map::<TypeKey, V>::empty(),
    {
        if self.entries@.len() > 0 {
            assert(self@.contains_key(self.entries@.last().0));
        } else {
            assert(self@ =~= Map::<TypeKey, V>::empty());
        }
    }

    /// An empty layer.
    pub fn new() -> (r: Self)
        ensures
            r@ == Map::<TypeKey, V>::empty(),
    {
        let r = ResourcesInner { entries: Vec::new() };
        assert(r@ =~= Map::<TypeKey, V>::empty());
        r
    }

    /// Keeps `val` under `key`, in place of what was there.
    pub fn insert(&mut self, key: TypeKey, val: V)
        ensures
            final(self)@ == old(self)@.insert(key, val),
    {
        let ghost before = self.entries@;
        self.entries.push((key, val));
        proof {
            assert(self.entries@.drop_last() =~= before);
            assert(self@ =~= old(self)@.insert(key, val));
        }
    }

    /// The value kept under `key`.
    pub fn get(&self, key: TypeKey) -> (r: Option<&V>)
        ensures
            r is Some == self@.contains_key(key),
            r is Some ==> *r->Some_0 == self@[key],
    {
        let mut i: usize = self.entries.len();
        assert(self.entries@.subrange(0, i as int) =~= self.entries@);
        while i > 0
            invariant
                i <= self.entries@.len(),
                find_last(self.entries@, key) == find_last(
                    self.entries@.subrange(0, i as int),
                    key,
                ),
            decreases i,
        {
            i -= 1;
            proof {
                let prefix = self.entries@.subrange(0, i as int + 1);
                assert(prefix.last() == self.entries@[i as int]);
                assert(prefix.drop_last() =~= self.entries@.subrange(0, i as int));
            }
            if self.entries[i].0 == key {
                return Some(&self.entries[i].1);
            }
        }
        None
    }

    /// Whether the layer holds nothing.
    pub fn is_empty(&self) -> (r: bool)
        ensures
            r == (self@ == Map::<TypeKey, V>::empty()),
    {
        proof {
            self.lemma_entry_is_held();
        }
        self.entries.len() == 0
    }

    /// Takes over every value of `other`, in place of what was there under the
    /// same key.
    pub fn extend(&mut self, other: ResourcesInner<V>)
        ensures
            final(self)@ == old(self)@.union_prefer_right(other@),
    {
        let ghost a = self.entries@;
        let ghost b = other.entries@;
        let mut other = other;
        self.entries.append(&mut other.entries);
        proof {
            assert(self.entries@ == a + b);
            let joined = entries_map(a).union_prefer_right(entries_map(b));
            assert forall|k: TypeKey|
                entries_map(a + b).contains_key(k) == #[trigger] joined.contains_key(k) && (
                joined.contains_key(k) ==> entries_map(a + b)[k] == joined[k]) by {
                lemma_find_last_concat(a, b, k);
            }
            assert(entries_map(a + b) =~= joined);
        }
    }
}

/// Calls `Arc::clone`, which hands out another pointer to the same value.
#[verifier::external_body]
pub(crate) fn share<T>(a: &Arc<T>) -> (r: Arc<T>)
    ensures
        *r == **a,
{
    Arc::clone(a)
}

/// The container that a call sees: a base layer that lives as long as the
/// router, and an overlay layer for the one call.
pub struct Resources<V> {
    base_inner: Arc<ResourcesInner<V>>,
    overlay_inner: Arc<ResourcesInner<V>>,
}

/// What a lookup of `key` finds in two layers: the overlay's value where it
/// has one, else the base's.
pub open spec fn layered<V>(
    base: Map<TypeKey, V>,
    overlay: Map<TypeKey, V>,
    key: TypeKey,
) -> Option<V> {
    if overlay.contains_key(key) {
        Some(overlay[key])
    } else if base.contains_key(key) {
        Some(base[key])
    } else {
        None
    }
}

impl<V> Resources<V> {
    /// The base layer.
    pub closed spec fn base(&self) -> Map<TypeKey, V> {
        (*self.base_inner)@
    }

    /// The overlay layer.
    pub closed spec fn overlay(&self) -> Map<TypeKey, V> {
        (*self.overlay_inner)@
    }

    /// Whether neither layer holds a value.
    pub open spec fn holds_nothing(&self) -> bool {
        self.base() == Map::<TypeKey, V>::empty() && self.overlay() == Map::<TypeKey, V>::empty()
    }

    /// What a lookup of `key` finds.
    pub open spec fn resolve(&self, key: TypeKey) -> Option<V> {
        layered(self.base(), self.overlay(), key)
    }

    /// A new, empty builder.
    pub fn builder() -> (r: ResourcesBuilder<V>)
        ensures
            r@ == Map::<TypeKey, V>::empty(),
    {
        ResourcesBuilder { resources_inner: ResourcesInner::new() }
    }

    /// A reference to the value under `key`: the overlay's where it has one,
    /// else the base's.
    pub fn get_ref(&self, key: TypeKey) -> (r: Option<&V>)
        ensures
            r is Some == self.resolve(key) is Some,
            r is Some ==> *r->Some_0 == self.resolve(key)->Some_0,
    {
        match self.overlay_inner.get(key) {
            Some(v) => Some(v),
            None => self.base_inner.get(key),
        }
    }

    /// Whether neither layer holds a value.
    pub fn is_empty(&self) -> (r: bool)
        ensures
            r == self.holds_nothing(),
    {
        self.base_inner.is_empty() && self.overlay_inner.is_empty()
    }

    /// The container with `base_inner` as its base and an empty overlay.
    pub fn from_base_inner(base_inner: ResourcesInner<V>) -> (r: Self)
        ensures
            r.base() == base_inner@,
            r.overlay() == Map::<TypeKey, V>::empty(),
    {
        Resources {
            base_inner: Arc::new(base_inner),
            overlay_inner: Arc::new(ResourcesInner::new()),
        }
    }

    /// The container with this one's base, and the base of `overlay_resources`
    /// laid over it.
    pub fn new_with_overlay(&self, overlay_resources: Resources<V>) -> (r: Self)
        ensures
            r.base() == self.base(),
            r.overlay() == overlay_resources.base(),
    {
        Resources {
            base_inner: share(&self.base_inner),
            overlay_inner: share(&overlay_resources.base_inner),
        }
    }

    /// Another handle on the same two layers.
    pub fn share(&self) -> (r: Self)
        ensures
            r == *self,
    {
        Resources {
            base_inner: share(&self.base_inner),
            overlay_inner: share(&self.overlay_inner),
        }
    }
}

impl<V: Clone> Resources<V> {
    /// A clone of the value under `key`: the overlay's where it has one, else
    /// the base's. A key that neither layer has gives `None`.
    pub fn get(&self, key: TypeKey) -> (r: Option<V>)
        ensures
            r is Some == self.resolve(key) is Some,
            r is Some ==> cloned(self.resolve(key)->Some_0, r->Some_0),
    {
        match self.get_ref(key) {
            Some(v) => Some(v.clone()),
            None => None,
        }
    }
}

/// In a container laid over another, a key that the overlay has resolves to
/// the overlay's value, whatever the base holds under it; any other key
/// resolves as in the base.
pub proof fn lemma_overlay_wins<V>(base: Map<TypeKey, V>, overlay: Map<TypeKey, V>, key: TypeKey)
    ensures
        overlay.contains_key(key) ==> layered(base, overlay, key) == Some(overlay[key]),
        !overlay.contains_key(key) && base.contains_key(key) ==> layered(base, overlay, key)
            == Some(base[key]),
        !overlay.contains_key(key) && !base.contains_key(key) ==> layered(base, overlay, key)
            is None,
{
}

/// Collects the values of a base layer.
pub struct ResourcesBuilder<V> {
    pub resources_inner: ResourcesInner<V>,
}

impl<V> View for ResourcesBuilder<V> {
    type V = Map<TypeKey, V>;

    open spec fn view(&self) -> Map<TypeKey, V> {
        self.resources_inner@
    }
}

impl<V> ResourcesBuilder<V> {
    /// An empty builder.
    pub fn new() -> (r: Self)
        ensures
            r@ == Map::<TypeKey, V>::empty(),
    {
        ResourcesBuilder { resources_inner: ResourcesInner::new() }
    }

    /// The builder with `val` under `key`.
    pub fn append(self, key: TypeKey, val: V) -> (r: Self)
        ensures
            r@ == self@.insert(key, val),
    {
        let mut builder = self;
        builder.resources_inner.insert(key, val);
        builder
    }

    /// Keeps `val` under `key`.
    pub fn append_mut(&mut self, key: TypeKey, val: V)
        ensures
            final(self)@ == old(self)@.insert(key, val),
    {
        self.resources_inner.insert(key, val);
    }

    /// The container with the collected values as its base.
    pub fn build(self) -> (r: Resources<V>)
        ensures
            r.base() == self@,
            r.overlay() == Map::<TypeKey, V>::empty(),
    {
        Resources::from_base_inner(self.resources_inner)
    }
}

impl<V: Clone> ResourcesBuilder<V> {
    /// A clone of the value under `key`.
    pub fn get(&self, key: TypeKey) -> (r: Option<V>)
        ensures
            r is Some == self@.contains_key(key),
            r is Some ==> cloned(self@[key], r->Some_0),
    {
        match self.resources_inner.get(key) {
            Some(v) => Some(v.clone()),
            None => None,
        }
    }
}

/// Why a value could not be had from the container.
#[derive(Debug, Clone, PartialEq, Eq)]
pub enum FromResourcesError {
    /// No layer holds a value of the type of this name.
    ResourceNotFound(String),
}

impl View for FromResourcesError {
    type V = Seq<char>;

    open spec fn view(&self) -> Seq<char> {
        match self {
            FromResourcesError::ResourceNotFound(name) => name@,
        }
    }
}

impl FromResourcesError {
    /// The error for a missing value of the type called `type_label`.
    pub fn resource_not_found(type_label: &str) -> (r: Self)
        ensures
            r@ == type_label@,
    {
        FromResourcesError::ResourceNotFound(String::from_str(type_label))
    }
}

/// A value that a handler declares it needs: the key of its type, and the
/// type's name for diagnostics.
#[derive(Debug, Clone)]
pub struct Dependency {
    pub key: TypeKey,
    pub type_label: String,
    pub optional: bool,
}

/// The first of the first `n` dependencies that is required and that the
/// layers do not hold.
pub open spec fn first_missing<V>(
    base: Map<TypeKey, V>,
    overlay: Map<TypeKey, V>,
    deps: Seq<Dependency>,
    n: int,
) -> Option<int>
    decreases n,
{
    if n <= 0 {
        None
    } else if first_missing(base, overlay, deps, n - 1) is Some {
        first_missing(base, overlay, deps, n - 1)
    } else if !deps[n - 1].optional && layered(base, overlay, deps[n - 1].key) is None {
        Some(n - 1)
    } else {
        None
    }
}

/// Whether `values` are what the declared dependencies resolve to, one for
/// one: a clone of the value that the layers hold under the dependency's key,
/// and `None` where they hold none.
pub open spec fn resolved<V: Clone>(
    base: Map<TypeKey, V>,
    overlay: Map<TypeKey, V>,
    deps: Seq<Dependency>,
    values: Seq<Option<V>>,
) -> bool {
    &&& values.len() == deps.len()
    &&& forall|i: int|
        0 <= i < deps.len() ==> (#[trigger] values[i]) is Some == layered(
            base,
            overlay,
            deps[i].key,
        ) is Some
    &&& forall|i: int|
        0 <= i < deps.len() && (#[trigger] values[i]) is Some ==> cloned(
            layered(base, overlay, deps[i].key)->Some_0,
            values[i]->Some_0,
        )
}

impl<V: Clone> Resources<V> {
    /// The value of the type with this key, or `ResourceNotFound` with the
    /// type's name where no layer holds one.
    pub fn from_resources(&self, key: TypeKey, type_label: &str) -> (r: Result<
        V,
        FromResourcesError,
    >)
        ensures
            r is Ok == self.resolve(key) is Some,
            r is Ok ==> cloned(self.resolve(key)->Some_0, r->Ok_0),
            r is Err ==> r->Err_0@ == type_label@,
    {
        match self.get(key) {
            Some(v) => Ok(v),
            None => Err(FromResourcesError::resource_not_found(type_label)),
        }
    }

    /// Resolves the declared dependencies from left to right. The first
    /// required one that is missing fails the whole; an optional one that is
    /// missing resolves to `None`.
    pub fn resolve_all(&self, deps: &Vec<Dependency>) -> (r: Result<
        Vec<Option<V>>,
        FromResourcesError,
    >)
        ensures
            match r {
                Ok(values) => {
                    &&& first_missing(self.base(), self.overlay(), deps@, deps@.len() as int)
                        is None
                    &&& resolved(self.base(), self.overlay(), deps@, values@)
                },
                Err(e) => {
                    &&& first_missing(self.base(), self.overlay(), deps@, deps@.len() as int)
                        is Some
                    &&& e@ == deps@[first_missing(
                        self.base(),
                        self.overlay(),
                        deps@,
                        deps@.len() as int,
                    )->Some_0].type_label@
                },
            },
    {
        let mut values: Vec<Option<V>> = Vec::new();
        let mut i: usize = 0;
        while i < deps.len()
            invariant
                i <= deps@.len(),
                values@.len() == i,
                first_missing(self.base(), self.overlay(), deps@, i as int) is None,
                forall|j: int|
                    0 <= j < i ==> (#[trigger] values@[j]) is Some == self.resolve(deps@[j].key)
                        is Some,
                forall|j: int|
                    0 <= j < i && (#[trigger] values@[j]) is Some ==> cloned(
                        self.resolve(deps@[j].key)->Some_0,
                        values@[j]->Some_0,
                    ),
            decreases deps@.len() - i,
        {
            let found = self.get(deps[i].key);
            if found.is_none() && !deps[i].optional {
                assert(first_missing(self.base(), self.overlay(), deps@, i + 1) == Some(i as int));
                proof {
                    lemma_first_missing_stays(
                        self.base(),
                        self.overlay(),
                        deps@,
                        i + 1,
                        deps@.len() as int,
                    );
                }
                return Err(FromResourcesError::resource_not_found(deps[i].type_label.as_str()));
            }
            values.push(found);
            i += 1;
        }
        Ok(values)
    }
}

/// Once a dependency is found missing, the ones behind it change nothing.
pub proof fn lemma_first_missing_stays<V>(
    base: Map<TypeKey, V>,
    overlay: Map<TypeKey, V>,
    deps: Seq<Dependency>,
    n: int,
    m: int,
)
    requires
        0 <= n <= m,
        first_missing(base, overlay, deps, n) is Some,
    ensures
        first_missing(base, overlay, deps, m) == first_missing(base, overlay, deps, n),
    decreases m - n,
{
    if n < m {
        lemma_first_missing_stays(base, overlay, deps, n, m - 1);
    }
}

/// One layer, either shared between the handles on it or owned by one.
pub enum TypeMapHolder<V> {
    Shared(Arc<ResourcesInner<V>>),
    Owned(ResourcesInner<V>),
}

impl<V> TypeMapHolder<V> {
    /// What the layer holds.
    pub open spec fn contents(&self) -> Map<TypeKey, V> {
        match self {
            TypeMapHolder::Shared(inner) => (**inner)@,
            TypeMapHolder::Owned(inner) => inner@,
        }
    }

    /// The layer.
    pub fn get(&self) -> (r: &ResourcesInner<V>)
        ensures
            r@ == self.contents(),
    {
        match self {
            TypeMapHolder::Shared(inner) => inner,
            TypeMapHolder::Owned(inner) => inner,
        }
    }
}

/// A container of a single layer.
pub struct RpcResources<V> {
    type_map_holder: TypeMapHolder<V>,
}

impl<V> View for RpcResources<V> {
    type V = Map<TypeKey, V>;

    closed spec fn view(&self) -> Map<TypeKey, V> {
        self.type_map_holder.contents()
    }
}

impl<V> RpcResources<V> {
    /// Whether the layer is shared between the handles on it.
    pub closed spec fn is_shared(&self) -> bool {
        self.type_map_holder is Shared
    }

    /// A new, empty builder.
    pub fn builder() -> (r: RpcResourcesBuilder<V>)
        ensures
            r@ == Map::<TypeKey, V>::empty(),
    {
        RpcResourcesBuilder { type_map: ResourcesInner::new() }
    }

    /// The container of `type_map`, shared between the handles on it.
    pub fn new_shared(type_map: ResourcesInner<V>) -> (r: Self)
        ensures
            r@ == type_map@,
            r.is_shared(),
    {
        RpcResources { type_map_holder: TypeMapHolder::Shared(Arc::new(type_map)) }
    }

    /// The container of `type_map`, owned by its one handle.
    pub fn new_owned(type_map: ResourcesInner<V>) -> (r: Self)
        ensures
            r@ == type_map@,
            !r.is_shared(),
    {
        RpcResources { type_map_holder: TypeMapHolder::Owned(type_map) }
    }
}

impl<V: Clone> RpcResources<V> {
    /// A clone of the value under `key`.
    pub fn get(&self, key: TypeKey) -> (r: Option<V>)
        ensures
            r is Some == self@.contains_key(key),
            r is Some ==> cloned(self@[key], r->Some_0),
    {
        match self.type_map_holder.get().get(key) {
            Some(v) => Some(v.clone()),
            None => None,
        }
    }
}

/// Collects the values of a container of a single layer.
pub struct RpcResourcesBuilder<V> {
    type_map: ResourcesInner<V>,
}

impl<V> View for RpcResourcesBuilder<V> {
    type V = Map<TypeKey, V>;

    closed spec fn view(&self) -> Map<TypeKey, V> {
        self.type_map@
    }
}

impl<V> RpcResourcesBuilder<V> {
    /// The builder with `val` under `key`, in place of what was there.
    pub fn insert(self, key: TypeKey, val: V) -> (r: Self)
        ensures
            r@ == self@.insert(key, val),
    {
        let mut builder = self;
        builder.type_map.insert(key, val);
        builder
    }

    /// The container of the collected values, shared between its handles.
    pub fn build(self) -> (r: RpcResources<V>)
        ensures
            r@ == self@,
            r.is_shared(),
    {
        self.build_shared()
    }

    /// The container of the collected values, shared between its handles.
    pub fn build_shared(self) -> (r: RpcResources<V>)
        ensures
            r@ == self@,
            r.is_shared(),
    {
        RpcResources::new_shared(self.type_map)
    }

    /// The container of the collected values, owned by its one handle.
    pub fn build_owned(self) -> (r: RpcResources<V>)
        ensures
            r@ == self@,
            !r.is_shared(),
    {
        RpcResources::new_owned(self.type_map)
    }
}

impl<V: Clone> RpcResourcesBuilder<V> {
    /// A clone of the value under `key`.
    pub fn get(&self, key: TypeKey) -> (r: Option<V>)
        ensures
            r is Some == self@.contains_key(key),
            r is Some ==> cloned(self@[key], r->Some_0),
    {
        match self.type_map.get(key) {
            Some(v) => Some(v.clone()),
            None => None,
        }
    }
}

} // verus!
