//! The registry of handlers by method name, and the dispatch of a call.

use std::sync::Arc;
use vstd::prelude::*;
use vstd::string::*;
use crate::error::{CallError, CallResult, CallSuccess, Error};
use crate::handler::RpcHandlerWrapperTrait;
use crate::json::{same_text, JsonValue};
use crate::request::RpcRequest;
use crate::resources::{
    layered, share, Resources, ResourcesBuilder, ResourcesInner, TypeKey,
};
use crate::rpc_id::RpcId;

verus! {

/// The registry: a later registration under a name replaces the earlier one.
pub struct RouterInner<H> {
    route_by_name: Vec<(String, H)>,
}

/// The handler that the last registration under `name` brought, if there is one.
pub open spec fn find_route<H>(routes: Seq<(String, H)>, name: Seq<char>) -> Option<H>
    decreases routes.len(),
{
    if routes.len() == 0 {
        None
    } else if routes.last().0@ == name {
        Some(routes.last().1)
    } else {
        find_route(routes.drop_last(), name)
    }
}

/// Routes registered behind others take precedence over them.
pub proof fn lemma_find_route_concat<H>(a: Seq<(String, H)>, b: Seq<(String, H)>, name: Seq<char>)
    ensures
        find_route(a + b, name) == if find_route(b, name) is Some {
            find_route(b, name)
        } else {
            find_route(a, name)
        },
    decreases b.len(),
{
    if b.len() == 0 {
        assert(a + b =~= a);
    } else {
        assert((a + b).last() == b.last());
        assert((a + b).drop_last() =~= a + b.drop_last());
        lemma_find_route_concat(a, b.drop_last(), name);
    }
}

/// What a call returns once its handler has given `outcome`, or, with no
/// handler under the method's name, `MethodUnknown`: either way the id and
/// the method of the call come back.
pub open spec fn call_result<E>(
    id: RpcId,
    method: String,
    outcome: Option<Result<JsonValue, Error<E>>>,
) -> CallResult<E> {
    match outcome {
        Some(Ok(value)) => Ok(CallSuccess { id, method, value }),
        Some(Err(error)) => Err(CallError { id, method, error }),
        None => Err(CallError { id, method, error: Error::MethodUnknown }),
    }
}

/// Packs the outcome of a handler, or the want of one, with the id and the
/// method of the call.
pub fn call_response<E>(
    id: RpcId,
    method: String,
    outcome: Option<Result<JsonValue, Error<E>>>,
) -> (r: CallResult<E>)
    ensures
        r == call_result(id, method, outcome),
{
    match outcome {
        Some(Ok(value)) => Ok(CallSuccess { id, method, value }),
        Some(Err(error)) => Err(CallError { id, method, error }),
        None => Err(CallError { id, method, error: Error::MethodUnknown }),
    }
}

/// Whether `r` is what the call returns when `handler` is run on the
/// resources and the params: the handler's outcome, packed with the id and
/// the method of the call.
pub open spec fn dispatched<H: RpcHandlerWrapperTrait<V, E>, V, E>(
    handler: H,
    resources: Resources<V>,
    params: Option<JsonValue>,
    id: RpcId,
    method: String,
    r: CallResult<E>,
) -> bool {
    exists|outcome: Result<JsonValue, Error<E>>|
        #[trigger] call_ensures(H::call, (&handler, resources, params), outcome) && r
            == call_result(id, method, Some(outcome))
}

/// Whether a result of a call carries this id and this method.
pub open spec fn echoes<E>(r: CallResult<E>, id: RpcId, method: String) -> bool {
    match r {
        Ok(s) => s.id == id && s.method == method,
        Err(e) => e.id == id && e.method == method,
    }
}

/// Every result of a call carries the id and the method of the call.
pub proof fn lemma_call_result_echoes<E>(
    id: RpcId,
    method: String,
    outcome: Option<Result<JsonValue, Error<E>>>,
)
    ensures
        echoes(call_result(id, method, outcome), id, method),
        outcome is None ==> call_result(id, method, outcome) is Err && call_result(
            id,
            method,
            outcome,
        )->Err_0.error is MethodUnknown,
{
}

impl<H> RouterInner<H> {
    /// The handler registered under `name`.
    pub closed spec fn route(&self, name: Seq<char>) -> Option<H> {
        find_route(self.route_by_name@, name)
    }

    /// An empty registry.
    pub fn new() -> (r: Self)
        ensures
            forall|name: Seq<char>| r.route(name) is None,
    {
        RouterInner { route_by_name: Vec::new() }
    }

    /// Registers `dyn_handler` under `name`, in place of what was there.
    pub fn append_dyn(&mut self, name: &str, dyn_handler: H)
        ensures
            final(self).route(name@) == Some(dyn_handler),
            forall|other: Seq<char>| other != name@ ==> final(self).route(other) == old(self).route(
                other,
            ),
    {
        let ghost before = self.route_by_name@;
        self.route_by_name.push((String::from_str(name), dyn_handler));
        assert(self.route_by_name@.drop_last() =~= before);
    }

    /// Takes over every registration of `other_router`, in place of what was
    /// there under the same name.
    pub fn extend(&mut self, other_router: RouterInner<H>)
        ensures
            forall|name: Seq<char>|
                final(self).route(name) == if other_router.route(name) is Some {
                    other_router.route(name)
                } else {
                    old(self).route(name)
                },
    {
        let ghost a = self.route_by_name@;
        let ghost b = other_router.route_by_name@;
        let mut other_router = other_router;
        self.route_by_name.append(&mut other_router.route_by_name);
        assert forall|name: Seq<char>|
            find_route(a + b, name) == if find_route(b, name) is Some {
                find_route(b, name)
            } else {
                find_route(a, name)
            } by {
            lemma_find_route_concat(a, b, name);
        }
    }

    /// The handler registered under `method`.
    pub fn find(&self, method: &str) -> (r: Option<&H>)
        ensures
            r is Some == self.route(method@) is Some,
            r is Some ==> *r->Some_0 == self.route(method@)->Some_0,
    {
        let mut i: usize = self.route_by_name.len();
        assert(self.route_by_name@.subrange(0, i as int) =~= self.route_by_name@);
        while i > 0
            invariant
                i <= self.route_by_name@.len(),
                find_route(self.route_by_name@, method@) == find_route(
                    self.route_by_name@.subrange(0, i as int),
                    method@,
                ),
            decreases i,
        {
            i -= 1;
            proof {
                let prefix = self.route_by_name@.subrange(0, i as int + 1);
                assert(prefix.last() == self.route_by_name@[i as int]);
                assert(prefix.drop_last() =~= self.route_by_name@.subrange(0, i as int));
            }
            if same_text(self.route_by_name[i].0.as_str(), method) {
                return Some(&self.route_by_name[i].1);
            }
        }
        None
    }

    /// Dispatches a call by its parts. With no handler under `method` the
    /// call fails with `MethodUnknown`; else the handler is run on the
    /// resources and the params, and its outcome is the result. Either way
    /// the result carries `id` and `method`.
    pub fn call_route<V, E>(
        &self,
        resources: Resources<V>,
        id: RpcId,
        method: String,
        params: Option<JsonValue>,
    ) -> (r: CallResult<E>) where H: RpcHandlerWrapperTrait<V, E>
        ensures
            echoes(r, id, method),
            self.route(method@) is None ==> r == call_result::<E>(id, method, None),
            self.route(method@) is Some ==> dispatched(
                self.route(method@)->Some_0,
                resources,
                params,
                id,
                method,
                r,
            ),
    {
        match self.find(method.as_str()) {
            Some(route) => {
                let outcome = route.call(resources, params);
                let ghost given = outcome;
                assert(call_ensures(H::call, (route, resources, params), given));
                call_response(id, method, Some(outcome))
            },
            None => call_response(id, method, None),
        }
    }

    /// Dispatches a request.
    pub fn call<V, E>(&self, resources: Resources<V>, rpc_request: RpcRequest) -> (r: CallResult<
        E,
    >) where H: RpcHandlerWrapperTrait<V, E>
        ensures
            echoes(r, rpc_request.id, rpc_request.method),
            self.route(rpc_request.method@) is None ==> r == call_result::<E>(
                rpc_request.id,
                rpc_request.method,
                None,
            ),
            self.route(rpc_request.method@) is Some ==> dispatched(
                self.route(rpc_request.method@)->Some_0,
                resources,
                rpc_request.params,
                rpc_request.id,
                rpc_request.method,
                r,
            ),
    {
        let RpcRequest { id, method, params } = rpc_request;
        self.call_route(resources, id, method, params)
    }
}

/// The id of a call by parts: null where none is given.
pub open spec fn id_or_null(id: Option<RpcId>) -> RpcId {
    match id {
        Some(i) => i,
        None => RpcId::Null,
    }
}

/// A registry with the resources that every call starts from.
pub struct Router<H, V> {
    inner: Arc<RouterInner<H>>,
    base_resources: Resources<V>,
}

impl<H, V> Router<H, V> {
    /// The handler registered under `name`.
    pub closed spec fn route(&self, name: Seq<char>) -> Option<H> {
        (*self.inner).route(name)
    }

    /// The resources that a call without its own is run on.
    pub closed spec fn resources(&self) -> Resources<V> {
        self.base_resources
    }

    /// The base layer of the router's resources.
    pub open spec fn base(&self) -> Map<TypeKey, V> {
        self.resources().base()
    }

    /// Whether `r` may stand as the resources of a call that brings
    /// `call_resources`: those of the call where the router has none, else
    /// the router's base with the call's base laid over it.
    pub open spec fn overlaid(&self, call_resources: Resources<V>, r: Resources<V>) -> bool {
        &&& self.resources().holds_nothing() ==> r == call_resources
        &&& !self.resources().holds_nothing() ==> r.base() == self.base() && r.overlay()
            == call_resources.base()
        &&& call_resources.overlay() == Map::<TypeKey, V>::empty() ==> forall|key: TypeKey|
            r.resolve(key) == layered(self.base(), call_resources.base(), key)
    }

    /// A new, empty builder.
    pub fn builder() -> (r: RouterBuilder<H, V>)
        ensures
            r.base() == Map::<TypeKey, V>::empty(),
            forall|name: Seq<char>| r.route(name) is None,
    {
        RouterBuilder::new()
    }

    /// The router of a registry and a base layer.
    pub fn new(inner: RouterInner<H>, resources_inner: ResourcesInner<V>) -> (r: Self)
        ensures
            r.base() == resources_inner@,
            r.resources().overlay() == Map::<TypeKey, V>::empty(),
            forall|name: Seq<char>| r.route(name) == inner.route(name),
    {
        let base_resources = Resources::from_base_inner(resources_inner);
        Router { inner: Arc::new(inner), base_resources }
    }

    /// Another handle on the same registry and resources.
    pub fn share(&self) -> (r: Self)
        ensures
            r == *self,
    {
        Router { inner: share(&self.inner), base_resources: self.base_resources.share() }
    }

    /// The handler registered under `method`.
    pub fn find(&self, method: &str) -> (r: Option<&H>)
        ensures
            r is Some == self.route(method@) is Some,
            r is Some ==> *r->Some_0 == self.route(method@)->Some_0,
    {
        self.inner.find(method)
    }

    /// Another handle on the resources that a call without its own is run on.
    pub fn base_resources(&self) -> (r: Resources<V>)
        ensures
            r == self.resources(),
    {
        self.base_resources.share()
    }

    /// The resources of a call that brings its own: those of the call where
    /// the router has none, else the router's base with the call's base laid
    /// over it.
    pub fn compute_call_resources(&self, call_resources: Resources<V>) -> (r: Resources<V>)
        ensures
            self.overlaid(call_resources, r),
    {
        if self.base_resources.is_empty() {
            call_resources
        } else {
            self.base_resources.new_with_overlay(call_resources)
        }
    }

    /// Dispatches a request on the router's resources.
    pub fn call<E>(&self, rpc_request: RpcRequest) -> (r: CallResult<E>) where
        H: RpcHandlerWrapperTrait<V, E>,
        ensures
            echoes(r, rpc_request.id, rpc_request.method),
            self.route(rpc_request.method@) is None ==> r == call_result::<E>(
                rpc_request.id,
                rpc_request.method,
                None,
            ),
            self.route(rpc_request.method@) is Some ==> dispatched(
                self.route(rpc_request.method@)->Some_0,
                self.resources(),
                rpc_request.params,
                rpc_request.id,
                rpc_request.method,
                r,
            ),
    {
        self.inner.call(self.base_resources.share(), rpc_request)
    }

    /// Dispatches a request on the router's resources with those of the call
    /// laid over them.
    pub fn call_with_resources<E>(
        &self,
        rpc_request: RpcRequest,
        additional_resources: Resources<V>,
    ) -> (r: CallResult<E>) where H: RpcHandlerWrapperTrait<V, E>
        ensures
            echoes(r, rpc_request.id, rpc_request.method),
            self.route(rpc_request.method@) is None ==> r == call_result::<E>(
                rpc_request.id,
                rpc_request.method,
                None,
            ),
            self.route(rpc_request.method@) is Some ==> exists|resources: Resources<V>|
                #[trigger] self.overlaid(additional_resources, resources) && dispatched(
                    self.route(rpc_request.method@)->Some_0,
                    resources,
                    rpc_request.params,
                    rpc_request.id,
                    rpc_request.method,
                    r,
                ),
    {
        let resources = self.compute_call_resources(additional_resources);
        self.inner.call(resources, rpc_request)
    }

    /// Dispatches a call by its parts on the router's resources. An id that
    /// is not given is null.
    pub fn call_route<E>(&self, id: Option<RpcId>, method: String, params: Option<JsonValue>) -> (r:
        CallResult<E>) where H: RpcHandlerWrapperTrait<V, E>
        ensures
            echoes(r, id_or_null(id), method),
            self.route(method@) is None ==> r == call_result::<E>(id_or_null(id), method, None),
            self.route(method@) is Some ==> dispatched(
                self.route(method@)->Some_0,
                self.resources(),
                params,
                id_or_null(id),
                method,
                r,
            ),
    {
        let id = match id {
            Some(i) => i,
            None => RpcId::Null,
        };
        self.inner.call_route(self.base_resources.share(), id, method, params)
    }

    /// Dispatches a call by its parts on the router's resources with those of
    /// the call laid over them. An id that is not given is null.
    pub fn call_route_with_resources<E>(
        &self,
        id: Option<RpcId>,
        method: String,
        params: Option<JsonValue>,
        additional_resources: Resources<V>,
    ) -> (r: CallResult<E>) where H: RpcHandlerWrapperTrait<V, E>
        ensures
            echoes(r, id_or_null(id), method),
            self.route(method@) is None ==> r == call_result::<E>(id_or_null(id), method, None),
            self.route(method@) is Some ==> exists|resources: Resources<V>|
                #[trigger] self.overlaid(additional_resources, resources) && dispatched(
                    self.route(method@)->Some_0,
                    resources,
                    params,
                    id_or_null(id),
                    method,
                    r,
                ),
    {
        let resources = self.compute_call_resources(additional_resources);
        let id = match id {
            Some(i) => i,
            None => RpcId::Null,
        };
        self.inner.call_route(resources, id, method, params)
    }
}

/// Collects the registrations and the base resources of a router.
pub struct RouterBuilder<H, V> {
    inner: RouterInner<H>,
    base_resources_inner: ResourcesInner<V>,
}

impl<H, V> RouterBuilder<H, V> {
    /// The handler registered under `name`.
    pub closed spec fn route(&self, name: Seq<char>) -> Option<H> {
        self.inner.route(name)
    }

    /// The base resources collected so far.
    pub closed spec fn base(&self) -> Map<TypeKey, V> {
        self.base_resources_inner@
    }

    /// An empty builder.
    pub fn new() -> (r: Self)
        ensures
            r.base() == Map::<TypeKey, V>::empty(),
            forall|name: Seq<char>| r.route(name) is None,
    {
        RouterBuilder { inner: RouterInner::new(), base_resources_inner: ResourcesInner::new() }
    }

    /// The builder with `dyn_handler` registered under `name`, in place of
    /// what was there.
    pub fn append_dyn(self, name: &str, dyn_handler: H) -> (r: Self)
        ensures
            r.base() == self.base(),
            r.route(name@) == Some(dyn_handler),
            forall|other: Seq<char>| other != name@ ==> r.route(other) == self.route(other),
    {
        let mut builder = self;
        builder.inner.append_dyn(name, dyn_handler);
        builder
    }

    /// The builder with the registrations and resources of `other_builder`
    /// taken over, in place of what was there under the same name or key.
    pub fn extend(self, other_builder: RouterBuilder<H, V>) -> (r: Self)
        ensures
            r.base() == self.base().union_prefer_right(other_builder.base()),
            forall|name: Seq<char>|
                r.route(name) == if other_builder.route(name) is Some {
                    other_builder.route(name)
                } else {
                    self.route(name)
                },
    {
        let mut builder = self;
        builder.inner.extend(other_builder.inner);
        builder.base_resources_inner.extend(other_builder.base_resources_inner);
        builder
    }

    /// The builder with `val` among the base resources, under `key`.
    pub fn append_resource(self, key: TypeKey, val: V) -> (r: Self)
        ensures
            r.base() == self.base().insert(key, val),
            forall|name: Seq<char>| r.route(name) == self.route(name),
    {
        let mut builder = self;
        builder.base_resources_inner.insert(key, val);
        builder
    }

    /// The builder with the values of `resources_builder`, if there is one,
    /// taken over among the base resources.
    pub fn extend_resources(self, resources_builder: Option<ResourcesBuilder<V>>) -> (r: Self)
        ensures
            r.base() == match resources_builder {
                Some(b) => self.base().union_prefer_right(b@),
                None => self.base(),
            },
            forall|name: Seq<char>| r.route(name) == self.route(name),
    {
        let mut builder = self;
        match resources_builder {
            Some(b) => {
                if builder.base_resources_inner.is_empty() {
                    proof {
                        assert(Map::<TypeKey, V>::empty().union_prefer_right(b@) =~= b@);
                    }
                    builder.base_resources_inner = b.resources_inner;
                } else {
                    builder.base_resources_inner.extend(b.resources_inner);
                }
            },
            None => {},
        }
        builder
    }

    /// The builder with the values of `resources_builder` as its base
    /// resources, in place of all that were there.
    pub fn set_resources(self, resources_builder: ResourcesBuilder<V>) -> (r: Self)
        ensures
            r.base() == resources_builder@,
            forall|name: Seq<char>| r.route(name) == self.route(name),
    {
        let mut builder = self;
        builder.base_resources_inner = resources_builder.resources_inner;
        builder
    }

    /// The router of what was collected.
    pub fn build(self) -> (r: Router<H, V>)
        ensures
            r.base() == self.base(),
            r.resources().overlay() == Map::<TypeKey, V>::empty(),
            forall|name: Seq<char>| r.route(name) == self.route(name),
    {
        Router::new(self.inner, self.base_resources_inner)
    }
}

/// Another name for [`Router`].
pub type RpcRouter<H, V> = Router<H, V>;

} // verus!
