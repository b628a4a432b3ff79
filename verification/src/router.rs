//! The route-binding model: registration of the bootstrap and upgrade
//! endpoint pair of each route, first-match dispatch of request paths, and
//! the independence of the session pools behind distinct routes.

use crate::bootstrap::index_document;
use crate::bootstrap::spec_index_document;
use crate::bootstrap::spec_upgrade_path;
use crate::bootstrap::upgrade_path;
use crate::error::LiveViewError;
use vstd::prelude::*;
use vstd::string::StringExecFns;

verus! {

/// Which of a binding's two endpoints a request path reaches.
#[derive(Clone, Copy, Debug, PartialEq, Eq, Structural)]
pub enum Endpoint {
    /// The bootstrap document endpoint, registered at the route path itself.
    Bootstrap,
    /// The upgrade endpoint, registered at the route's upgrade path.
    Upgrade,
}

/// One registered route: a bootstrap endpoint at `route`, an upgrade
/// endpoint at the route's upgrade path, and the identifier of the session
/// pool that backs the upgrade endpoint.
pub struct RouteBinding {
    /// The route path prefix.
    pub route: String,
    /// Identifier of the session pool owned by this binding; pairwise
    /// distinct across the bindings of one router.
    pub pool_id: usize,
}

/// The route-binding model of the server: an ordered list of registered
/// routes, each owning its own session pool.  Registration is a pure
/// transformation: it consumes the router and returns the augmented one.
pub struct LiveviewRouter {
    /// Every registered binding, in registration order.
    pub bindings: Vec<RouteBinding>,
    /// The pool identifier the next registered binding will receive.
    pub next_pool_id: usize,
}

/// A well-formed route path: non-empty and rooted at `/`.
pub open spec fn valid_route(p: Seq<char>) -> bool {
    p.len() >= 1 && p[0] == '/'
}

/// First-match dispatch, scanning the bindings from position `k`: a path
/// equal to a binding's route reaches that binding's bootstrap endpoint, a
/// path equal to a binding's upgrade path reaches its upgrade endpoint.
pub open spec fn spec_dispatch_from(
    bindings: Seq<RouteBinding>,
    path: Seq<char>,
    k: int,
) -> Option<(int, Endpoint)>
    decreases bindings.len() - k,
    when 0 <= k <= bindings.len()
{
    if k >= bindings.len() {
        None
    } else if bindings[k].route@ == path {
        Some((k, Endpoint::Bootstrap))
    } else if spec_upgrade_path(bindings[k].route@) == path {
        Some((k, Endpoint::Upgrade))
    } else {
        spec_dispatch_from(bindings, path, k + 1)
    }
}

/// Which binding and endpoint a request path reaches, if any.
pub open spec fn spec_dispatch(bindings: Seq<RouteBinding>, path: Seq<char>) -> Option<
    (int, Endpoint),
> {
    spec_dispatch_from(bindings, path, 0)
}

impl LiveviewRouter {
    /// Well-formedness: pool identifiers are pairwise distinct and below the
    /// next free identifier, so no two bindings share a session pool.
    pub open spec fn wf(&self) -> bool {
        &&& forall|i: int|
            0 <= i < self.bindings@.len() ==> (#[trigger] self.bindings@[i].pool_id)
                < self.next_pool_id
        &&& forall|i: int, j: int|
            0 <= i < self.bindings@.len() && 0 <= j < self.bindings@.len() && i != j
                ==> self.bindings@[i].pool_id != self.bindings@[j].pool_id
    }

    /// The registered routes are pairwise disjoint: every route is valid, no
    /// two routes are equal, and no route sits at another route's upgrade
    /// path.
    pub open spec fn routes_disjoint(&self) -> bool {
        &&& forall|i: int|
            0 <= i < self.bindings@.len() ==> valid_route(#[trigger] self.bindings@[i].route@)
        &&& forall|i: int, j: int|
            0 <= i < self.bindings@.len() && 0 <= j < self.bindings@.len() && i != j
                ==> self.bindings@[i].route@ != self.bindings@[j].route@
        &&& forall|i: int, j: int|
            0 <= i < self.bindings@.len() && 0 <= j < self.bindings@.len() && i != j
                ==> self.bindings@[i].route@ != spec_upgrade_path(self.bindings@[j].route@)
    }

    /// Creates an empty router: no endpoints registered, no side effects.
    pub fn create_default_liveview_router() -> (r: Self)
        ensures
            r.wf(),
            r.bindings@.len() == 0,
            r.next_pool_id == 0,
    {
        LiveviewRouter { bindings: Vec::new(), next_pool_id: 0 }
    }

    /// Registers one route: the bootstrap endpoint at `route`, the upgrade
    /// endpoint at the route's upgrade path, and one fresh session pool
    /// owned by this binding alone.  Pure transformation: the returned
    /// router holds every earlier binding unchanged plus the new one.
    pub fn with_virtual_dom(self, route: &str) -> (r: Self)
        requires
            self.next_pool_id < usize::MAX,
        ensures
            self.wf() ==> r.wf(),
            r.next_pool_id == self.next_pool_id + 1,
            r.bindings@.len() == self.bindings@.len() + 1,
            forall|j: int|
                0 <= j < self.bindings@.len() ==> r.bindings@[j] == self.bindings@[j],
            r.bindings@.last().route@ == route@,
            r.bindings@.last().pool_id == self.next_pool_id,
    {
        let LiveviewRouter { mut bindings, next_pool_id } = self;
        bindings.push(RouteBinding { route: route.to_owned(), pool_id: next_pool_id });
        LiveviewRouter { bindings, next_pool_id: next_pool_id + 1 }
    }

    /// Dispatches a request path to the binding and endpoint it reaches, by
    /// first match in registration order.
    pub fn dispatch(&self, path: &str) -> (r: Option<(usize, Endpoint)>)
        ensures
            r is Some <==> spec_dispatch(self.bindings@, path@) is Some,
            r matches Some((i, e)) ==> spec_dispatch(self.bindings@, path@) == Some(
                (i as int, e),
            ) && i < self.bindings@.len(),
    {
        let owned = path.to_owned();
        let n = self.bindings.len();
        let mut i: usize = 0;
        while i < n
            invariant
                n == self.bindings@.len(),
                i <= n,
                owned@ == path@,
                spec_dispatch(self.bindings@, path@) == spec_dispatch_from(
                    self.bindings@,
                    path@,
                    i as int,
                ),
            decreases n - i,
        {
            if self.bindings[i].route.eq(&owned) {
                return Some((i, Endpoint::Bootstrap));
            }
            let up = upgrade_path(self.bindings[i].route.as_str());
            if up.eq(&owned) {
                return Some((i, Endpoint::Upgrade));
            }
            i = i + 1;
        }
        None
    }

    /// Handles one inbound request path: a path reaching a bootstrap
    /// endpoint gets the bootstrap document for that path, a path reaching
    /// an upgrade endpoint is handed to the session pool of the binding it
    /// reached, and an unmatched path gets nothing.
    pub fn handle_request(&self, path: &str) -> (r: Option<RouteResponse>)
        ensures
            r is Some <==> spec_dispatch(self.bindings@, path@) is Some,
            r matches Some(RouteResponse::Document(doc)) ==> spec_dispatch(self.bindings@, path@)
                matches Some((i, e)) && e is Bootstrap && doc@ == spec_index_document(path@),
            r matches Some(RouteResponse::UpgradeAt(pool_id)) ==> spec_dispatch(
                self.bindings@,
                path@,
            ) matches Some((i, e)) && e is Upgrade && pool_id == self.bindings@[i].pool_id,
    {
        match self.dispatch(path) {
            None => None,
            Some((_, Endpoint::Bootstrap)) => Some(RouteResponse::Document(index_document(path))),
            Some((i, Endpoint::Upgrade)) => Some(
                RouteResponse::UpgradeAt(self.bindings[i].pool_id),
            ),
        }
    }
}

/// The router's answer to one inbound request path.
pub enum RouteResponse {
    /// A bootstrap document, served with HTTP success status.
    Document(String),
    /// A transport upgrade, to be launched on the session pool with this
    /// identifier.
    UpgradeAt(usize),
}

/// The upgrade path determines the route: on valid routes the upgrade-path
/// computation is injective.
pub proof fn lemma_upgrade_path_injective(p1: Seq<char>, p2: Seq<char>)
    requires
        valid_route(p1),
        valid_route(p2),
        spec_upgrade_path(p1) == spec_upgrade_path(p2),
    ensures
        p1 == p2,
{
    reveal_strlit("/");
    reveal_strlit("/ws");
    if p1 == "/"@ && p2 == "/"@ {
    } else if p1 == "/"@ {
        assert(spec_upgrade_path(p1).len() == 3);
        assert(spec_upgrade_path(p2).len() == p2.len() + 3);
    } else if p2 == "/"@ {
        assert(spec_upgrade_path(p2).len() == 3);
        assert(spec_upgrade_path(p1).len() == p1.len() + 3);
    } else {
        assert(spec_upgrade_path(p1).len() == p1.len() + "/ws"@.len());
        assert(spec_upgrade_path(p2).len() == p2.len() + "/ws"@.len());
        assert(p1.len() == p2.len());
        assert forall|k: int| 0 <= k < p1.len() implies p1[k] == p2[k] by {
            assert((p1 + "/ws"@)[k] == p1[k]);
            assert((p2 + "/ws"@)[k] == p2[k]);
        }
        assert(p1 =~= p2);
    }
}

/// A valid route never coincides with its own upgrade path.
pub proof fn lemma_route_not_own_upgrade_path(p: Seq<char>)
    requires
        valid_route(p),
    ensures
        p != spec_upgrade_path(p),
{
    reveal_strlit("/");
    reveal_strlit("/ws");
    if p == "/"@ {
        assert(p.len() == 1);
        assert(spec_upgrade_path(p).len() == 3);
    } else {
        assert(spec_upgrade_path(p).len() == p.len() + 3);
    }
}

/// First-match dispatch lands at position `i` with endpoint `e` when no
/// earlier position from `k` on matches and position `i` matches as `e`.
proof fn lemma_dispatch_from_reaches(
    bindings: Seq<RouteBinding>,
    path: Seq<char>,
    k: int,
    i: int,
    e: Endpoint,
)
    requires
        0 <= k <= i < bindings.len(),
        forall|j: int|
            k <= j < i ==> (#[trigger] bindings[j].route@) != path && spec_upgrade_path(
                bindings[j].route@,
            ) != path,
        e is Bootstrap ==> bindings[i].route@ == path,
        e is Upgrade ==> bindings[i].route@ != path && spec_upgrade_path(bindings[i].route@)
            == path,
    ensures
        spec_dispatch_from(bindings, path, k) == Some((i, e)),
    decreases i - k,
{
    if k < i {
        lemma_dispatch_from_reaches(bindings, path, k + 1, i, e);
    }
}

/// Independent endpoint pairs: with pairwise disjoint routes, the bootstrap
/// and upgrade paths of each binding dispatch to that binding and to no
/// other, and its session pool is shared with no other binding.  A request
/// to one route's endpoints therefore never reaches another route's pool.
pub proof fn lemma_bindings_independent(r: LiveviewRouter, i: int)
    requires
        r.wf(),
        r.routes_disjoint(),
        0 <= i < r.bindings@.len(),
    ensures
        spec_dispatch(r.bindings@, r.bindings@[i].route@) == Some((i, Endpoint::Bootstrap)),
        spec_dispatch(r.bindings@, spec_upgrade_path(r.bindings@[i].route@)) == Some(
            (i, Endpoint::Upgrade),
        ),
        forall|j: int|
            0 <= j < r.bindings@.len() && j != i ==> (#[trigger] r.bindings@[j].pool_id)
                != r.bindings@[i].pool_id,
{
    let bindings = r.bindings@;
    let boot_path = bindings[i].route@;
    assert forall|j: int| 0 <= j < i implies (#[trigger] bindings[j].route@) != boot_path
        && spec_upgrade_path(bindings[j].route@) != boot_path by {
        assert(bindings[j].route@ != bindings[i].route@);
        assert(bindings[i].route@ != spec_upgrade_path(bindings[j].route@));
    }
    lemma_dispatch_from_reaches(bindings, boot_path, 0, i, Endpoint::Bootstrap);
    let up_path = spec_upgrade_path(bindings[i].route@);
    lemma_route_not_own_upgrade_path(bindings[i].route@);
    assert forall|j: int| 0 <= j < i implies (#[trigger] bindings[j].route@) != up_path
        && spec_upgrade_path(bindings[j].route@) != up_path by {
        assert(bindings[j].route@ != spec_upgrade_path(bindings[i].route@));
        if spec_upgrade_path(bindings[j].route@) == up_path {
            lemma_upgrade_path_injective(bindings[j].route@, bindings[i].route@);
        }
    }
    lemma_dispatch_from_reaches(bindings, up_path, 0, i, Endpoint::Upgrade);
}

/// Decides the outcome report of a serve attempt: a listener or server-loop
/// failure is reported as `ServerStartFailed`; a clean exit reports nothing.
/// The report is surfaced to the operator and is fatal to the serve attempt
/// only, never to other in-process work.
pub fn start_report(outcome: Result<(), std::io::Error>) -> (r: Option<LiveViewError>)
    ensures
        outcome is Err <==> r == Some(LiveViewError::ServerStartFailed),
        outcome is Ok <==> r is None,
{
    match outcome {
        Ok(_) => None,
        Err(_) => Some(LiveViewError::ServerStartFailed),
    }
}

} // verus!
