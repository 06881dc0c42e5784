use vstd::prelude::*;
use vstd::seq_lib::*;

verus! {

/// Boolean feature flags describing required website capabilities.  Immutable
/// once produced by the Architect agent.
#[derive(Debug, Clone, Copy, PartialEq, Eq, Structural)]
pub struct ProjectScope {
    pub is_crud_required: bool,
    pub is_user_login_and_logout: bool,
    pub is_external_urls_required: bool,
}

/// Spec-level mirror of [`RouteObject`].  The request and response bodies are
/// carried as opaque JSON values.
pub struct RouteObjectView {
    pub is_route_dynamic: Seq<char>,
    pub method: Seq<char>,
    pub request_body: serde_json::Value,
    pub response: serde_json::Value,
    pub route: Seq<char>,
}

/// One discovered REST endpoint's shape: method, path, dynamic flag, and the
/// request and response bodies as arbitrary JSON values.
#[derive(Debug)]
pub struct RouteObject {
    pub is_route_dynamic: String,
    pub method: String,
    pub request_body: serde_json::Value,
    pub response: serde_json::Value,
    pub route: String,
}

impl View for RouteObject {
    type V = RouteObjectView;

    open spec fn view(&self) -> RouteObjectView {
        RouteObjectView {
            is_route_dynamic: self.is_route_dynamic@,
            method: self.method@,
            request_body: self.request_body,
            response: self.response,
            route: self.route@,
        }
    }
}

/// The views of a sequence of route objects.
pub open spec fn routes_view(routes: Seq<RouteObject>) -> Seq<RouteObjectView> {
    routes.map_values(|ro: RouteObject| ro@)
}

/// Spec-level mirror of [`FactSheet`].
#[verifier::ext_equal]
pub struct FactSheetView {
    pub project_description: Seq<char>,
    pub project_scope: Option<ProjectScope>,
    pub external_urls: Seq<Seq<char>>,
    pub backend_code: Option<Seq<char>>,
    pub api_endpoint_schema: Seq<RouteObjectView>,
}

/// The shared, mutable record accumulating all artifacts produced across the
/// pipeline.  The orchestrator owns it and hands exclusive mutable access to
/// one agent at a time.
#[derive(Debug)]
pub struct FactSheet {
    pub project_description: String,
    pub project_scope: Option<ProjectScope>,
    pub external_urls: Vec<String>,
    pub backend_code: Option<String>,
    pub api_endpoint_schema: Vec<RouteObject>,
}

impl View for FactSheet {
    type V = FactSheetView;

    open spec fn view(&self) -> FactSheetView {
        FactSheetView {
            project_description: self.project_description@,
            project_scope: self.project_scope,
            external_urls: self.external_urls.deep_view(),
            backend_code: self.backend_code.deep_view(),
            api_endpoint_schema: routes_view(self.api_endpoint_schema@),
        }
    }
}

impl FactSheet {
    /// A fresh record holding only the project description.
    pub fn new(project_description: String) -> (fs: FactSheet)
        ensures
            fs@.project_description == project_description@,
            fs@.project_scope is None,
            fs@.external_urls.len() == 0,
            fs@.backend_code is None,
            fs@.api_endpoint_schema.len() == 0,
    {
        FactSheet {
            project_description,
            project_scope: None,
            external_urls: Vec::new(),
            backend_code: None,
            api_endpoint_schema: Vec::new(),
        }
    }
}

/// Whether a discovered endpoint is retained in the record: a plain GET route
/// that is not dynamic.
pub open spec fn spec_is_static_get(route: RouteObjectView) -> bool {
    route.method == "get"@ && route.is_route_dynamic == "false"@
}

/// Executable check matching [`spec_is_static_get`].
pub fn is_static_get(route: &RouteObject) -> (b: bool)
    ensures
        b == spec_is_static_get(route@),
{
    let get_label = String::from_str("get");
    let false_label = String::from_str("false");
    route.method == get_label && route.is_route_dynamic == false_label
}

/// The retention predicate as a first-class spec value.
pub open spec fn spec_static_get_pred() -> spec_fn(RouteObjectView) -> bool {
    |rv: RouteObjectView| spec_is_static_get(rv)
}

pub(crate) proof fn lemma_filter_push<A>(s: Seq<A>, pred: spec_fn(A) -> bool, x: A)
    ensures
        s.push(x).filter(pred) == if pred(x) {
            s.filter(pred).push(x)
        } else {
            s.filter(pred)
        },
{
    reveal(Seq::filter);
    assert(s.push(x).drop_last() =~= s);
    assert(s.push(x).last() == x);
}

/// Filters a set of discovered endpoints down to exactly those that are
/// static GET routes, keeping the input order among the retained entries.
pub fn filter_static_get_routes(routes: Vec<RouteObject>) -> (r: Vec<RouteObject>)
    ensures
        routes_view(r@) == routes_view(routes@).filter(spec_static_get_pred()),
{
    let ghost orig = routes@;
    let ghost pred = spec_static_get_pred();
    let mut remaining = routes;
    let mut kept: Vec<RouteObject> = Vec::new();
    proof {
        assert(routes_view(kept@) =~= routes_view(orig.subrange(0, 0)).filter(pred));
        assert(remaining@ =~= orig.subrange(0, orig.len() as int));
    }
    while remaining.len() > 0
        invariant
            pred == spec_static_get_pred(),
            remaining@.len() <= orig.len(),
            remaining@ == orig.subrange(orig.len() - remaining@.len(), orig.len() as int),
            routes_view(kept@) == routes_view(
                orig.subrange(0, orig.len() - remaining@.len()),
            ).filter(pred),
        decreases remaining@.len(),
    {
        let ghost k = orig.len() - remaining@.len();
        let ro = remaining.remove(0);
        proof {
            assert(ro == orig[k]);
            assert(remaining@ =~= orig.subrange(k + 1, orig.len() as int));
            assert(orig.subrange(0, k + 1) =~= orig.subrange(0, k).push(orig[k]));
            assert(routes_view(orig.subrange(0, k).push(orig[k])) =~= routes_view(
                orig.subrange(0, k),
            ).push(orig[k]@));
            lemma_filter_push(routes_view(orig.subrange(0, k)), pred, orig[k]@);
        }
        proof {
            assert(pred(ro@) == spec_is_static_get(ro@));
        }
        if is_static_get(&ro) {
            let ghost kept_before = kept@;
            kept.push(ro);
            proof {
                assert(routes_view(kept@) =~= routes_view(kept_before).push(ro@));
            }
        }
    }
    proof {
        assert(orig.subrange(0, orig.len() as int) =~= orig);
    }
    kept
}

} // verus!
