use vstd::prelude::*;

use super::route_impl::Route;
use super::route_impl::RouteWithCaptures;

verus! {

/// Builds a plain route: attaching the handler is the one terminal step.
pub struct RouteBuilder<H> {
    route: Route<H>,
}

/// Builds a capture-aware route, in the same two phases.
pub struct RouteWithCapturesBuilder<C> {
    route: RouteWithCaptures<C>,
}

/// The two-phase construction protocol shared by the route builders: a
/// builder is created around a declared route and consumed by `using`,
/// which attaches the handler and releases the finished route. Since the
/// builder is consumed, a half-built route can neither be stored nor
/// registered.
pub trait RouteBuilderImpls: Sized {
    type Rt;

    type Handler;

    /// The route as declared so far.
    spec fn route_so_far(&self) -> Self::Rt;

    /// The declared route with `handler` attached in place of the default.
    spec fn attach(route: Self::Rt, handler: Self::Handler) -> Self::Rt;

    /// Wraps a declared route.
    fn new(route: Self::Rt) -> (b: Self)
        ensures
            b.route_so_far() == route,
    ;

    /// Completes the building process by taking the handler to process the
    /// request.
    ///
    /// Returns created route.
    fn using(self, handler: Self::Handler) -> (r: Self::Rt)
        ensures
            r == Self::attach(self.route_so_far(), handler),
    ;
}

impl<H> RouteBuilderImpls for RouteBuilder<H> {
    type Rt = Route<H>;

    type Handler = H;

    closed spec fn route_so_far(&self) -> Route<H> {
        self.route
    }

    open spec fn attach(route: Route<H>, handler: H) -> Route<H> {
        Route { method: route.method, path: route.path, handler: Some(handler) }
    }

    fn new(route: Route<H>) -> (b: Self) {
        let b = RouteBuilder { route };
        proof {
            assert(b.route_so_far() == b.route);
        }
        b
    }

    fn using(self, handler: H) -> (r: Route<H>) {
        let mut route = self.route;
        route.handler = Some(handler);
        route
    }
}

impl<C> RouteBuilderImpls for RouteWithCapturesBuilder<C> {
    type Rt = RouteWithCaptures<C>;

    type Handler = C;

    closed spec fn route_so_far(&self) -> RouteWithCaptures<C> {
        self.route
    }

    open spec fn attach(route: RouteWithCaptures<C>, handler: C) -> RouteWithCaptures<C> {
        RouteWithCaptures { method: route.method, path: route.path, handler: Some(handler) }
    }

    fn new(route: RouteWithCaptures<C>) -> (b: Self) {
        let b = RouteWithCapturesBuilder { route };
        proof {
            assert(b.route_so_far() == b.route);
        }
        b
    }

    fn using(self, handler: C) -> (r: RouteWithCaptures<C>) {
        let mut route = self.route;
        route.handler = Some(handler);
        route
    }
}

} // verus!
