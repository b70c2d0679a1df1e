use vstd::prelude::*;

use super::builder::RouteBuilder;
use super::builder::RouteBuilderImpls;
use super::builder::RouteWithCapturesBuilder;
use crate::method::Method;
use crate::path::has_dup_captures;
use crate::path::spec_pattern_of;
use crate::path::Path;
use crate::path::PathError;
use crate::path::SegmentModel;

verus! {

/// Holds route information: an HTTP method, a compiled path pattern, and
/// the handler for the requests it matches.
///
/// The handler is an opaque value of the application's choosing — the
/// router only ever selects it and hands it back, never invokes it.
/// `None` is the intentional "not implemented" placeholder of a route
/// declared by a builder whose `using` was never called; dispatching to
/// such a route selects the not-implemented fallback.
#[derive(Debug)]
pub struct Route<H> {
    /// HTTP method to match.
    pub method: Method,
    /// Path pattern to match.
    pub path: Path,
    /// Request handler, or the "not implemented" placeholder.
    pub handler: Option<H>,
}

/// Holds route information for a capture-aware endpoint: identical to
/// [`Route`], but its handler additionally receives the captures extracted
/// from the matched path.
#[derive(Debug)]
pub struct RouteWithCaptures<C> {
    /// HTTP method to match.
    pub method: Method,
    /// Path pattern to match.
    pub path: Path,
    /// Request-with-captures handler, or the "not implemented" placeholder.
    pub handler: Option<C>,
}

/// The method-specific factory operations shared by the two route shapes:
/// each verb operation compiles the given path and yields a builder around
/// a route declared for that verb, its handler still the "not implemented"
/// placeholder.
pub trait RouteHelpers: Sized {
    type RtBuilder: RouteBuilderImpls<Rt = Self>;

    /// Whether `route` is a fresh declaration of `method` and `pattern`,
    /// its handler still the "not implemented" placeholder.
    spec fn is_fresh(route: Self, method: Method, pattern: Seq<SegmentModel>) -> bool;

    fn options(path: &str) -> (r: Result<Self::RtBuilder, PathError>)
        ensures
            match r {
                Ok(b) => Self::is_fresh(b.route_so_far(), Method::Options, spec_pattern_of(path@))
                    && !has_dup_captures(spec_pattern_of(path@)),
                Err(e) => e == PathError::DuplicateCaptureName && has_dup_captures(
                    spec_pattern_of(path@),
                ),
            },
    {
        Self::builder(Method::Options, path)
    }

    fn get(path: &str) -> (r: Result<Self::RtBuilder, PathError>)
        ensures
            match r {
                Ok(b) => Self::is_fresh(b.route_so_far(), Method::Get, spec_pattern_of(path@))
                    && !has_dup_captures(spec_pattern_of(path@)),
                Err(e) => e == PathError::DuplicateCaptureName && has_dup_captures(
                    spec_pattern_of(path@),
                ),
            },
    {
        Self::builder(Method::Get, path)
    }

    fn post(path: &str) -> (r: Result<Self::RtBuilder, PathError>)
        ensures
            match r {
                Ok(b) => Self::is_fresh(b.route_so_far(), Method::Post, spec_pattern_of(path@))
                    && !has_dup_captures(spec_pattern_of(path@)),
                Err(e) => e == PathError::DuplicateCaptureName && has_dup_captures(
                    spec_pattern_of(path@),
                ),
            },
    {
        Self::builder(Method::Post, path)
    }

    fn put(path: &str) -> (r: Result<Self::RtBuilder, PathError>)
        ensures
            match r {
                Ok(b) => Self::is_fresh(b.route_so_far(), Method::Put, spec_pattern_of(path@))
                    && !has_dup_captures(spec_pattern_of(path@)),
                Err(e) => e == PathError::DuplicateCaptureName && has_dup_captures(
                    spec_pattern_of(path@),
                ),
            },
    {
        Self::builder(Method::Put, path)
    }

    fn delete(path: &str) -> (r: Result<Self::RtBuilder, PathError>)
        ensures
            match r {
                Ok(b) => Self::is_fresh(b.route_so_far(), Method::Delete, spec_pattern_of(path@))
                    && !has_dup_captures(spec_pattern_of(path@)),
                Err(e) => e == PathError::DuplicateCaptureName && has_dup_captures(
                    spec_pattern_of(path@),
                ),
            },
    {
        Self::builder(Method::Delete, path)
    }

    fn head(path: &str) -> (r: Result<Self::RtBuilder, PathError>)
        ensures
            match r {
                Ok(b) => Self::is_fresh(b.route_so_far(), Method::Head, spec_pattern_of(path@))
                    && !has_dup_captures(spec_pattern_of(path@)),
                Err(e) => e == PathError::DuplicateCaptureName && has_dup_captures(
                    spec_pattern_of(path@),
                ),
            },
    {
        Self::builder(Method::Head, path)
    }

    fn trace(path: &str) -> (r: Result<Self::RtBuilder, PathError>)
        ensures
            match r {
                Ok(b) => Self::is_fresh(b.route_so_far(), Method::Trace, spec_pattern_of(path@))
                    && !has_dup_captures(spec_pattern_of(path@)),
                Err(e) => e == PathError::DuplicateCaptureName && has_dup_captures(
                    spec_pattern_of(path@),
                ),
            },
    {
        Self::builder(Method::Trace, path)
    }

    fn connect(path: &str) -> (r: Result<Self::RtBuilder, PathError>)
        ensures
            match r {
                Ok(b) => Self::is_fresh(b.route_so_far(), Method::Connect, spec_pattern_of(path@))
                    && !has_dup_captures(spec_pattern_of(path@)),
                Err(e) => e == PathError::DuplicateCaptureName && has_dup_captures(
                    spec_pattern_of(path@),
                ),
            },
    {
        Self::builder(Method::Connect, path)
    }

    fn patch(path: &str) -> (r: Result<Self::RtBuilder, PathError>)
        ensures
            match r {
                Ok(b) => Self::is_fresh(b.route_so_far(), Method::Patch, spec_pattern_of(path@))
                    && !has_dup_captures(spec_pattern_of(path@)),
                Err(e) => e == PathError::DuplicateCaptureName && has_dup_captures(
                    spec_pattern_of(path@),
                ),
            },
    {
        Self::builder(Method::Patch, path)
    }

    fn builder(method: Method, path: &str) -> (r: Result<Self::RtBuilder, PathError>)
        ensures
            match r {
                Ok(b) => Self::is_fresh(b.route_so_far(), method, spec_pattern_of(path@))
                    && !has_dup_captures(spec_pattern_of(path@)),
                Err(e) => e == PathError::DuplicateCaptureName && has_dup_captures(
                    spec_pattern_of(path@),
                ),
            },
    ;
}

impl<H> RouteHelpers for Route<H> {
    type RtBuilder = RouteBuilder<H>;

    open spec fn is_fresh(route: Route<H>, method: Method, pattern: Seq<SegmentModel>) -> bool {
        route.method == method && route.path@ == pattern && route.handler is None
    }

    fn builder(method: Method, path: &str) -> (r: Result<RouteBuilder<H>, PathError>) {
        match Path::new(path) {
            Ok(p) => Ok(RouteBuilderImpls::new(Route { method, path: p, handler: None })),
            Err(e) => Err(e),
        }
    }
}

impl<C> RouteHelpers for RouteWithCaptures<C> {
    type RtBuilder = RouteWithCapturesBuilder<C>;

    open spec fn is_fresh(
        route: RouteWithCaptures<C>,
        method: Method,
        pattern: Seq<SegmentModel>,
    ) -> bool {
        route.method == method && route.path@ == pattern && route.handler is None
    }

    fn builder(method: Method, path: &str) -> (r: Result<RouteWithCapturesBuilder<C>, PathError>) {
        match Path::new(path) {
            Ok(p) => Ok(
                RouteBuilderImpls::new(RouteWithCaptures { method, path: p, handler: None }),
            ),
            Err(e) => Err(e),
        }
    }
}

impl<H> Default for Route<H> {
    /// The default route: `GET` on the root path, its handler left at the
    /// "not implemented" placeholder.
    fn default() -> (r: Route<H>)
        ensures
            r.method == Method::Get,
            r.path@ == spec_pattern_of("/"@),
            r.handler is None,
    {
        proof {
            crate::path::lemma_root_pattern();
        }
        let path = match Path::new("/") {
            Ok(p) => p,
            Err(_) => vstd::pervasive::unreached(),
        };
        Route { method: Method::Get, path, handler: None }
    }
}

impl<C> Default for RouteWithCaptures<C> {
    /// The default capture-aware route: `GET` on the root path, its
    /// handler left at the "not implemented" placeholder.
    fn default() -> (r: RouteWithCaptures<C>)
        ensures
            r.method == Method::Get,
            r.path@ == spec_pattern_of("/"@),
            r.handler is None,
    {
        proof {
            crate::path::lemma_root_pattern();
        }
        let path = match Path::new("/") {
            Ok(p) => p,
            Err(_) => vstd::pervasive::unreached(),
        };
        RouteWithCaptures { method: Method::Get, path, handler: None }
    }
}

} // verus!
