//! Request-routing core of an embeddable HTTP dispatch layer.
//!
//! A route table binds HTTP methods and compiled path patterns to opaque
//! handler values; the dispatcher matches an incoming method and path
//! against the table, extracts named path captures, and classifies every
//! request as matched, not-found or method-not-allowed.

pub mod captures;
pub mod dispatch;
pub mod handlers;
pub mod method;
pub mod path;
pub mod route;

pub use captures::Captures;
pub use dispatch::Outcome;
pub use dispatch::RouteEntry;
pub use dispatch::RouteTable;
pub use dispatch::SelectedHandler;
pub use handlers::HttpResponse;
pub use method::Method;
pub use path::Path;
pub use path::PathError;
pub use route::Route;
pub use route::RouteBuilder;
pub use route::RouteBuilderImpls;
pub use route::RouteHelpers;
pub use route::RouteWithCaptures;
pub use route::RouteWithCapturesBuilder;
