mod builder;
mod route_impl;

pub use builder::RouteBuilder;
pub use builder::RouteBuilderImpls;
pub use builder::RouteWithCapturesBuilder;
pub use route_impl::Route;
pub use route_impl::RouteHelpers;
pub use route_impl::RouteWithCaptures;
