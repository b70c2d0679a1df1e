use vstd::prelude::*;

verus! {

/// The HTTP verbs a route can be declared for.
///
/// The router only ever compares a request's method against a route's
/// declared method, so the nine standard verbs are modelled as a plain
/// enumeration of the library's own.
#[derive(Clone, Copy, Debug, PartialEq, Eq, Structural)]
pub enum Method {
    Options,
    Get,
    Post,
    Put,
    Delete,
    Head,
    Trace,
    Connect,
    Patch,
}

} // verus!
