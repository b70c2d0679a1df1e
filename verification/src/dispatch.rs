use vstd::prelude::*;

use crate::captures::Captures;
use crate::method::Method;
use crate::path::spec_match;
use crate::path::spec_tokens;
use crate::path::tokens;
use crate::path::SegmentModel;
use crate::route::Route;
use crate::route::RouteWithCaptures;

verus! {

/// One entry of a route table: a routable endpoint of either handler
/// shape.
pub enum RouteEntry<H, C> {
    Plain(Route<H>),
    WithCaptures(RouteWithCaptures<C>),
}

/// The handler selected by a successful dispatch: the matched route's
/// handler of whichever shape it was registered with, or the
/// not-implemented placeholder of a route that was never given one.
pub enum SelectedHandler<H, C> {
    Plain(H),
    WithCaptures(C),
    NotImplemented,
}

/// The classification of one dispatch: a selected handler together with
/// the extracted captures, or the reason no handler applies.  Translating
/// an outcome into a response is the caller's job.
pub enum Outcome<H, C> {
    /// Some route matched path and method; its handler and the captures.
    Matched(SelectedHandler<H, C>, Captures),
    /// No route's pattern matched the path.
    NoPathMatch,
    /// Some route's pattern matched the path, but none of those routes was
    /// declared for the request's method.
    PathMatchedWrongMethod,
}

/// The model of an outcome, carrying the captures as a sequence of pairs.
pub enum OutcomeModel<H, C> {
    Matched(SelectedHandler<H, C>, Seq<(Seq<char>, Seq<char>)>),
    NoPathMatch,
    PathMatchedWrongMethod,
}

impl<H, C> View for Outcome<H, C> {
    type V = OutcomeModel<H, C>;

    open spec fn view(&self) -> OutcomeModel<H, C> {
        match self {
            Outcome::Matched(sel, caps) => OutcomeModel::Matched(*sel, caps@),
            Outcome::NoPathMatch => OutcomeModel::NoPathMatch,
            Outcome::PathMatchedWrongMethod => OutcomeModel::PathMatchedWrongMethod,
        }
    }
}

/// The method an entry is declared for.
pub open spec fn entry_method<H, C>(e: RouteEntry<H, C>) -> Method {
    match e {
        RouteEntry::Plain(r) => r.method,
        RouteEntry::WithCaptures(r) => r.method,
    }
}

/// The compiled pattern of an entry.
pub open spec fn entry_pattern<H, C>(e: RouteEntry<H, C>) -> Seq<SegmentModel> {
    match e {
        RouteEntry::Plain(r) => r.path@,
        RouteEntry::WithCaptures(r) => r.path@,
    }
}

/// The handler an entry selects when it wins.
pub open spec fn entry_handler<H, C>(e: RouteEntry<H, C>) -> SelectedHandler<H, C> {
    match e {
        RouteEntry::Plain(r) => match r.handler {
            Some(h) => SelectedHandler::Plain(h),
            None => SelectedHandler::NotImplemented,
        },
        RouteEntry::WithCaptures(r) => match r.handler {
            Some(c) => SelectedHandler::WithCaptures(c),
            None => SelectedHandler::NotImplemented,
        },
    }
}

/// Whether an entry fits the request in both pattern and method.
pub open spec fn entry_full_match<H, C>(e: RouteEntry<H, C>, m: Method, ts: Seq<Seq<char>>) -> bool {
    entry_method(e) == m && spec_match(entry_pattern(e), ts) is Some
}

/// Folds "some earlier pattern matched the path" into the outcome of the
/// remaining scan: a scan that would otherwise report no path match
/// reports a method mismatch instead.
pub open spec fn resolve<H, C>(path_matched: bool, rest: OutcomeModel<H, C>) -> OutcomeModel<H, C> {
    if path_matched && rest is NoPathMatch {
        OutcomeModel::PathMatchedWrongMethod
    } else {
        rest
    }
}

/// The outcome of dispatching method `m` and path tokens `ts` against
/// `entries`, walked in registration order: the first entry matching both
/// pattern and method wins with its captures; failing that, a request
/// whose path matched some entry's pattern is classified as a method
/// mismatch, and one whose path matched no pattern as not found.
pub open spec fn spec_dispatch<H, C>(
    entries: Seq<RouteEntry<H, C>>,
    m: Method,
    ts: Seq<Seq<char>>,
) -> OutcomeModel<H, C>
    decreases entries.len(),
{
    if entries.len() == 0 {
        OutcomeModel::NoPathMatch
    } else {
        match spec_match(entry_pattern(entries[0]), ts) {
            Some(cs) => if entry_method(entries[0]) == m {
                OutcomeModel::Matched(entry_handler(entries[0]), cs)
            } else {
                resolve(true, spec_dispatch(entries.drop_first(), m, ts))
            },
            None => spec_dispatch(entries.drop_first(), m, ts),
        }
    }
}

/// The ordered collection of all registered routes consulted during
/// dispatch.  It is built once by appending routes in registration order —
/// which is significant, since the first matching entry wins — and only
/// read thereafter: dispatch takes the table by shared reference and
/// performs a pure computation over it.
pub struct RouteTable<H, C> {
    entries: Vec<RouteEntry<H, C>>,
}

impl<H, C> View for RouteTable<H, C> {
    type V = Seq<RouteEntry<H, C>>;

    closed spec fn view(&self) -> Seq<RouteEntry<H, C>> {
        self.entries@
    }
}

impl<H, C> RouteTable<H, C> {
    /// A table with no routes.
    pub fn new() -> (t: Self)
        ensures
            t@ == Seq::<RouteEntry<H, C>>::empty(),
    {
        let t = RouteTable { entries: Vec::new() };
        proof {
            assert(t@ =~= Seq::<RouteEntry<H, C>>::empty());
        }
        t
    }

    /// How many routes are registered.
    pub fn len(&self) -> (n: usize)
        ensures
            n == self@.len(),
    {
        self.entries.len()
    }

    /// Registers a plain route after every route registered so far.
    pub fn add(&mut self, route: Route<H>)
        ensures
            final(self)@ == old(self)@.push(RouteEntry::Plain(route)),
    {
        self.entries.push(RouteEntry::Plain(route));
    }

    /// Registers a capture-aware route after every route registered so far.
    pub fn add_with_captures(&mut self, route: RouteWithCaptures<C>)
        ensures
            final(self)@ == old(self)@.push(RouteEntry::WithCaptures(route)),
    {
        self.entries.push(RouteEntry::WithCaptures(route));
    }
}

impl<H: Copy, C: Copy> RouteTable<H, C> {
    /// Walks the table in registration order and classifies the request:
    /// the first route matching both pattern and method wins, a path that
    /// matched only under other methods reports a method mismatch, and a
    /// path no pattern matched reports no match at all.
    pub fn dispatch(&self, method: Method, path: &str) -> (o: Outcome<H, C>)
        ensures
            o@ == spec_dispatch(self@, method, spec_tokens(path@)),
    {
        let toks = tokens(path);
        let ghost ts = spec_tokens(path@);
        let ghost es = self@;
        proof {
            assert(es.skip(0) =~= es);
        }
        let n = self.entries.len();
        let mut path_matched = false;
        let mut i: usize = 0;
        while i < n
            invariant
                n == self.entries.len(),
                es == self@,
                ts == toks.deep_view(),
                ts == spec_tokens(path@),
                i <= n,
                spec_dispatch(es, method, ts) == resolve(
                    path_matched,
                    spec_dispatch(es.skip(i as int), method, ts),
                ),
            decreases n - i,
        {
            let e = &self.entries[i];
            proof {
                assert(es.skip(i as int)[0] == es[i as int]);
                assert(es.skip(i as int).drop_first() =~= es.skip(i as int + 1));
            }
            let matched: Option<Captures> = match e {
                RouteEntry::Plain(r) => r.path.matches_tokens(&toks),
                RouteEntry::WithCaptures(r) => r.path.matches_tokens(&toks),
            };
            match matched {
                Some(caps) => {
                    let em: Method = match e {
                        RouteEntry::Plain(r) => r.method,
                        RouteEntry::WithCaptures(r) => r.method,
                    };
                    if em == method {
                        let sel: SelectedHandler<H, C> = match e {
                            RouteEntry::Plain(r) => match r.handler {
                                Some(h) => SelectedHandler::Plain(h),
                                None => SelectedHandler::NotImplemented,
                            },
                            RouteEntry::WithCaptures(r) => match r.handler {
                                Some(c) => SelectedHandler::WithCaptures(c),
                                None => SelectedHandler::NotImplemented,
                            },
                        };
                        proof {
                            assert(*e == es[i as int]);
                            assert(sel == entry_handler(es[i as int]));
                            assert(spec_dispatch(es.skip(i as int), method, ts)
                                == OutcomeModel::Matched(entry_handler(es[i as int]), caps@));
                        }
                        return Outcome::Matched(sel, caps);
                    }
                    path_matched = true;
                },
                None => {},
            }
            i += 1;
        }
        proof {
            assert(es.skip(n as int).len() == 0);
        }
        if path_matched {
            Outcome::PathMatchedWrongMethod
        } else {
            Outcome::NoPathMatch
        }
    }
}

/// First match wins: when the routes before `i` all fail the request and
/// route `i` matches it in both pattern and method, dispatch selects route
/// `i`'s handler and captures — however often the table is scanned, and
/// whatever routes follow.
pub proof fn lemma_first_match_wins<H, C>(
    entries: Seq<RouteEntry<H, C>>,
    m: Method,
    ts: Seq<Seq<char>>,
    i: int,
)
    requires
        0 <= i < entries.len(),
        entry_full_match(entries[i], m, ts),
        forall|j: int| 0 <= j < i ==> !entry_full_match(#[trigger] entries[j], m, ts),
    ensures
        spec_dispatch(entries, m, ts) == OutcomeModel::Matched(
            entry_handler(entries[i]),
            spec_match(entry_pattern(entries[i]), ts)->Some_0,
        ),
    decreases i,
{
    if i == 0 {
    } else {
        assert(!entry_full_match(entries[0], m, ts));
        lemma_first_match_wins(entries.drop_first(), m, ts, i - 1);
        assert(entries.drop_first()[i - 1] == entries[i]);
    }
}

/// Dispatch is a pure function of the table, the method and the path: two
/// dispatches of the same request against the same table classify it
/// identically, and dispatching neither reads anything else nor changes
/// the table.
pub proof fn lemma_dispatch_deterministic<H, C>(
    entries: Seq<RouteEntry<H, C>>,
    m: Method,
    ts: Seq<Seq<char>>,
    o1: OutcomeModel<H, C>,
    o2: OutcomeModel<H, C>,
)
    requires
        o1 == spec_dispatch(entries, m, ts),
        o2 == spec_dispatch(entries, m, ts),
    ensures
        o1 == o2,
{
}

} // verus!
