use vstd::prelude::*;
use vstd::string::*;

use crate::captures::unique_keys;
use crate::captures::Captures;

verus! {

/// The model of one compiled segment: literal text an incoming token must
/// equal, or a named capture that binds any token.
pub enum SegmentModel {
    Literal(Seq<char>),
    Capture(Seq<char>),
}

/// One compiled segment of a path pattern.
#[derive(Debug)]
pub enum Segment {
    Literal(String),
    Capture(String),
}

impl View for Segment {
    type V = SegmentModel;

    open spec fn view(&self) -> SegmentModel {
        match self {
            Segment::Literal(t) => SegmentModel::Literal(t@),
            Segment::Capture(n) => SegmentModel::Capture(n@),
        }
    }
}

impl DeepView for Segment {
    type V = SegmentModel;

    open spec fn deep_view(&self) -> SegmentModel {
        self.view()
    }
}

/// The tokens of `s` from position `i` on, given that the token currently
/// being read began at `start` and that the tokens in `acc` were already
/// read: `s` is split on `/` and empty tokens are dropped.
pub open spec fn split_from(s: Seq<char>, i: int, start: int, acc: Seq<Seq<char>>) -> Seq<
    Seq<char>,
>
    recommends
        0 <= start <= i,
    decreases s.len() - i,
{
    if i >= s.len() {
        if start < s.len() {
            acc.push(s.subrange(start, s.len() as int))
        } else {
            acc
        }
    } else if s[i] == '/' {
        split_from(
            s,
            i + 1,
            i + 1,
            if start < i {
                acc.push(s.subrange(start, i))
            } else {
                acc
            },
        )
    } else {
        split_from(s, i + 1, start, acc)
    }
}

/// The segment tokens of a path string: the string is split on `/` and
/// empty tokens are dropped, so trailing and repeated slashes carry no
/// meaning; the empty string itself reads as one empty token.
pub open spec fn spec_tokens(s: Seq<char>) -> Seq<Seq<char>> {
    if s.len() == 0 {
        seq![Seq::<char>::empty()]
    } else {
        split_from(s, 0, 0, Seq::<Seq<char>>::empty())
    }
}

/// The segment a token compiles to: a token beginning with the capture
/// sigil `:` becomes a capture named by the rest of the token; any other
/// token is literal text.
pub open spec fn seg_of_token(t: Seq<char>) -> SegmentModel {
    if t.len() > 0 && t[0] == ':' {
        SegmentModel::Capture(t.subrange(1, t.len() as int))
    } else {
        SegmentModel::Literal(t)
    }
}

/// The pattern a token sequence compiles to.
pub open spec fn spec_compile(toks: Seq<Seq<char>>) -> Seq<SegmentModel> {
    toks.map_values(|t: Seq<char>| seg_of_token(t))
}

/// The pattern a path string compiles to.
pub open spec fn spec_pattern_of(s: Seq<char>) -> Seq<SegmentModel> {
    spec_compile(spec_tokens(s))
}

/// Whether `p` holds a capture named `name`.
pub open spec fn pattern_has_capture(p: Seq<SegmentModel>, name: Seq<char>) -> bool {
    exists|k: int| #![trigger p[k]] 0 <= k < p.len() && p[k] is Capture && p[k]->Capture_0 == name
}

/// Whether two capture segments of `p` carry the same name.
pub open spec fn has_dup_captures(p: Seq<SegmentModel>) -> bool {
    exists|i: int, j: int|
        #![trigger p[i], p[j]]
        0 <= i < j < p.len() && p[i] is Capture && p[j] is Capture && p[i]->Capture_0
            == p[j]->Capture_0
}

/// Splits a path string into its segment tokens.
pub fn tokens(s: &str) -> (r: Vec<String>)
    ensures
        r.deep_view() == spec_tokens(s@),
{
    let n = s.unicode_len();
    let mut toks: Vec<String> = Vec::new();
    if n == 0 {
        toks.push(String::new());
        proof {
            assert(toks.deep_view() =~= seq![Seq::<char>::empty()]);
        }
        return toks;
    }
    proof {
        assert(toks.deep_view() =~= Seq::<Seq<char>>::empty());
    }
    let mut start: usize = 0;
    let mut i: usize = 0;
    while i < n
        invariant
            n == s@.len(),
            start <= i <= n,
            n > 0,
            split_from(s@, i as int, start as int, toks.deep_view()) == split_from(
                s@,
                0,
                0,
                Seq::<Seq<char>>::empty(),
            ),
        decreases n - i,
    {
        let ghost pre = toks.deep_view();
        let c = s.get_char(i);
        if c == '/' {
            if start < i {
                let tok = s.substring_char(start, i);
                toks.push(String::from_str(tok));
                proof {
                    assert(toks.deep_view() =~= pre.push(
                        s@.subrange(start as int, i as int),
                    ));
                }
            }
            start = i + 1;
        }
        i += 1;
    }
    if start < n {
        let ghost pre = toks.deep_view();
        let tok = s.substring_char(start, n);
        toks.push(String::from_str(tok));
        proof {
            assert(toks.deep_view() =~= pre.push(s@.subrange(start as int, n as int)));
        }
    }
    toks
}

/// The one construction-time failure: the same capture name appeared twice
/// in a single pattern.
#[derive(Clone, Copy, Debug, PartialEq, Eq, Structural)]
pub enum PathError {
    DuplicateCaptureName,
}

/// A compiled path pattern: an ordered sequence of literal and capture
/// segments, created once when a route is declared and immutable
/// thereafter. Its capture names are unique.
#[derive(Debug)]
pub struct Path {
    segments: Vec<Segment>,
}

impl View for Path {
    type V = Seq<SegmentModel>;

    closed spec fn view(&self) -> Seq<SegmentModel> {
        self.segments.deep_view()
    }
}

/// Whether some segment already compiled is a capture named `name`.
fn contains_capture_name(segments: &Vec<Segment>, name: &String) -> (b: bool)
    ensures
        b == pattern_has_capture(segments.deep_view(), name@),
{
    let ghost dv = segments.deep_view();
    let mut j: usize = 0;
    while j < segments.len()
        invariant
            j <= segments.len(),
            dv == segments.deep_view(),
            forall|k: int|
                #![trigger dv[k]]
                0 <= k < j ==> !(dv[k] is Capture && dv[k]->Capture_0 == name@),
        decreases segments.len() - j,
    {
        let seg = &segments[j];
        proof {
            assert(dv[j as int] == segments@[j as int]@);
        }
        match seg {
            Segment::Capture(n) => {
                if *n == *name {
                    proof {
                        assert(dv[j as int] is Capture && dv[j as int]->Capture_0 == name@);
                    }
                    return true;
                }
            },
            Segment::Literal(_) => {},
        }
        j += 1;
    }
    false
}

impl Path {
    /// Compiles a route path string into a pattern: the string is split on
    /// `/`, each token beginning with `:` becomes a capture named by the
    /// rest of the token, every other token a literal. Rejects a pattern in
    /// which the same capture name appears twice.
    pub fn new(path: &str) -> (r: Result<Path, PathError>)
        ensures
            match r {
                Ok(p) => p@ == spec_pattern_of(path@) && !has_dup_captures(spec_pattern_of(path@)),
                Err(e) => e == PathError::DuplicateCaptureName && has_dup_captures(
                    spec_pattern_of(path@),
                ),
            },
    {
        let toks = tokens(path);
        let ghost pat = spec_pattern_of(path@);
        let mut segments: Vec<Segment> = Vec::new();
        proof {
            assert(pat =~= spec_compile(toks.deep_view()));
            assert(pat.take(0) =~= Seq::<SegmentModel>::empty());
            assert(segments.deep_view() =~= Seq::<SegmentModel>::empty());
        }
        let mut k: usize = 0;
        while k < toks.len()
            invariant
                toks.deep_view().len() == toks.len(),
                pat == spec_compile(toks.deep_view()),
                pat == spec_pattern_of(path@),
                pat.len() == toks.len(),
                k <= toks.len(),
                segments.deep_view() == pat.take(k as int),
                !has_dup_captures(pat.take(k as int)),
            decreases toks.len() - k,
        {
            let ghost pre = segments.deep_view();
            proof {
                assert(pat[k as int] == seg_of_token(toks.deep_view()[k as int]));
                assert(toks.deep_view()[k as int] == toks@[k as int]@);
            }
            let tok = &toks[k];
            let tlen = tok.as_str().unicode_len();
            let is_cap = tlen > 0 && tok.as_str().get_char(0) == ':';
            if is_cap {
                let name = String::from_str(tok.as_str().substring_char(1, tlen));
                proof {
                    assert(pat[k as int] is Capture && pat[k as int]->Capture_0 == name@);
                }
                if contains_capture_name(&segments, &name) {
                    proof {
                        let k2 = choose|k2: int|
                            #![trigger pre[k2]]
                            0 <= k2 < pre.len() && pre[k2] is Capture && pre[k2]->Capture_0
                                == name@;
                        assert(pat[k2] == pre[k2]);
                        assert(pat[k2] is Capture && pat[k as int] is Capture && pat[k2]->Capture_0
                            == pat[k as int]->Capture_0);
                        assert(has_dup_captures(pat));
                    }
                    return Err(PathError::DuplicateCaptureName);
                }
                segments.push(Segment::Capture(name));
            } else {
                proof {
                    assert(pat[k as int] == SegmentModel::Literal(toks@[k as int]@));
                }
                segments.push(Segment::Literal(tok.clone()));
            }
            proof {
                assert(segments.deep_view() =~= pre.push(pat[k as int]));
                assert(pat.take(k as int + 1) =~= pre.push(pat[k as int]));
                assert forall|i: int, j: int|
                    0 <= i < j < k as int + 1 && #[trigger] pat.take(k as int + 1)[i] is Capture
                        && #[trigger] pat.take(k as int + 1)[j] is Capture implies pat.take(
                    k as int + 1,
                )[i]->Capture_0 != pat.take(k as int + 1)[j]->Capture_0 by {
                    if j < k as int {
                        assert(pat.take(k as int)[i] == pat.take(k as int + 1)[i]);
                        assert(pat.take(k as int)[j] == pat.take(k as int + 1)[j]);
                    } else {
                        assert(pre[i] == pat.take(k as int + 1)[i]);
                    }
                }
            }
            k += 1;
        }
        proof {
            assert(pat.take(k as int) =~= pat);
        }
        Ok(Path { segments })
    }

    /// Matches the already-split tokens of a request path against this
    /// pattern, accumulating the captured segments.
    pub fn matches_tokens(&self, toks: &Vec<String>) -> (r: Option<Captures>)
        ensures
            match r {
                Some(c) => spec_match(self@, toks.deep_view()) == Some(c@),
                None => spec_match(self@, toks.deep_view()) is None,
            },
            r matches Some(c) ==> !has_dup_captures(self@) ==> unique_keys(c@),
    {
        let ghost p = self@;
        let ghost ts = toks.deep_view();
        if self.segments.len() != toks.len() {
            proof {
                assert(p.len() != ts.len());
            }
            return None;
        }
        let n = self.segments.len();
        let mut caps = Captures::empty();
        proof {
            assert(p.take(0) =~= Seq::<SegmentModel>::empty());
            assert(ts.take(0) =~= Seq::<Seq<char>>::empty());
        }
        let mut i: usize = 0;
        while i < n
            invariant
                n == self.segments.len(),
                p == self@,
                ts == toks.deep_view(),
                p.len() == n,
                ts.len() == n,
                i <= n,
                spec_match(p.take(i as int), ts.take(i as int)) == Some(caps@),
            decreases n - i,
        {
            let seg = &self.segments[i];
            let tok = &toks[i];
            proof {
                assert(p[i as int] == self.segments@[i as int]@);
                assert(ts[i as int] == toks@[i as int]@);
                assert(p.take(i as int + 1).drop_last() =~= p.take(i as int));
                assert(ts.take(i as int + 1).drop_last() =~= ts.take(i as int));
            }
            match seg {
                Segment::Literal(l) => {
                    if !(*l == *tok) {
                        proof {
                            assert(spec_match(p.take(i as int + 1), ts.take(i as int + 1))
                                is None);
                            lemma_match_extend_none(p, ts, i as int + 1);
                        }
                        return None;
                    }
                },
                Segment::Capture(name) => {
                    caps.push_pair(name.clone(), tok.clone());
                },
            }
            i += 1;
        }
        proof {
            assert(p.take(n as int) =~= p);
            assert(ts.take(n as int) =~= ts);
            if !has_dup_captures(p) {
                lemma_match_unique_keys(p, ts, caps@);
            }
        }
        Some(caps)
    }

    /// Matches a request path against this pattern: the path is split into
    /// tokens exactly as patterns are, the token count must equal the
    /// segment count, every literal segment must equal its token exactly,
    /// and each capture segment binds its token under the capture's name.
    pub fn matches(&self, request_path: &str) -> (r: Option<Captures>)
        ensures
            match r {
                Some(c) => spec_match(self@, spec_tokens(request_path@)) == Some(c@),
                None => spec_match(self@, spec_tokens(request_path@)) is None,
            },
            r matches Some(c) ==> !has_dup_captures(self@) ==> unique_keys(c@),
    {
        let toks = tokens(request_path);
        self.matches_tokens(&toks)
    }
}

/// The root path compiles to the empty pattern: its only token is empty
/// and empty tokens are dropped.
pub proof fn lemma_root_pattern()
    ensures
        spec_pattern_of("/"@) =~= Seq::<SegmentModel>::empty(),
        !has_dup_captures(spec_pattern_of("/"@)),
{
    reveal_strlit("/");
    assert("/"@.len() == 1);
    assert("/"@[0] == '/');
    assert(split_from("/"@, 1, 1, Seq::<Seq<char>>::empty()) =~= Seq::<Seq<char>>::empty());
    assert(spec_tokens("/"@) =~= Seq::<Seq<char>>::empty());
    assert(spec_pattern_of("/"@) =~= Seq::<SegmentModel>::empty());
}

/// The result of matching pattern `p` against the tokens `ts`: the captured
/// pairs in pattern order, if the token count equals the segment count and
/// every token matches its segment; nothing otherwise.
pub open spec fn spec_match(p: Seq<SegmentModel>, ts: Seq<Seq<char>>) -> Option<
    Seq<(Seq<char>, Seq<char>)>,
>
    decreases p.len(),
{
    if p.len() != ts.len() {
        None
    } else if p.len() == 0 {
        Some(Seq::<(Seq<char>, Seq<char>)>::empty())
    } else {
        match spec_match(p.drop_last(), ts.drop_last()) {
            None => None,
            Some(cs) => match p.last() {
                SegmentModel::Literal(l) => if l == ts.last() {
                    Some(cs)
                } else {
                    None
                },
                SegmentModel::Capture(n) => Some(cs.push((n, ts.last()))),
            },
        }
    }
}

/// Whether every segment of `p` is literal text, so the pattern captures
/// nothing.
pub open spec fn all_literal(p: Seq<SegmentModel>) -> bool {
    forall|i: int| #![trigger p[i]] 0 <= i < p.len() ==> p[i] is Literal
}

/// The literal text of each segment of an all-literal pattern.
pub open spec fn literal_texts(p: Seq<SegmentModel>) -> Seq<Seq<char>> {
    p.map_values(|g: SegmentModel| g->Literal_0)
}

/// A pattern without captures matches exactly the token sequence that
/// equals its literals segment for segment, and then extracts an empty
/// captures map; every other token sequence is rejected.
pub proof fn lemma_literal_match(p: Seq<SegmentModel>, ts: Seq<Seq<char>>)
    requires
        all_literal(p),
    ensures
        ts =~= literal_texts(p) ==> spec_match(p, ts) == Some(
            Seq::<(Seq<char>, Seq<char>)>::empty(),
        ),
        !(ts =~= literal_texts(p)) ==> spec_match(p, ts) is None,
    decreases p.len(),
{
    assert(literal_texts(p).len() == p.len());
    if p.len() != ts.len() {
    } else if p.len() == 0 {
        assert(ts =~= literal_texts(p));
    } else {
        assert forall|i: int| 0 <= i < p.drop_last().len() implies #[trigger] p.drop_last()[i]
            is Literal by {
            assert(p.drop_last()[i] == p[i]);
        }
        lemma_literal_match(p.drop_last(), ts.drop_last());
        assert(literal_texts(p).drop_last() =~= literal_texts(p.drop_last()));
        assert(p[p.len() - 1] is Literal);
        if ts.drop_last() =~= literal_texts(p.drop_last()) {
            if ts.last() == p.last()->Literal_0 {
                assert forall|i: int| 0 <= i < ts.len() implies ts[i] == literal_texts(p)[i] by {
                    if i < ts.len() - 1 {
                        assert(ts[i] == ts.drop_last()[i]);
                        assert(ts.drop_last()[i] == literal_texts(p.drop_last())[i]);
                        assert(literal_texts(p.drop_last())[i] == p.drop_last()[i]->Literal_0);
                        assert(p.drop_last()[i] == p[i]);
                    }
                }
                assert(ts =~= literal_texts(p));
            } else {
                assert(!(ts =~= literal_texts(p)));
            }
        } else {
            assert(!(ts =~= literal_texts(p)));
        }
    }
}

/// The names of the capture segments of `p`, in order.
pub open spec fn capture_names(p: Seq<SegmentModel>) -> Seq<Seq<char>>
    decreases p.len(),
{
    if p.len() == 0 {
        Seq::<Seq<char>>::empty()
    } else if p.last() is Capture {
        capture_names(p.drop_last()).push(p.last()->Capture_0)
    } else {
        capture_names(p.drop_last())
    }
}

/// Every entry of `capture_names(p)` names a capture segment of `p`.
proof fn lemma_capture_names_from_segments(p: Seq<SegmentModel>, k: int)
    requires
        0 <= k < capture_names(p).len(),
    ensures
        pattern_has_capture(p, capture_names(p)[k]),
    decreases p.len(),
{
    if p.len() == 0 {
    } else if p.last() is Capture && k == capture_names(p).len() - 1 {
        assert(p[p.len() - 1] is Capture && p[p.len() - 1]->Capture_0 == capture_names(p)[k]);
    } else {
        lemma_capture_names_from_segments(p.drop_last(), k);
        let i = choose|i: int|
            #![trigger p.drop_last()[i]]
            0 <= i < p.drop_last().len() && p.drop_last()[i] is Capture
                && p.drop_last()[i]->Capture_0 == capture_names(p.drop_last())[k];
        assert(p[i] == p.drop_last()[i]);
    }
}

/// A duplicate among the capture names of a prefix is one of the whole.
proof fn lemma_dup_drop_last(p: Seq<SegmentModel>)
    requires
        p.len() > 0,
        has_dup_captures(p.drop_last()),
    ensures
        has_dup_captures(p),
{
    let q = p.drop_last();
    let (i, j) = choose|i: int, j: int|
        #![trigger q[i], q[j]]
        0 <= i < j < q.len() && q[i] is Capture && q[j] is Capture && q[i]->Capture_0
            == q[j]->Capture_0;
    assert(p[i] == q[i] && p[j] == q[j]);
    assert(p[i] is Capture && p[j] is Capture && p[i]->Capture_0 == p[j]->Capture_0);
}

/// Distinct positions of `capture_names` of a duplicate-free pattern carry
/// distinct names.
proof fn lemma_names_distinct(p: Seq<SegmentModel>, a: int, b: int)
    requires
        !has_dup_captures(p),
        0 <= a < b < capture_names(p).len(),
    ensures
        capture_names(p)[a] != capture_names(p)[b],
    decreases p.len(),
{
    if p.len() == 0 {
    } else {
        if has_dup_captures(p.drop_last()) {
            lemma_dup_drop_last(p);
        }
        if p.last() is Capture && b == capture_names(p).len() - 1 {
            assert(capture_names(p)[a] == capture_names(p.drop_last())[a]);
            lemma_capture_names_from_segments(p.drop_last(), a);
            let i = choose|i: int|
                #![trigger p.drop_last()[i]]
                0 <= i < p.drop_last().len() && p.drop_last()[i] is Capture
                    && p.drop_last()[i]->Capture_0 == capture_names(p.drop_last())[a];
            assert(p[i] == p.drop_last()[i]);
            if capture_names(p)[a] == capture_names(p)[b] {
                assert(p[i] is Capture && p[p.len() - 1] is Capture && p[i]->Capture_0 == p[p.len()
                    - 1]->Capture_0);
                assert(has_dup_captures(p));
            }
        } else {
            assert(capture_names(p)[a] == capture_names(p.drop_last())[a]);
            assert(capture_names(p)[b] == capture_names(p.drop_last())[b]);
            lemma_names_distinct(p.drop_last(), a, b);
        }
    }
}

/// The keys of a successful match are the pattern's capture names, in order.
proof fn lemma_match_keys(p: Seq<SegmentModel>, ts: Seq<Seq<char>>, cs: Seq<(Seq<char>, Seq<char>)>)
    requires
        spec_match(p, ts) == Some(cs),
    ensures
        cs.len() == capture_names(p).len(),
        forall|k: int| 0 <= k < cs.len() ==> (#[trigger] cs[k]).0 == capture_names(p)[k],
    decreases p.len(),
{
    if p.len() == 0 {
    } else {
        let cs0 = spec_match(p.drop_last(), ts.drop_last())->Some_0;
        lemma_match_keys(p.drop_last(), ts.drop_last(), cs0);
        if p.last() is Capture {
            assert(cs == cs0.push((p.last()->Capture_0, ts.last())));
        } else {
            assert(cs == cs0);
        }
    }
}

/// A pattern whose capture names are distinct extracts captures with
/// distinct keys.  Compilation only accepts such patterns, so a captures
/// map produced by matching a compiled pattern binds each name at most
/// once.
pub proof fn lemma_match_unique_keys(
    p: Seq<SegmentModel>,
    ts: Seq<Seq<char>>,
    cs: Seq<(Seq<char>, Seq<char>)>,
)
    requires
        !has_dup_captures(p),
        spec_match(p, ts) == Some(cs),
    ensures
        unique_keys(cs),
{
    lemma_match_keys(p, ts, cs);
    assert forall|i: int, j: int| 0 <= i < j < cs.len() implies cs[i].0 != cs[j].0 by {
        lemma_names_distinct(p, i, j);
    }
}

/// Once the walk has failed on some prefix, the whole match fails.
proof fn lemma_match_extend_none(p: Seq<SegmentModel>, ts: Seq<Seq<char>>, k: int)
    requires
        0 <= k <= p.len(),
        p.len() == ts.len(),
        spec_match(p.take(k), ts.take(k)) is None,
    ensures
        spec_match(p, ts) is None,
    decreases p.len() - k,
{
    if k == p.len() {
        assert(p.take(k) =~= p);
        assert(ts.take(k) =~= ts);
    } else {
        assert(p.take(k + 1).drop_last() =~= p.take(k));
        assert(ts.take(k + 1).drop_last() =~= ts.take(k));
        assert(spec_match(p.take(k + 1), ts.take(k + 1)) is None);
        lemma_match_extend_none(p, ts, k + 1);
    }
}

} // verus!
