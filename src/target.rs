use vstd::prelude::*;

use crate::credentials::{params_view, Param, Request};

verus! {

/// The index of the first `c` in `s`.
pub open spec fn first_index(s: Seq<char>, c: char) -> Option<int> {
    if exists|i: int| 0 <= i < s.len() && s[i] == c {
        Some(choose|i: int| 0 <= i < s.len() && s[i] == c && forall|j: int| 0 <= j < i ==> s[j] != c)
    } else {
        None
    }
}

/// The pieces of `s` between occurrences of `c`; one more piece than there
/// are separators.
pub open spec fn segments(s: Seq<char>, c: char) -> Seq<Seq<char>>
    decreases s.len(),
{
    if s.len() == 0 {
        seq![Seq::empty()]
    } else {
        let r = segments(s.drop_last(), c);
        if s.last() == c {
            r.push(Seq::empty())
        } else {
            r.update(r.len() - 1, r.last().push(s.last()))
        }
    }
}

/// A query parameter: the name before the first `=`, the value after it;
/// with no `=`, the whole piece is the name and the value is empty.
pub open spec fn pair_of(seg: Seq<char>) -> (Seq<char>, Seq<char>) {
    match first_index(seg, '=') {
        Some(i) => (seg.take(i), seg.skip(i + 1)),
        None => (seg, Seq::empty()),
    }
}

/// The parameters of the non-empty pieces, in order.
pub open spec fn params_of(segs: Seq<Seq<char>>) -> Seq<(Seq<char>, Seq<char>)>
    decreases segs.len(),
{
    if segs.len() == 0 {
        Seq::empty()
    } else {
        let r = params_of(segs.drop_last());
        if segs.last().len() == 0 {
            r
        } else {
            r.push(pair_of(segs.last()))
        }
    }
}

/// The parameters of a query string: its `&`-separated pieces.
pub open spec fn query_params(q: Seq<char>) -> Seq<(Seq<char>, Seq<char>)> {
    params_of(segments(q, '&'))
}

/// The path of a request target: what stands before the first `?`.
pub open spec fn target_path(t: Seq<char>) -> Seq<char> {
    match first_index(t, '?') {
        Some(i) => t.take(i),
        None => t,
    }
}

/// The query of a request target: what stands after the first `?`.
pub open spec fn target_query(t: Seq<char>) -> Seq<char> {
    match first_index(t, '?') {
        Some(i) => t.skip(i + 1),
        None => Seq::empty(),
    }
}

/// The index of the first `c` in `s`.
pub fn find_char(s: &str, c: char) -> (r: Option<usize>)
    ensures
        match r {
            Some(i) => first_index(s@, c) == Some(i as int) && i < s@.len(),
            None => first_index(s@, c) is None,
        },
{
    let n = s.unicode_len();
    let mut k: usize = 0;
    while k < n
        invariant
            n == s@.len(),
            k <= n,
            forall|j: int| 0 <= j < k ==> s@[j] != c,
        decreases n - k,
    {
        if s.get_char(k) == c {
            let ghost w = choose|i: int| 0 <= i < s@.len() && s@[i] == c && forall|j: int| 0 <= j < i ==> s@[j] != c;
            assert(s@[k as int] == c);
            assert(w == k as int) by {
                if w < k {
                } else if w > k {
                }
            }
            return Some(k);
        }
        k = k + 1;
    }
    None
}

fn piece(s: &str, from: usize, to: usize) -> (r: String)
    requires
        from <= to <= s@.len(),
    ensures
        r@ == s@.subrange(from as int, to as int),
{
    String::from_str(s.substring_char(from, to))
}

/// The pieces of `s` between occurrences of `c`.
pub fn split_on(s: &str, c: char) -> (r: Vec<String>)
    ensures
        r@.map_values(|p: String| p@) == segments(s@, c),
{
    let n = s.unicode_len();
    let mut out: Vec<String> = Vec::new();
    let mut start: usize = 0;
    let mut k: usize = 0;
    assert(s@.take(0) =~= Seq::<char>::empty());
    assert(out@.map_values(|p: String| p@).push(s@.subrange(0, 0)) =~= segments(s@.take(0), c));
    while k < n
        invariant
            n == s@.len(),
            start <= k <= n,
            out@.map_values(|p: String| p@).push(s@.subrange(start as int, k as int)) == segments(s@.take(k as int), c),
        decreases n - k,
    {
        let ghost before = out@.map_values(|p: String| p@);
        let ghost t = s@.take(k + 1);
        let ghost cur = s@.subrange(start as int, k as int);
        assert(t.drop_last() =~= s@.take(k as int));
        assert(t.last() == s@[k as int]);
        assert(segments(t.drop_last(), c) == before.push(cur));
        if s.get_char(k) == c {
            out.push(piece(s, start, k));
            assert(out@.map_values(|p: String| p@) =~= before.push(s@.subrange(start as int, k as int)));
            start = k + 1;
            assert(s@.subrange(start as int, k + 1) =~= Seq::<char>::empty());
            assert(out@.map_values(|p: String| p@).push(s@.subrange(start as int, k + 1)) =~= segments(s@.take(k + 1), c));
        } else {
            assert(cur.push(s@[k as int]) =~= s@.subrange(start as int, k + 1));
            assert(before.push(cur).update(before.len() as int, cur.push(s@[k as int])) =~= before.push(s@.subrange(start as int, k + 1)));
            assert(before.push(s@.subrange(start as int, k + 1)) =~= segments(s@.take(k + 1), c));
        }
        k = k + 1;
    }
    out.push(piece(s, start, n));
    assert(s@.take(n as int) =~= s@);
    assert(out@.map_values(|p: String| p@) =~= segments(s@, c));
    out
}

/// The parameter that one query piece holds.
pub fn parse_pair(seg: &str) -> (r: Param)
    ensures
        r@ == pair_of(seg@),
{
    let n = seg.unicode_len();
    match find_char(seg, '=') {
        Some(i) => {
            let name = piece(seg, 0, i);
            let value = piece(seg, i + 1, n);
            assert(seg@.subrange(0, i as int) =~= seg@.take(i as int));
            assert(seg@.subrange(i + 1, n as int) =~= seg@.skip(i + 1));
            Param { name, value }
        },
        None => {
            let name = piece(seg, 0, n);
            assert(seg@.subrange(0, n as int) =~= seg@);
            Param { name, value: String::new() }
        },
    }
}

/// The parameters of a query string, `&`-separated, empty pieces skipped.
pub fn parse_query(q: &str) -> (r: Vec<Param>)
    ensures
        params_view(r@) == query_params(q@),
{
    let segs = split_on(q, '&');
    let ghost sv = segs@.map_values(|p: String| p@);
    let mut out: Vec<Param> = Vec::new();
    let mut k: usize = 0;
    assert(sv.take(0) =~= Seq::<Seq<char>>::empty());
    while k < segs.len()
        invariant
            k <= segs.len(),
            sv == segs@.map_values(|p: String| p@),
            sv == segments(q@, '&'),
            params_view(out@) == params_of(sv.take(k as int)),
        decreases segs.len() - k,
    {
        assert(sv.take(k + 1).drop_last() =~= sv.take(k as int));
        assert(sv.take(k + 1).last() == segs@[k as int]@);
        let ghost before = params_view(out@);
        if segs[k].as_str().unicode_len() > 0 {
            out.push(parse_pair(segs[k].as_str()));
            assert(params_view(out@) =~= before.push(pair_of(segs@[k as int]@)));
        }
        k = k + 1;
    }
    assert(sv.take(k as int) =~= sv);
    out
}

/// The path and the query parameters of a request target.
pub fn split_target(target: &str) -> (r: (String, Vec<Param>))
    ensures
        r.0@ == target_path(target@),
        params_view(r.1@) == query_params(target_query(target@)),
{
    let n = target.unicode_len();
    match find_char(target, '?') {
        Some(i) => {
            let path = piece(target, 0, i);
            let query = target.substring_char(i + 1, n);
            assert(target@.subrange(0, i as int) =~= target@.take(i as int));
            assert(target@.subrange(i + 1, n as int) =~= target@.skip(i + 1));
            (path, parse_query(query))
        },
        None => {
            let path = piece(target, 0, n);
            assert(target@.subrange(0, n as int) =~= target@);
            proof {
                assert(segments(Seq::<char>::empty(), '&') == seq![Seq::<char>::empty()]);
                let segs = seq![Seq::<char>::empty()];
                assert(segs.drop_last() =~= Seq::<Seq<char>>::empty());
                assert(params_of(segs) == params_of(Seq::<Seq<char>>::empty()));
            }
            (path, Vec::new())
        },
    }
}

/// The request that a method, a request target (path and query), an
/// authority and the headers describe.
pub fn request_from_target(method: String, target: &str, authority: String, headers: Vec<Param>) -> (r: Request)
    ensures
        r.method@ == method@,
        r.path@ == target_path(target@),
        params_view(r.query@) == query_params(target_query(target@)),
        r.authority@ == authority@,
        r.headers@ == headers@,
{
    let (path, query) = split_target(target);
    Request { method, path, authority, headers, query }
}

} // verus!
