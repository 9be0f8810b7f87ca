use vstd::prelude::*;

verus! {

/// Whether the pattern `p`, read from index `i`, matches the text `t`, read
/// from index `j`, in full. A `*` in the pattern stands for any run of
/// characters (the empty run included); every other character stands for
/// itself.
pub open spec fn glob_from(p: Seq<char>, t: Seq<char>, i: nat, j: nat) -> bool
    decreases p.len() - i, t.len() - j,
{
    if i >= p.len() {
        j >= t.len()
    } else if p[i as int] == '*' {
        glob_from(p, t, i + 1, j) || (j < t.len() && glob_from(p, t, i, j + 1))
    } else {
        j < t.len() && p[i as int] == t[j as int] && glob_from(p, t, i + 1, j + 1)
    }
}

/// Whether the pattern `p` matches the whole of `t`.
pub open spec fn glob_matches(p: Seq<char>, t: Seq<char>) -> bool {
    glob_from(p, t, 0, 0)
}

/// Whether some pattern of `ps` matches the whole of `t`.
pub open spec fn any_glob_matches(ps: Seq<Seq<char>>, t: Seq<char>) -> bool {
    exists|k: int| 0 <= k < ps.len() && #[trigger] glob_matches(ps[k], t)
}

/// The characters of `s`, one per element.
pub fn chars_of(s: &str) -> (r: Vec<char>)
    ensures
        r@ == s@,
{
    let n = s.unicode_len();
    let mut r: Vec<char> = Vec::new();
    let mut k: usize = 0;
    while k < n
        invariant
            n == s@.len(),
            k <= n,
            r@ == s@.subrange(0, k as int),
        decreases n - k,
    {
        r.push(s.get_char(k));
        k = k + 1;
    }
    assert(r@ =~= s@);
    r
}

/// Whether `a` and `b` hold the same characters.
pub fn same_text(a: &str, b: &str) -> (r: bool)
    ensures
        r == (a@ == b@),
{
    let x = chars_of(a);
    let y = chars_of(b);
    if x.len() != y.len() {
        return false;
    }
    let mut k: usize = 0;
    while k < x.len()
        invariant
            x@ == a@,
            y@ == b@,
            x.len() == y.len(),
            k <= x.len(),
            forall|m: int| 0 <= m < k ==> x@[m] == y@[m],
        decreases x.len() - k,
    {
        if x[k] != y[k] {
            return false;
        }
        k = k + 1;
    }
    assert(x@ =~= y@);
    true
}

fn glob_vec_from(p: &Vec<char>, t: &Vec<char>, i: usize, j: usize) -> (r: bool)
    requires
        i <= p.len(),
        j <= t.len(),
    ensures
        r == glob_from(p@, t@, i as nat, j as nat),
    decreases p.len() - i, t.len() - j,
{
    if i >= p.len() {
        j >= t.len()
    } else if p[i] == '*' {
        if glob_vec_from(p, t, i + 1, j) {
            true
        } else {
            j < t.len() && glob_vec_from(p, t, i, j + 1)
        }
    } else {
        j < t.len() && p[i] == t[j] && glob_vec_from(p, t, i + 1, j + 1)
    }
}

/// Whether `pattern` matches the whole of `candidate`, case-sensitively.
pub fn glob_match(pattern: &str, candidate: &str) -> (r: bool)
    ensures
        r == glob_matches(pattern@, candidate@),
{
    let p = chars_of(pattern);
    let t = chars_of(candidate);
    glob_vec_from(&p, &t, 0, 0)
}

/// An ordered set of glob patterns. An empty set matches nothing.
pub struct GlobPatternSet {
    pub patterns: Vec<String>,
}

impl View for GlobPatternSet {
    type V = Seq<Seq<char>>;

    open spec fn view(&self) -> Seq<Seq<char>> {
        self.patterns@.map_values(|s: String| s@)
    }
}

impl GlobPatternSet {
    pub fn new(patterns: Vec<String>) -> (r: GlobPatternSet)
        ensures
            r.patterns@ == patterns@,
    {
        GlobPatternSet { patterns }
    }

    pub fn is_empty(&self) -> (r: bool)
        ensures
            r == (self@.len() == 0),
    {
        self.patterns.len() == 0
    }

    /// Whether any pattern of the set matches `candidate` in full.
    pub fn is_match(&self, candidate: &str) -> (r: bool)
        ensures
            r == any_glob_matches(self@, candidate@),
    {
        let mut k: usize = 0;
        while k < self.patterns.len()
            invariant
                k <= self.patterns.len(),
                forall|m: int| 0 <= m < k ==> !glob_matches(#[trigger] self@[m], candidate@),
            decreases self.patterns.len() - k,
        {
            if glob_match(self.patterns[k].as_str(), candidate) {
                assert(glob_matches(self@[k as int], candidate@));
                return true;
            }
            k = k + 1;
        }
        false
    }
}

} // verus!
