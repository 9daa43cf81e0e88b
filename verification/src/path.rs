//! Repository paths and the object keys they map to.
//!
//! A repository relative path is mapped to a key by removing every leading
//! and trailing `/` and, where the client has a key prefix, putting the prefix
//! and a `/` in front of it.
use vstd::prelude::*;

verus! {

broadcast use vstd::string::group_string_axioms;

/// `s` without the `/` characters it begins with.
pub open spec fn strip_leading_slashes(s: Seq<char>) -> Seq<char>
    decreases s.len(),
{
    if s.len() > 0 && s[0] == '/' {
        strip_leading_slashes(s.drop_first())
    } else {
        s
    }
}

/// `s` without the `/` characters it ends with.
pub open spec fn strip_trailing_slashes(s: Seq<char>) -> Seq<char>
    decreases s.len(),
{
    if s.len() > 0 && s.last() == '/' {
        strip_trailing_slashes(s.drop_last())
    } else {
        s
    }
}

/// `s` with every leading and every trailing `/` removed.
pub open spec fn trim_slashes(s: Seq<char>) -> Seq<char> {
    strip_trailing_slashes(strip_leading_slashes(s))
}

/// Every character of `s` in `[from, to)` is a `/`.
pub open spec fn all_slashes(s: Seq<char>, from: int, to: int) -> bool {
    forall|k: int| from <= k < to ==> s[k] == '/'
}

/// Neither the first nor the last character of `s` is a `/`.
pub open spec fn slash_free_ends(s: Seq<char>) -> bool {
    s.len() > 0 ==> (s[0] != '/' && s.last() != '/')
}

/// The key of a repository relative path under an optional key prefix.
pub open spec fn key_for_path(prefix: Option<Seq<char>>, path: Seq<char>) -> Seq<char> {
    match prefix {
        Some(p) => p + seq!['/'] + trim_slashes(path),
        None => trim_slashes(path),
    }
}

/// An optional string, taken by its view.
pub open spec fn opt_view(o: Option<String>) -> Option<Seq<char>> {
    match o {
        Some(s) => Some(s@),
        None => None,
    }
}

/// An optional string slice, taken by its view.
pub open spec fn opt_str_view(o: Option<&str>) -> Option<Seq<char>> {
    match o {
        Some(s) => Some(s@),
        None => None,
    }
}

/// The trimmed form of an optional key prefix, as the clients store it.
pub open spec fn trimmed_prefix(o: Option<Seq<char>>) -> Option<Seq<char>> {
    match o {
        Some(p) => Some(trim_slashes(p)),
        None => None,
    }
}

/// Where the leading slashes end, stripping them leaves the rest.
proof fn lemma_strip_leading_at(s: Seq<char>, i: int)
    requires
        0 <= i <= s.len(),
        all_slashes(s, 0, i),
        i == s.len() || s[i] != '/',
    ensures
        strip_leading_slashes(s) == s.subrange(i, s.len() as int),
    decreases i,
{
    if i == 0 {
        if s.len() > 0 {
            assert(s[0] != '/');
        }
        assert(s.subrange(0, s.len() as int) =~= s);
    } else {
        let t = s.drop_first();
        assert(all_slashes(t, 0, i - 1)) by {
            assert forall|k: int| 0 <= k < i - 1 implies t[k] == '/' by {
                assert(t[k] == s[k + 1]);
            }
        }
        if i < s.len() {
            assert(t[i - 1] == s[i]);
        }
        lemma_strip_leading_at(t, i - 1);
        assert(t.subrange(i - 1, t.len() as int) =~= s.subrange(i, s.len() as int));
    }
}

/// Where the trailing slashes begin, stripping them leaves what comes before.
proof fn lemma_strip_trailing_at(s: Seq<char>, j: int)
    requires
        0 <= j <= s.len(),
        all_slashes(s, j, s.len() as int),
        j == 0 || s[j - 1] != '/',
    ensures
        strip_trailing_slashes(s) == s.subrange(0, j),
    decreases s.len() - j,
{
    if j == s.len() {
        if s.len() > 0 {
            assert(s.last() == s[j - 1]);
        }
        assert(s.subrange(0, j) =~= s);
    } else {
        let t = s.drop_last();
        assert(s.last() == s[s.len() - 1]);
        assert(all_slashes(t, j, t.len() as int)) by {
            assert forall|k: int| j <= k < t.len() implies t[k] == '/' by {
                assert(t[k] == s[k]);
            }
        }
        if j > 0 {
            assert(t[j - 1] == s[j - 1]);
        }
        lemma_strip_trailing_at(t, j);
        assert(t.subrange(0, j) =~= s.subrange(0, j));
    }
}

/// The leading slashes that are stripped, and what is left.
proof fn lemma_strip_leading_shape(s: Seq<char>)
    ensures
        strip_leading_slashes(s).len() <= s.len(),
        strip_leading_slashes(s) == s.subrange(
            s.len() - strip_leading_slashes(s).len(),
            s.len() as int,
        ),
        all_slashes(s, 0, s.len() - strip_leading_slashes(s).len()),
        strip_leading_slashes(s).len() > 0 ==> strip_leading_slashes(s)[0] != '/',
    decreases s.len(),
{
    if s.len() > 0 && s[0] == '/' {
        let t = s.drop_first();
        lemma_strip_leading_shape(t);
        let u = strip_leading_slashes(t);
        assert(t.subrange(t.len() - u.len(), t.len() as int) =~= s.subrange(
            s.len() - u.len(),
            s.len() as int,
        ));
        assert forall|k: int| 0 <= k < s.len() - u.len() implies s[k] == '/' by {
            if k > 0 {
                assert(s[k] == t[k - 1]);
            }
        }
    } else {
        assert(s.subrange(0, s.len() as int) =~= s);
    }
}

/// The trailing slashes that are stripped, and what is left.
proof fn lemma_strip_trailing_shape(s: Seq<char>)
    ensures
        strip_trailing_slashes(s).len() <= s.len(),
        strip_trailing_slashes(s) == s.subrange(0, strip_trailing_slashes(s).len() as int),
        all_slashes(s, strip_trailing_slashes(s).len() as int, s.len() as int),
        strip_trailing_slashes(s).len() > 0 ==> strip_trailing_slashes(s).last() != '/',
    decreases s.len(),
{
    if s.len() > 0 && s.last() == '/' {
        let t = s.drop_last();
        lemma_strip_trailing_shape(t);
        let u = strip_trailing_slashes(t);
        assert(t.subrange(0, u.len() as int) =~= s.subrange(0, u.len() as int));
        assert forall|k: int| u.len() <= k < s.len() implies s[k] == '/' by {
            if k < s.len() - 1 {
                assert(s[k] == t[k]);
            }
        }
    } else {
        assert(s.subrange(0, s.len() as int) =~= s);
    }
}

/// Trimming removes a run of `/` at the start and a run of `/` at the end, and
/// nothing else: the result is a contiguous part of `s`, everything before it
/// and everything after it is `/`, and it neither begins nor ends with a `/`.
pub proof fn lemma_trim_shape(s: Seq<char>)
    ensures
        exists|i: int, j: int|
            0 <= i <= j <= s.len() && #[trigger] s.subrange(i, j) == trim_slashes(s) && all_slashes(
                s,
                0,
                i,
            ) && all_slashes(s, j, s.len() as int),
        slash_free_ends(trim_slashes(s)),
{
    lemma_strip_leading_shape(s);
    let u = strip_leading_slashes(s);
    lemma_strip_trailing_shape(u);
    let t = strip_trailing_slashes(u);
    let i = s.len() - u.len();
    let j = i + t.len();
    assert(s.subrange(i, j) =~= t);
    assert forall|k: int| j <= k < s.len() implies s[k] == '/' by {
        assert(s[k] == u[k - i]);
    }
    if t.len() > 0 {
        assert(t[0] == u[0]);
    }
    assert(s.subrange(i, j) == trim_slashes(s) && all_slashes(s, 0, i) && all_slashes(
        s,
        j,
        s.len() as int,
    ));
}

/// The trimmed form of a string neither begins nor ends with a `/`.
pub proof fn lemma_trim_ends(s: Seq<char>)
    ensures
        slash_free_ends(trim_slashes(s)),
{
    lemma_trim_shape(s);
}

/// Under a prefix that is non-empty and neither begins nor ends with `/` (or
/// under none), a path that is not made of `/` alone has a key that neither
/// begins nor ends with `/`.
pub proof fn lemma_key_ends(prefix: Option<Seq<char>>, path: Seq<char>)
    requires
        prefix matches Some(p) ==> p.len() > 0 && slash_free_ends(p),
        trim_slashes(path).len() > 0,
    ensures
        slash_free_ends(key_for_path(prefix, path)),
{
    lemma_trim_ends(path);
    if let Some(p) = prefix {
        let t = trim_slashes(path);
        let k = p + seq!['/'] + t;
        assert(k[0] == p[0]);
        assert(k.last() == t.last());
    }
}

/// Trimming a string that neither begins nor ends with `/` leaves it as it is.
pub proof fn lemma_trim_slash_free(s: Seq<char>)
    requires
        slash_free_ends(s),
    ensures
        trim_slashes(s) == s,
{
    lemma_strip_leading_at(s, 0);
    assert(s.subrange(0, s.len() as int) =~= s);
    if s.len() > 0 {
        assert(s.last() == s[s.len() - 1]);
    }
    lemma_strip_trailing_at(s, s.len() as int);
}

/// Trimming twice gives what trimming once gives.
pub proof fn lemma_trim_idempotent(s: Seq<char>)
    ensures
        trim_slashes(trim_slashes(s)) == trim_slashes(s),
{
    lemma_trim_shape(s);
    lemma_trim_slash_free(trim_slashes(s));
}

/// A `/` put before or after a path changes nothing in its trimmed form.
pub proof fn lemma_trim_ignores_outer_slash(s: Seq<char>)
    ensures
        trim_slashes(seq!['/'] + s) == trim_slashes(s),
        trim_slashes(s + seq!['/']) == trim_slashes(s),
{
    let a = seq!['/'] + s;
    assert(a.len() > 0 && a[0] == '/');
    assert(a.drop_first() =~= s);
    let b = s + seq!['/'];
    lemma_strip_leading_shape(s);
    let u = strip_leading_slashes(s);
    let i = s.len() - u.len();
    // `b` loses the same leading slashes as `s`, unless `s` is all slashes.
    if u.len() > 0 {
        assert(b[i] == s[i]);
        assert forall|k: int| 0 <= k < i implies b[k] == '/' by {
            assert(b[k] == s[k]);
        }
        lemma_strip_leading_at(b, i);
        assert(b.subrange(i, b.len() as int) =~= u + seq!['/']);
        let w = u + seq!['/'];
        assert(w.len() > 0 && w.last() == '/');
        assert(w.drop_last() =~= u);
    } else {
        assert forall|k: int| 0 <= k < b.len() implies b[k] == '/' by {
            if k < s.len() {
                assert(b[k] == s[k]);
            }
        }
        lemma_strip_leading_at(b, b.len() as int);
        assert(b.subrange(b.len() as int, b.len() as int) =~= Seq::<char>::empty());
        assert(u =~= Seq::<char>::empty());
        assert(strip_trailing_slashes(Seq::<char>::empty()) == Seq::<char>::empty());
    }
}

/// The characters of `s`, in order.
fn chars_of(s: &str) -> (v: Vec<char>)
    ensures
        v@ == s@,
{
    let mut v: Vec<char> = Vec::new();
    let mut it = s.chars();
    loop
        invariant
            v@ + vstd::std_specs::iter::IteratorSpec::remaining(&it) == s@,
            vstd::std_specs::iter::IteratorSpec::obeys_prophetic_iter_laws(&it),
            vstd::std_specs::iter::IteratorSpec::decrease(&it) is Some,
        ensures
            v@ == s@,
        decreases vstd::std_specs::iter::IteratorSpec::decrease(&it)->0,
    {
        match it.next() {
            Some(c) => {
                v.push(c);
            },
            None => {
                break ;
            },
        }
    }
    v
}

/// `s` with every leading and trailing `/` removed (what `str::trim_matches('/')`
/// gives).
pub fn trim_slashes_str(s: &str) -> (r: String)
    ensures
        r@ == trim_slashes(s@),
{
    let v = chars_of(s);
    let n = v.len();
    let mut start: usize = 0;
    while start < n && v[start] == '/'
        invariant
            n == v@.len(),
            v@ == s@,
            start <= n,
            all_slashes(s@, 0, start as int),
        decreases n - start,
    {
        start = start + 1;
    }
    let mut end: usize = n;
    while end > start && v[end - 1] == '/'
        invariant
            n == v@.len(),
            v@ == s@,
            start <= end <= n,
            all_slashes(s@, end as int, n as int),
        decreases end,
    {
        end = end - 1;
    }
    proof {
        lemma_strip_leading_at(s@, start as int);
        let u = s@.subrange(start as int, n as int);
        assert(all_slashes(u, end - start, u.len() as int)) by {
            assert forall|k: int| end - start <= k < u.len() implies u[k] == '/' by {
                assert(u[k] == s@[k + start]);
            }
        }
        if end > start {
            assert(u[end - start - 1] == s@[end - 1]);
        }
        lemma_strip_trailing_at(u, end - start);
        assert(u.subrange(0, end - start) =~= s@.subrange(start as int, end as int));
    }
    let part = s.substring_char(start, end);
    String::from_str(part)
}

/// The key of `path` under an optional key prefix: the prefix, a `/` and the
/// trimmed path; or the trimmed path alone where there is no prefix.
pub fn object_key(prefix: Option<&str>, path: &str) -> (r: String)
    ensures
        r@ == key_for_path(opt_str_view(prefix), path@),
{
    let trimmed = trim_slashes_str(path);
    match prefix {
        Some(p) => {
            let mut key = String::from_str(p);
            key.append("/");
            key.append(trimmed.as_str());
            proof {
                reveal_strlit("/");
            }
            key
        },
        None => trimmed,
    }
}

} // verus!
