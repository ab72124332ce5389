use vstd::prelude::*;

verus! {

/// `p` is a prefix of `s`.
pub open spec fn seq_starts_with(s: Seq<char>, p: Seq<char>) -> bool {
    p.len() <= s.len() && s.subrange(0, p.len() as int) == p
}

/// The base URLs resolution understands: plain HTTP or HTTPS.
pub open spec fn is_http_base(base: Seq<char>) -> bool {
    seq_starts_with(base, "http://"@) || seq_starts_with(base, "https://"@)
}

/// Length of the scheme prefix of an HTTP(S) base URL, `"://"` included.
pub open spec fn scheme_prefix_len(base: Seq<char>) -> int {
    if seq_starts_with(base, "http://"@) {
        7
    } else {
        8
    }
}

/// Index of the first `'/'` in `b` at position `from` or later, or `b.len()`
/// when there is none.
pub open spec fn first_slash_at(b: Seq<char>, from: int) -> int
    decreases b.len() - from,
{
    if from < 0 || from >= b.len() {
        b.len() as int
    } else if b[from] == '/' {
        from
    } else {
        first_slash_at(b, from + 1)
    }
}

/// Index of the last `'/'` in `b` strictly before position `upto`, or `-1`
/// when there is none.
pub open spec fn last_slash_before(b: Seq<char>, upto: int) -> int
    decreases upto,
{
    if upto <= 0 || upto > b.len() {
        -1
    } else if b[upto - 1] == '/' {
        upto - 1
    } else {
        last_slash_before(b, upto - 1)
    }
}

/// Index of the first `':'` or `'/'` in `b` at position `from` or later, or
/// `b.len()` when there is neither.
pub open spec fn first_colon_or_slash(b: Seq<char>, from: int) -> int
    decreases b.len() - from,
{
    if from < 0 || from >= b.len() {
        b.len() as int
    } else if b[from] == ':' || b[from] == '/' {
        from
    } else {
        first_colon_or_slash(b, from + 1)
    }
}

/// Whether the `href` carries a scheme of its own: a `':'` appears before any
/// `'/'`, after at least one character. Such a reference is not relative, so
/// resolution leaves it as it is.
pub open spec fn has_scheme(href: Seq<char>) -> bool {
    let j = first_colon_or_slash(href, 0);
    0 < j < href.len() && href[j] == ':'
}

/// How an extracted `href` is resolved against the source's base URL: an
/// `href` carrying its own scheme (`https://…`, `mailto:…`) stands as it is;
/// when the base is not an HTTP(S) URL nothing can be resolved and the `href`
/// also stands as it is; a scheme-relative `href` (`//host/...`) takes the
/// base's scheme; a root-relative `href` (`/path`) is appended to the base's
/// origin (scheme and authority); any other `href` replaces the last path
/// segment of the base, or is appended after a fresh `'/'` when the base has
/// no path.
pub open spec fn resolved_link(base: Seq<char>, href: Seq<char>) -> Seq<char> {
    if has_scheme(href) {
        href
    } else if !is_http_base(base) {
        href
    } else if seq_starts_with(href, "//"@) {
        base.subrange(0, scheme_prefix_len(base) - 2) + href
    } else if seq_starts_with(href, "/"@) {
        base.subrange(0, first_slash_at(base, scheme_prefix_len(base))) + href
    } else {
        let k = last_slash_before(base, base.len() as int);
        if k >= scheme_prefix_len(base) {
            base.subrange(0, k + 1) + href
        } else {
            base + "/"@ + href
        }
    }
}

/// `r == seq_starts_with(s@, p@)`, computed character by character.
pub fn str_starts_with(s: &str, p: &str) -> (r: bool)
    ensures
        r == seq_starts_with(s@, p@),
{
    let n = s.unicode_len();
    let m = p.unicode_len();
    if m > n {
        return false;
    }
    let mut i: usize = 0;
    while i < m
        invariant
            i <= m <= n,
            n == s@.len(),
            m == p@.len(),
            forall|k: int| 0 <= k < i ==> s@[k] == p@[k],
        decreases m - i,
    {
        if s.get_char(i) != p.get_char(i) {
            assert(!seq_starts_with(s@, p@)) by {
                if seq_starts_with(s@, p@) {
                    assert(s@.subrange(0, m as int)[i as int] == p@[i as int]);
                }
            }
            return false;
        }
        i += 1;
    }
    assert(s@.subrange(0, m as int) =~= p@);
    true
}

/// Index of the first `'/'` in `s` at position `from` or later, or `s@.len()`
/// when there is none.
fn find_first_slash(s: &str, from: usize) -> (r: usize)
    requires
        from <= s@.len(),
    ensures
        r == first_slash_at(s@, from as int),
        from <= r <= s@.len(),
{
    let n = s.unicode_len();
    let mut i: usize = from;
    while i < n
        invariant
            from <= i <= n,
            n == s@.len(),
            first_slash_at(s@, from as int) == first_slash_at(s@, i as int),
        decreases n - i,
    {
        if s.get_char(i) == '/' {
            return i;
        }
        i += 1;
    }
    n
}

/// Index of the last `'/'` in `s`, or `None` when `s` has none.
fn find_last_slash(s: &str) -> (r: Option<usize>)
    ensures
        match r {
            Some(k) => k == last_slash_before(s@, s@.len() as int) && k < s@.len() && k
                < usize::MAX,
            None => last_slash_before(s@, s@.len() as int) == -1,
        },
{
    let n = s.unicode_len();
    let mut j: usize = n;
    while j > 0
        invariant
            j <= n,
            n == s@.len(),
            last_slash_before(s@, n as int) == last_slash_before(s@, j as int),
        decreases j,
    {
        if s.get_char(j - 1) == '/' {
            return Some(j - 1);
        }
        j -= 1;
    }
    None
}

/// Whether `href@` carries a scheme of its own, computed character by
/// character.
fn str_has_scheme(href: &str) -> (r: bool)
    ensures
        r == has_scheme(href@),
{
    let n = href.unicode_len();
    let mut i: usize = 0;
    while i < n
        invariant
            i <= n,
            n == href@.len(),
            first_colon_or_slash(href@, 0) == first_colon_or_slash(href@, i as int),
        decreases n - i,
    {
        let c = href.get_char(i);
        if c == ':' {
            return i > 0;
        }
        if c == '/' {
            return false;
        }
        i += 1;
    }
    false
}

/// Resolve an extracted `href` against the source's base URL, following
/// `resolved_link` exactly.
pub fn resolve_link(base: &str, href: &str) -> (r: String)
    ensures
        r@ == resolved_link(base@, href@),
{
    if str_has_scheme(href) {
        return href.to_owned();
    }
    let base_is_http = str_starts_with(base, "http://");
    let base_is_https = str_starts_with(base, "https://");
    if !base_is_http && !base_is_https {
        return href.to_owned();
    }
    proof {
        reveal_strlit("http://");
        reveal_strlit("https://");
    }
    let plen: usize = if base_is_http {
        7
    } else {
        8
    };
    assert(plen == scheme_prefix_len(base@));
    assert(plen <= base@.len());
    if str_starts_with(href, "//") {
        let mut r = base.substring_char(0, plen - 2).to_owned();
        r.append(href);
        return r;
    }
    if str_starts_with(href, "/") {
        let cut = find_first_slash(base, plen);
        let mut r = base.substring_char(0, cut).to_owned();
        r.append(href);
        return r;
    }
    match find_last_slash(base) {
        Some(k) if k >= plen => {
            let mut r = base.substring_char(0, k + 1).to_owned();
            r.append(href);
            r
        },
        _ => {
            let mut r = base.to_owned();
            r.append("/");
            r.append(href);
            r
        },
    }
}

/// Resolution never erases a link: resolving a non-empty `href` against any
/// base yields a non-empty link.
pub proof fn lemma_resolved_link_nonempty(base: Seq<char>, href: Seq<char>)
    requires
        href.len() > 0,
    ensures
        resolved_link(base, href).len() > 0,
{
}

} // verus!
