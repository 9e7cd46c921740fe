use vstd::prelude::*;

verus! {

/// The serialization of `input` parsed as an absolute URL, or `None` where
/// it is not one.
pub uninterp spec fn parsed_url(input: Seq<char>) -> Option<Seq<char>>;

/// Relies on `url::Url::parse`: it accepts `input` as an absolute URL or
/// refuses it, from the text alone, and the accepted URL is handed back in
/// its serialized form.
#[verifier::external_body]
fn parse_url(input: &str) -> (r: Option<String>)
    ensures
        opt_chars(r) == parsed_url(input@),
{
    match url::Url::parse(input) {
        Ok(u) => Some(String::from(u)),
        Err(_) => None,
    }
}

/// The characters of an optional string.
pub open spec fn opt_chars(o: Option<String>) -> Option<Seq<char>> {
    match o {
        Some(s) => Some(s@),
        None => None,
    }
}

/// Whether `s` ends with the characters of `suffix`.
pub open spec fn has_suffix(s: Seq<char>, suffix: Seq<char>) -> bool {
    suffix.len() <= s.len() && s.subrange(s.len() - suffix.len(), s.len() as int) == suffix
}

/// Text that reads as a bare domain name under one of the common
/// top-level domains.
pub open spec fn looks_like_domain(s: Seq<char>) -> bool {
    has_suffix(s, ".com"@) || has_suffix(s, ".org"@) || has_suffix(s, ".net"@)
}

/// The search page that a query which is no address is sent to.
pub open spec fn search_url_spec(query: Seq<char>) -> Seq<char> {
    "https://duckduckgo.com/html/?q="@ + query
}

/// The first of three candidates that is there.
pub open spec fn first_present(
    a: Option<Seq<char>>,
    b: Option<Seq<char>>,
    c: Option<Seq<char>>,
) -> Option<Seq<char>> {
    if a is Some {
        a
    } else if b is Some {
        b
    } else {
        c
    }
}

/// Where a request typed in the address bar leads: the request itself where
/// it is an absolute URL; else, for a bare domain, the same with `http://`
/// in front; else a search for it. `None` where not even the search page
/// parses.
pub open spec fn resolved_location(request: Seq<char>) -> Option<Seq<char>> {
    first_present(
        parsed_url(request),
        if looks_like_domain(request) {
            parsed_url("http://"@ + request)
        } else {
            None
        },
        parsed_url(search_url_spec(request)),
    )
}

/// Whether the characters of `s` end with those of `suffix`.
pub fn ends_with(s: &str, suffix: &str) -> (r: bool)
    ensures
        r == has_suffix(s@, suffix@),
{
    let n = s.unicode_len();
    let m = suffix.unicode_len();
    if m > n {
        return false;
    }
    let start: usize = n - m;
    let mut i: usize = 0;
    while i < m
        invariant
            n == s@.len(),
            m == suffix@.len(),
            start == n - m,
            i <= m,
            forall|j: int| 0 <= j < i ==> s@[start + j] == suffix@[j],
        decreases m - i,
    {
        if s.get_char(start + i) != suffix.get_char(i) {
            assert(s@.subrange(start as int, n as int)[i as int] != suffix@[i as int]);
            return false;
        }
        i = i + 1;
    }
    assert(s@.subrange(start as int, n as int) =~= suffix@);
    true
}

/// Whether `request` reads as a bare domain such as `example.com`.
pub fn is_bare_domain(request: &str) -> (r: bool)
    ensures
        r == looks_like_domain(request@),
{
    ends_with(request, ".com") || ends_with(request, ".org") || ends_with(request, ".net")
}

/// `request` with `http://` in front.
pub fn with_http_scheme(request: &str) -> (r: String)
    ensures
        r@ == "http://"@ + request@,
{
    String::from_str("http://").concat(request)
}

/// The search page for `query`.
pub fn search_url(query: &str) -> (r: String)
    ensures
        r@ == search_url_spec(query@),
{
    String::from_str("https://duckduckgo.com/html/?q=").concat(query)
}

/// Chooses among the parsed candidates for a typed request: the request
/// as it stands, then the request with a scheme, then the search.
pub fn pick_location(
    direct: Option<String>,
    with_scheme: Option<String>,
    searched: Option<String>,
) -> (r: Option<String>)
    ensures
        opt_chars(r) == first_present(opt_chars(direct), opt_chars(with_scheme), opt_chars(searched)),
{
    match direct {
        Some(url) => Some(url),
        None => match with_scheme {
            Some(url) => Some(url),
            None => searched,
        },
    }
}

/// Resolves what was typed in the address bar to the URL to load.
pub fn resolve_location(request: &str) -> (r: Option<String>)
    ensures
        opt_chars(r) == resolved_location(request@),
{
    let direct = parse_url(request);
    let with_scheme = if is_bare_domain(request) {
        let candidate = with_http_scheme(request);
        parse_url(candidate.as_str())
    } else {
        None
    };
    let search = search_url(request);
    let searched = parse_url(search.as_str());
    pick_location(direct, with_scheme, searched)
}

} // verus!
