//! The target endpoint grammar: schemes, authorities, paths-and-queries,
//! and the decomposition of a base URI string into its components.
//!
//! A base URI is accepted exactly when it has the shape
//! `scheme "://" authority path-and-query`, where the scheme is a letter
//! followed by letters, digits, `+`, `-` or `.`, the authority is a
//! non-empty run of host characters ended by the first `/`, `?` or `#`
//! (or the end of the string), and the remainder is either empty or an
//! absolute path with an optional query.

use vstd::prelude::*;

verus! {

/// Why a base URI string was rejected: no scheme separator at all, a
/// scheme without an authority behind it (or an empty authority), or a
/// component with characters outside its grammar.
#[derive(Clone, Copy, Debug, PartialEq, Eq, Structural)]
pub enum UriError {
    SchemeMissing,
    AuthorityMissing,
    Malformed,
}

pub open spec fn is_alpha_char(c: char) -> bool {
    ('a' <= c && c <= 'z') || ('A' <= c && c <= 'Z')
}

pub open spec fn is_digit_char(c: char) -> bool {
    '0' <= c && c <= '9'
}

/// Characters allowed in a scheme after its leading letter.
pub open spec fn is_scheme_char(c: char) -> bool {
    is_alpha_char(c) || is_digit_char(c) || c == '+' || c == '-' || c == '.'
}

/// A scheme is a letter followed by scheme characters.
pub open spec fn is_valid_scheme(s: Seq<char>) -> bool {
    &&& s.len() > 0
    &&& is_alpha_char(s[0])
    &&& forall|i: int| 0 <= i < s.len() ==> is_scheme_char(#[trigger] s[i])
}

/// Characters allowed in an authority: unreserved characters and
/// sub-delimiters, plus `:` (port, userinfo), `@` (userinfo), `[`/`]`
/// (literal addresses) and `%` (escapes). `/`, `?` and `#` end the
/// authority and are excluded.
pub open spec fn is_authority_char(c: char) -> bool {
    ||| is_alpha_char(c)
    ||| is_digit_char(c)
    ||| c == '-' || c == '.' || c == '_' || c == '~'
    ||| c == '!' || c == '$' || c == '&' || c == '\'' || c == '(' || c == ')'
    ||| c == '*' || c == '+' || c == ',' || c == ';' || c == '='
    ||| c == ':' || c == '@' || c == '[' || c == ']' || c == '%'
}

pub open spec fn is_valid_authority(s: Seq<char>) -> bool {
    &&& s.len() > 0
    &&& forall|i: int| 0 <= i < s.len() ==> is_authority_char(#[trigger] s[i])
}

/// Characters allowed in a path-and-query: path characters plus `/` and
/// `?`. `#` would start a fragment and is excluded.
pub open spec fn is_pq_char(c: char) -> bool {
    ||| is_alpha_char(c)
    ||| is_digit_char(c)
    ||| c == '-' || c == '.' || c == '_' || c == '~'
    ||| c == '!' || c == '$' || c == '&' || c == '\'' || c == '(' || c == ')'
    ||| c == '*' || c == '+' || c == ',' || c == ';' || c == '='
    ||| c == ':' || c == '@' || c == '%' || c == '/' || c == '?'
}

/// A path-and-query is empty or an absolute path (with optional query):
/// it starts with `/` and holds only path-and-query characters.
pub open spec fn is_valid_path_and_query(s: Seq<char>) -> bool {
    ||| s.len() == 0
    ||| (s[0] == '/' && forall|i: int| 0 <= i < s.len() ==> is_pq_char(#[trigger] s[i]))
}

/// The position of the first `:` at or after `i`, if any.
pub open spec fn spec_find_colon(s: Seq<char>, i: int) -> Option<int>
    decreases s.len() - i,
{
    if i < 0 || i >= s.len() {
        None
    } else if s[i] == ':' {
        Some(i)
    } else {
        spec_find_colon(s, i + 1)
    }
}

/// The position of the first `/`, `?` or `#` at or after `i`, or the
/// length of `s` if there is none: where an authority starting at `i`
/// ends.
pub open spec fn spec_authority_end(s: Seq<char>, i: int) -> int
    decreases s.len() - i,
{
    if i < 0 || i >= s.len() {
        s.len() as int
    } else if s[i] == '/' || s[i] == '?' || s[i] == '#' {
        i
    } else {
        spec_authority_end(s, i + 1)
    }
}

/// The components of a well-formed base URI.
#[verifier::ext_equal]
pub struct UriPartsView {
    pub scheme: Seq<char>,
    pub authority: Seq<char>,
    pub path_and_query: Seq<char>,
}

/// What parsing a base URI string yields: its three components, or the
/// error that classifies the rejection.
pub open spec fn spec_parse_base(s: Seq<char>) -> Result<UriPartsView, UriError> {
    match spec_find_colon(s, 0) {
        None => Err(UriError::SchemeMissing),
        Some(p) => {
            let scheme = s.subrange(0, p);
            if !is_valid_scheme(scheme) {
                Err(UriError::Malformed)
            } else if !(p + 2 < s.len() && s[p + 1] == '/' && s[p + 2] == '/') {
                Err(UriError::AuthorityMissing)
            } else {
                let ae = spec_authority_end(s, p + 3);
                let authority = s.subrange(p + 3, ae);
                let path_and_query = s.subrange(ae, s.len() as int);
                if authority.len() == 0 {
                    Err(UriError::AuthorityMissing)
                } else if !is_valid_authority(authority) {
                    Err(UriError::Malformed)
                } else if !is_valid_path_and_query(path_and_query) {
                    Err(UriError::Malformed)
                } else {
                    Ok(UriPartsView { scheme, authority, path_and_query })
                }
            }
        },
    }
}

/// An absolute URI assembled from a scheme, an authority and a
/// path-and-query, unchanged and in that order.
pub open spec fn spec_compose(scheme: Seq<char>, authority: Seq<char>, pq: Seq<char>) -> Seq<char> {
    scheme + "://"@ + authority + pq
}

/// The components of a base URI, as executable values.
#[derive(Debug)]
pub struct UriParts {
    pub scheme: String,
    pub authority: String,
    pub path_and_query: String,
}

impl View for UriParts {
    type V = UriPartsView;

    open spec fn view(&self) -> UriPartsView {
        UriPartsView {
            scheme: self.scheme@,
            authority: self.authority@,
            path_and_query: self.path_and_query@,
        }
    }
}

fn find_colon(s: &str, from: usize) -> (r: Option<usize>)
    requires
        from <= s@.len(),
    ensures
        match r {
            Some(p) => from <= p < s@.len() && spec_find_colon(s@, from as int) == Some(p as int),
            None => spec_find_colon(s@, from as int) is None,
        },
{
    let n = s.unicode_len();
    let mut i = from;
    while i < n
        invariant
            from <= i <= n,
            n == s@.len(),
            spec_find_colon(s@, from as int) == spec_find_colon(s@, i as int),
        decreases n - i,
    {
        if s.get_char(i) == ':' {
            return Some(i);
        }
        i += 1;
    }
    None
}

fn authority_end(s: &str, from: usize) -> (r: usize)
    requires
        from <= s@.len(),
    ensures
        r == spec_authority_end(s@, from as int),
{
    let n = s.unicode_len();
    let mut i = from;
    while i < n
        invariant
            from <= i <= n,
            n == s@.len(),
            spec_authority_end(s@, from as int) == spec_authority_end(s@, i as int),
        decreases n - i,
    {
        let c = s.get_char(i);
        if c == '/' || c == '?' || c == '#' {
            return i;
        }
        i += 1;
    }
    n
}

fn scheme_char(c: char) -> (b: bool)
    ensures
        b == is_scheme_char(c),
{
    ('a' <= c && c <= 'z') || ('A' <= c && c <= 'Z') || ('0' <= c && c <= '9') || c == '+'
        || c == '-' || c == '.'
}

fn authority_char(c: char) -> (b: bool)
    ensures
        b == is_authority_char(c),
{
    ('a' <= c && c <= 'z') || ('A' <= c && c <= 'Z') || ('0' <= c && c <= '9') || c == '-'
        || c == '.' || c == '_' || c == '~' || c == '!' || c == '$' || c == '&' || c == '\''
        || c == '(' || c == ')' || c == '*' || c == '+' || c == ',' || c == ';' || c == '='
        || c == ':' || c == '@' || c == '[' || c == ']' || c == '%'
}

fn pq_char(c: char) -> (b: bool)
    ensures
        b == is_pq_char(c),
{
    ('a' <= c && c <= 'z') || ('A' <= c && c <= 'Z') || ('0' <= c && c <= '9') || c == '-'
        || c == '.' || c == '_' || c == '~' || c == '!' || c == '$' || c == '&' || c == '\''
        || c == '(' || c == ')' || c == '*' || c == '+' || c == ',' || c == ';' || c == '='
        || c == ':' || c == '@' || c == '%' || c == '/' || c == '?'
}

/// Whether `s` is a well-formed scheme.
pub fn check_scheme(s: &str) -> (b: bool)
    ensures
        b == is_valid_scheme(s@),
{
    let n = s.unicode_len();
    if n == 0 {
        return false;
    }
    let c0 = s.get_char(0);
    if !(('a' <= c0 && c0 <= 'z') || ('A' <= c0 && c0 <= 'Z')) {
        return false;
    }
    let mut i: usize = 0;
    while i < n
        invariant
            0 <= i <= n,
            n == s@.len(),
            forall|j: int| 0 <= j < i ==> is_scheme_char(#[trigger] s@[j]),
        decreases n - i,
    {
        if !scheme_char(s.get_char(i)) {
            return false;
        }
        i += 1;
    }
    true
}

/// Whether `s` is a well-formed authority.
pub fn check_authority(s: &str) -> (b: bool)
    ensures
        b == is_valid_authority(s@),
{
    let n = s.unicode_len();
    if n == 0 {
        return false;
    }
    let mut i: usize = 0;
    while i < n
        invariant
            0 <= i <= n,
            n == s@.len(),
            forall|j: int| 0 <= j < i ==> is_authority_char(#[trigger] s@[j]),
        decreases n - i,
    {
        if !authority_char(s.get_char(i)) {
            return false;
        }
        i += 1;
    }
    true
}

/// Whether `s` is a well-formed path-and-query.
pub fn check_path_and_query(s: &str) -> (b: bool)
    ensures
        b == is_valid_path_and_query(s@),
{
    let n = s.unicode_len();
    if n == 0 {
        return true;
    }
    if s.get_char(0) != '/' {
        return false;
    }
    let mut i: usize = 0;
    while i < n
        invariant
            0 <= i <= n,
            n == s@.len(),
            s@[0] == '/',
            forall|j: int| 0 <= j < i ==> is_pq_char(#[trigger] s@[j]),
        decreases n - i,
    {
        if !pq_char(s.get_char(i)) {
            return false;
        }
        i += 1;
    }
    true
}

/// Splits a base URI string into scheme, authority and path-and-query,
/// or says why it has no such decomposition.
pub fn parse_base_uri(s: &str) -> (r: Result<UriParts, UriError>)
    ensures
        match r {
            Ok(parts) => spec_parse_base(s@) == Ok::<UriPartsView, UriError>(parts@),
            Err(e) => spec_parse_base(s@) == Err::<UriPartsView, UriError>(e),
        },
{
    let n = s.unicode_len();
    let p = match find_colon(s, 0) {
        Some(p) => p,
        None => {
            return Err(UriError::SchemeMissing);
        },
    };
    let scheme_str = s.substring_char(0, p);
    if !check_scheme(scheme_str) {
        return Err(UriError::Malformed);
    }
    if !(n - p > 2 && s.get_char(p + 1) == '/' && s.get_char(p + 2) == '/') {
        return Err(UriError::AuthorityMissing);
    }
    let ae = authority_end(s, p + 3);
    proof {
        lemma_authority_end_range(s@, p + 3);
    }
    let authority_str = s.substring_char(p + 3, ae);
    let pq_str = s.substring_char(ae, n);
    if authority_str.unicode_len() == 0 {
        return Err(UriError::AuthorityMissing);
    }
    if !check_authority(authority_str) {
        return Err(UriError::Malformed);
    }
    if !check_path_and_query(pq_str) {
        return Err(UriError::Malformed);
    }
    Ok(UriParts {
        scheme: scheme_str.to_owned(),
        authority: authority_str.to_owned(),
        path_and_query: pq_str.to_owned(),
    })
}

/// The first `:` of a string that holds one at `k` and none before it
/// stands at `k`.
pub proof fn lemma_find_colon_at(s: Seq<char>, from: int, k: int)
    requires
        0 <= from <= k < s.len(),
        s[k] == ':',
        forall|j: int| from <= j < k ==> s[j] != ':',
    ensures
        spec_find_colon(s, from) == Some(k),
    decreases k - from,
{
    if from < k {
        lemma_find_colon_at(s, from + 1, k);
    }
}

/// An authority that runs up to the first `/`, `?` or `#` (or to the
/// end of the string) ends exactly there.
pub proof fn lemma_authority_end_at(s: Seq<char>, from: int, k: int)
    requires
        0 <= from <= k <= s.len(),
        k < s.len() ==> (s[k] == '/' || s[k] == '?' || s[k] == '#'),
        forall|j: int| from <= j < k ==> !(s[j] == '/' || s[j] == '?' || s[j] == '#'),
    ensures
        spec_authority_end(s, from) == k,
    decreases k - from,
{
    if from < k {
        lemma_authority_end_at(s, from + 1, k);
    }
}

/// The end of an authority lies between its start and the end of the
/// string.
pub proof fn lemma_authority_end_range(s: Seq<char>, i: int)
    requires
        0 <= i <= s.len(),
    ensures
        i <= spec_authority_end(s, i) <= s.len(),
    decreases s.len() - i,
{
    if i < s.len() && !(s[i] == '/' || s[i] == '?' || s[i] == '#') {
        lemma_authority_end_range(s, i + 1);
    }
}

} // verus!
