//! The Default Header Set: a mapping from case-insensitive header names
//! to header values, each entry optionally flagged as sensitive so that
//! callers know never to log or display it.
//!
//! A header name is a non-empty run of token characters; a header value
//! holds visible characters, spaces and horizontal tabs. Names compare
//! case-insensitively, so the set never holds two entries whose names
//! differ only in letter case.

use vstd::prelude::*;

use crate::uri::is_alpha_char;
use crate::uri::is_digit_char;

verus! {

/// Characters allowed in a header name: the token characters of the
/// wire header-name grammar.
pub open spec fn is_header_name_char(c: char) -> bool {
    ||| is_alpha_char(c)
    ||| is_digit_char(c)
    ||| c == '!' || c == '#' || c == '$' || c == '%' || c == '&' || c == '\'' || c == '*'
    ||| c == '+' || c == '-' || c == '.' || c == '^' || c == '_' || c == '`' || c == '|'
    ||| c == '~'
}

pub open spec fn is_valid_header_name(s: Seq<char>) -> bool {
    &&& s.len() > 0
    &&& forall|i: int| 0 <= i < s.len() ==> is_header_name_char(#[trigger] s[i])
}

/// Characters allowed in a header value: horizontal tab and everything
/// from the space upward, except delete.
pub open spec fn is_header_value_char(c: char) -> bool {
    c == '\t' || (' ' <= c && c != '\x7f')
}

pub open spec fn is_valid_header_value(s: Seq<char>) -> bool {
    forall|i: int| 0 <= i < s.len() ==> is_header_value_char(#[trigger] s[i])
}

/// The code a character counts as when names are compared: uppercase
/// letters fold onto their lowercase counterparts.
pub open spec fn lower_code(c: char) -> int {
    if 'A' <= c && c <= 'Z' {
        c as int + 32
    } else {
        c as int
    }
}

/// Case-insensitive equality of header names.
pub open spec fn name_eq(a: Seq<char>, b: Seq<char>) -> bool {
    &&& a.len() == b.len()
    &&& forall|i: int| 0 <= i < a.len() ==> lower_code(a[i]) == lower_code(#[trigger] b[i])
}

/// One entry of the set, as the contracts see it.
#[verifier::ext_equal]
pub struct HeaderView {
    pub name: Seq<char>,
    pub value: Seq<char>,
    pub sensitive: bool,
}

/// One header: a name, a value, and whether the value is sensitive and
/// must never be logged or displayed.
#[derive(Debug)]
pub struct HeaderEntry {
    pub name: String,
    pub value: String,
    pub sensitive: bool,
}

impl View for HeaderEntry {
    type V = HeaderView;

    open spec fn view(&self) -> HeaderView {
        HeaderView { name: self.name@, value: self.value@, sensitive: self.sensitive }
    }
}

impl Clone for HeaderEntry {
    fn clone(&self) -> (r: Self)
        ensures
            r@ == self@,
    {
        HeaderEntry {
            name: self.name.clone(),
            value: self.value.clone(),
            sensitive: self.sensitive,
        }
    }
}

/// The index of the first entry whose name equals `name`
/// case-insensitively, if any.
pub open spec fn spec_find_name(s: Seq<HeaderView>, name: Seq<char>, i: int) -> Option<int>
    decreases s.len() - i,
{
    if i < 0 || i >= s.len() {
        None
    } else if name_eq(s[i].name, name) {
        Some(i)
    } else {
        spec_find_name(s, name, i + 1)
    }
}

/// Whether some entry carries `name`, up to letter case.
pub open spec fn spec_contains_name(s: Seq<HeaderView>, name: Seq<char>) -> bool {
    spec_find_name(s, name, 0) is Some
}

/// What inserting a header does to the entries: it replaces the value
/// and sensitivity in place where the name is already present, and
/// appends a new entry where it is not.
pub open spec fn spec_insert(s: Seq<HeaderView>, h: HeaderView) -> Seq<HeaderView> {
    match spec_find_name(s, h.name, 0) {
        Some(i) => s.update(i, h),
        None => s.push(h),
    }
}

/// How many entries carry `name`, up to letter case.
pub open spec fn spec_count_name(s: Seq<HeaderView>, name: Seq<char>) -> nat
    decreases s.len(),
{
    if s.len() == 0 {
        0
    } else {
        spec_count_name(s.drop_last(), name) + if name_eq(s.last().name, name) {
            1nat
        } else {
            0nat
        }
    }
}

/// Entries whose names and values are well-formed and whose names,
/// compared case-insensitively, are free of duplicates.
pub open spec fn entries_wf(s: Seq<HeaderView>) -> bool {
    &&& forall|i: int|
        0 <= i < s.len() ==> is_valid_header_name(#[trigger] s[i].name) && is_valid_header_value(
            s[i].value,
        )
    &&& forall|i: int, j: int|
        0 <= i < j < s.len() ==> !name_eq(#[trigger] s[i].name, #[trigger] s[j].name)
}

/// An ordered-irrelevant set of headers with case-insensitive,
/// duplicate-free names.
#[derive(Debug)]
pub struct HeaderSet {
    pub entries: Vec<HeaderEntry>,
}

impl View for HeaderSet {
    type V = Seq<HeaderView>;

    open spec fn view(&self) -> Seq<HeaderView> {
        self.entries@.map_values(|e: HeaderEntry| e@)
    }
}

impl HeaderSet {
    /// Every name and value is well-formed and no name occurs twice,
    /// up to letter case.
    pub open spec fn wf(self) -> bool {
        entries_wf(self@)
    }

    /// An empty set, with room reserved for a handful of headers.
    pub fn new() -> (r: HeaderSet)
        ensures
            r@ == Seq::<HeaderView>::empty(),
            r.wf(),
    {
        let r = HeaderSet { entries: Vec::with_capacity(5) };
        proof {
            assert(r@ =~= Seq::<HeaderView>::empty());
        }
        r
    }

    pub fn len(&self) -> (n: usize)
        ensures
            n == self@.len(),
    {
        self.entries.len()
    }

    pub fn is_empty(&self) -> (b: bool)
        ensures
            b == (self@.len() == 0),
    {
        self.entries.is_empty()
    }

    /// The entry at an index, for walking the whole set.
    pub fn entry_at(&self, i: usize) -> (r: &HeaderEntry)
        requires
            i < self@.len(),
        ensures
            r@ == self@[i as int],
    {
        &self.entries[i]
    }

    /// The index of the entry carrying `name`, up to letter case.
    fn find(&self, name: &str) -> (r: Option<usize>)
        ensures
            match r {
                Some(i) => i < self@.len() && spec_find_name(self@, name@, 0) == Some(i as int),
                None => spec_find_name(self@, name@, 0) is None,
            },
    {
        let n = self.entries.len();
        let mut i: usize = 0;
        while i < n
            invariant
                0 <= i <= n,
                n == self@.len(),
                spec_find_name(self@, name@, 0) == spec_find_name(self@, name@, i as int),
            decreases n - i,
        {
            if name_matches(self.entries[i].name.as_str(), name) {
                return Some(i);
            }
            i += 1;
        }
        None
    }

    /// The value stored under `name`, up to letter case: `Some` exactly
    /// when the set contains the name.
    pub fn get(&self, name: &str) -> (r: Option<&String>)
        ensures
            match r {
                Some(v) => spec_find_name(self@, name@, 0) matches Some(i) && v@ == self@[i].value,
                None => !spec_contains_name(self@, name@),
            },
    {
        match self.find(name) {
            Some(i) => Some(&self.entries[i].value),
            None => None,
        }
    }

    /// Whether the set contains `name`, up to letter case.
    pub fn contains(&self, name: &str) -> (b: bool)
        ensures
            b == spec_contains_name(self@, name@),
    {
        self.find(name).is_some()
    }

    /// Puts a header into the set: replaces the entry whose name is
    /// already present, appends a new one otherwise.
    pub fn insert(&mut self, name: String, value: String, sensitive: bool)
        requires
            old(self).wf(),
            is_valid_header_name(name@),
            is_valid_header_value(value@),
        ensures
            final(self)@ == spec_insert(old(self)@, HeaderView { name: name@, value: value@, sensitive }),
            final(self).wf(),
    {
        let ghost h = HeaderView { name: name@, value: value@, sensitive };
        proof {
            lemma_insert_wf(self@, h);
        }
        match self.find(name.as_str()) {
            Some(i) => {
                self.entries.set(i, HeaderEntry { name, value, sensitive });
                proof {
                    assert(self@ =~= spec_insert(old(self)@, h));
                }
            },
            None => {
                self.entries.push(HeaderEntry { name, value, sensitive });
                proof {
                    assert(self@ =~= spec_insert(old(self)@, h));
                }
            },
        }
    }
}

impl Clone for HeaderSet {
    fn clone(&self) -> (r: Self)
        ensures
            r@ == self@,
    {
        let n = self.entries.len();
        let mut entries: Vec<HeaderEntry> = Vec::with_capacity(n);
        let mut i: usize = 0;
        while i < n
            invariant
                0 <= i <= n,
                n == self.entries@.len(),
                entries@.len() == i,
                forall|j: int| 0 <= j < i ==> #[trigger] entries@[j]@ == self.entries@[j]@,
            decreases n - i,
        {
            entries.push(self.entries[i].clone());
            i += 1;
        }
        let r = HeaderSet { entries };
        proof {
            assert(r@ =~= self@);
        }
        r
    }
}

/// Case-insensitive equality of two names, decided character by
/// character.
pub fn name_matches(a: &str, b: &str) -> (r: bool)
    ensures
        r == name_eq(a@, b@),
{
    let na = a.unicode_len();
    let nb = b.unicode_len();
    if na != nb {
        return false;
    }
    let mut i: usize = 0;
    while i < na
        invariant
            0 <= i <= na,
            na == a@.len(),
            na == b@.len(),
            forall|j: int| 0 <= j < i ==> lower_code(a@[j]) == lower_code(#[trigger] b@[j]),
        decreases na - i,
    {
        let ca = a.get_char(i) as u32;
        let cb = b.get_char(i) as u32;
        let la = if 65 <= ca && ca <= 90 {
            ca + 32
        } else {
            ca
        };
        let lb = if 65 <= cb && cb <= 90 {
            cb + 32
        } else {
            cb
        };
        if la != lb {
            return false;
        }
        i += 1;
    }
    true
}

/// Whether `s` is a well-formed header name.
pub fn check_header_name(s: &str) -> (b: bool)
    ensures
        b == is_valid_header_name(s@),
{
    let n = s.unicode_len();
    if n == 0 {
        return false;
    }
    let mut i: usize = 0;
    while i < n
        invariant
            0 <= i <= n,
            n == s@.len(),
            forall|j: int| 0 <= j < i ==> is_header_name_char(#[trigger] s@[j]),
        decreases n - i,
    {
        let c = s.get_char(i);
        let ok = ('a' <= c && c <= 'z') || ('A' <= c && c <= 'Z') || ('0' <= c && c <= '9')
            || c == '!' || c == '#' || c == '$' || c == '%' || c == '&' || c == '\'' || c == '*'
            || c == '+' || c == '-' || c == '.' || c == '^' || c == '_' || c == '`' || c == '|'
            || c == '~';
        if !ok {
            return false;
        }
        i += 1;
    }
    true
}

/// Whether `s` is a well-formed header value.
pub fn check_header_value(s: &str) -> (b: bool)
    ensures
        b == is_valid_header_value(s@),
{
    let n = s.unicode_len();
    let mut i: usize = 0;
    while i < n
        invariant
            0 <= i <= n,
            n == s@.len(),
            forall|j: int| 0 <= j < i ==> is_header_value_char(#[trigger] s@[j]),
        decreases n - i,
    {
        let c = s.get_char(i);
        if !(c == '\t' || (' ' <= c && c != '\x7f')) {
            return false;
        }
        i += 1;
    }
    true
}

/// A found index really is a match: unfolds the search down to the
/// index it returned.
pub proof fn lemma_find_name_found(s: Seq<HeaderView>, name: Seq<char>, from: int, i: int)
    requires
        0 <= from,
        spec_find_name(s, name, from) == Some(i),
    ensures
        from <= i < s.len(),
        name_eq(s[i].name, name),
        forall|j: int| from <= j < i ==> !name_eq(#[trigger] s[j].name, name),
    decreases s.len() - from,
{
    if from < s.len() && !name_eq(s[from].name, name) {
        lemma_find_name_found(s, name, from + 1, i);
    }
}

/// A failed search really misses every entry from its start onward.
pub proof fn lemma_find_name_none(s: Seq<HeaderView>, name: Seq<char>, from: int)
    requires
        0 <= from,
        spec_find_name(s, name, from) is None,
    ensures
        forall|j: int| from <= j < s.len() ==> !name_eq(#[trigger] s[j].name, name),
    decreases s.len() - from,
{
    if from < s.len() {
        lemma_find_name_none(s, name, from + 1)
    }
}

/// Inserting a well-formed header keeps the entries well-formed.
pub proof fn lemma_insert_wf(s: Seq<HeaderView>, h: HeaderView)
    requires
        entries_wf(s),
        is_valid_header_name(h.name),
        is_valid_header_value(h.value),
    ensures
        entries_wf(spec_insert(s, h)),
{
    match spec_find_name(s, h.name, 0) {
        Some(i) => {
            lemma_find_name_found(s, h.name, 0, i);
            assert(0 <= i < s.len());
            let t = s.update(i, h);
            assert forall|k: int|
                0 <= k < t.len() implies is_valid_header_name(#[trigger] t[k].name)
                && is_valid_header_value(t[k].value) by {
                if k == i {
                    assert(t[k] == h);
                } else {
                    assert(t[k] == s[k]);
                }
            }
            assert forall|k: int, l: int| 0 <= k < l < t.len() implies !name_eq(
                #[trigger] t[k].name,
                #[trigger] t[l].name,
            ) by {
                if k == i {
                    assert(t[l] == s[l]);
                    if name_eq(h.name, s[l].name) {
                        lemma_name_eq_trans(s[i].name, h.name, s[l].name);
                    }
                } else if l == i {
                    assert(t[k] == s[k]);
                    if name_eq(s[k].name, h.name) {
                        lemma_name_eq_trans(s[k].name, h.name, s[i].name);
                    }
                } else {
                    assert(t[k] == s[k]);
                    assert(t[l] == s[l]);
                }
            }
        },
        None => {
            let t = s.push(h);
            lemma_find_name_none(s, h.name, 0);
            assert forall|k: int|
                0 <= k < t.len() implies is_valid_header_name(#[trigger] t[k].name)
                && is_valid_header_value(t[k].value) by {
                if k < s.len() {
                    assert(t[k] == s[k]);
                } else {
                    assert(t[k] == h);
                }
            }
            assert forall|k: int, l: int| 0 <= k < l < t.len() implies !name_eq(
                #[trigger] t[k].name,
                #[trigger] t[l].name,
            ) by {
                assert(t[k] == s[k]);
                if l == s.len() {
                    assert(t[l] == h);
                    if name_eq(s[k].name, h.name) {
                        lemma_name_eq_sym(s[k].name, h.name);
                    }
                } else {
                    assert(t[l] == s[l]);
                }
            }
        },
    }
}

/// A name that no entry carries counts zero times.
pub proof fn lemma_count_name_zero(s: Seq<HeaderView>, name: Seq<char>)
    requires
        forall|j: int| 0 <= j < s.len() ==> !name_eq(#[trigger] s[j].name, name),
    ensures
        spec_count_name(s, name) == 0,
    decreases s.len(),
{
    if s.len() > 0 {
        lemma_count_name_zero(s.drop_last(), name);
    }
}

/// In well-formed entries, each name that is present is present
/// exactly once, up to letter case.
pub proof fn lemma_wf_count_one(s: Seq<HeaderView>, i: int)
    requires
        entries_wf(s),
        0 <= i < s.len(),
    ensures
        spec_count_name(s, s[i].name) == 1,
    decreases s.len(),
{
    let t = s.drop_last();
    let last = s.len() - 1;
    if i == last {
        assert forall|j: int| 0 <= j < t.len() implies !name_eq(
            #[trigger] t[j].name,
            s[i].name,
        ) by {
            assert(t[j] == s[j]);
        }
        lemma_count_name_zero(t, s[i].name);
    } else {
        assert(entries_wf(t)) by {
            assert(forall|j: int| 0 <= j < t.len() ==> t[j] == s[j]);
        }
        assert(t[i] == s[i]);
        lemma_wf_count_one(t, i);
        if name_eq(s[last].name, s[i].name) {
            lemma_name_eq_sym(s[last].name, s[i].name);
        }
    }
}

/// Case-insensitive name equality is symmetric.
pub proof fn lemma_name_eq_sym(a: Seq<char>, b: Seq<char>)
    requires
        name_eq(a, b),
    ensures
        name_eq(b, a),
{
}

/// Case-insensitive name equality is transitive.
pub proof fn lemma_name_eq_trans(a: Seq<char>, b: Seq<char>, c: Seq<char>)
    requires
        name_eq(a, b),
        name_eq(b, c),
    ensures
        name_eq(a, c),
{
}

} // verus!
