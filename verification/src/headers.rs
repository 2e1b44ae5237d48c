//! The outbound request header set: a default user agent, caller-supplied
//! entries with replace-not-append semantics for duplicate names, and the
//! resolution of the resume offset from a `Range: bytes=N-` entry.
//!
//! Header names are matched case-insensitively, as HTTP requires; malformed
//! names or values are a caller error, never silently dropped.

use vstd::prelude::*;

use crate::errors::DownloadError;

verus! {

/// A character allowed in a header name: the HTTP token characters
/// (letters, digits, and `! # $ % & ' * + - . ^ _ ` | ~`).
pub open spec fn valid_header_name_char(c: char) -> bool {
    let n = c as u32;
    ||| (0x61 <= n && n <= 0x7a)  // a-z
    ||| (0x41 <= n && n <= 0x5a)  // A-Z
    ||| (0x30 <= n && n <= 0x39)  // 0-9
    ||| n == 0x21  // !
    ||| n == 0x23  // #
    ||| n == 0x24  // $
    ||| n == 0x25  // %
    ||| n == 0x26  // &
    ||| n == 0x27  // '
    ||| n == 0x2a  // *
    ||| n == 0x2b  // +
    ||| n == 0x2d  // -
    ||| n == 0x2e  // .
    ||| n == 0x5e  // ^
    ||| n == 0x5f  // _
    ||| n == 0x60  // `
    ||| n == 0x7c  // |
    ||| n == 0x7e  // ~
}

/// A well-formed header name: non-empty and made of token characters only.
pub open spec fn valid_header_name(s: Seq<char>) -> bool {
    &&& s.len() > 0
    &&& forall|i: int| 0 <= i < s.len() ==> valid_header_name_char(#[trigger] s[i])
}

/// A character allowed in a header value: visible ASCII, space or tab.
pub open spec fn valid_header_value_char(c: char) -> bool {
    let n = c as u32;
    (0x20 <= n && n <= 0x7e) || n == 0x09
}

/// A well-formed header value: every character visible ASCII, space or tab.
pub open spec fn valid_header_value(s: Seq<char>) -> bool {
    forall|i: int| 0 <= i < s.len() ==> valid_header_value_char(#[trigger] s[i])
}

/// Two characters are the same header-name character up to ASCII case.
pub open spec fn name_chars_match(a: char, b: char) -> bool {
    ||| a == b
    ||| (0x41 <= a as u32 && a as u32 <= 0x5a && a as u32 + 0x20 == b as u32)
    ||| (0x41 <= b as u32 && b as u32 <= 0x5a && b as u32 + 0x20 == a as u32)
}

/// Case-insensitive equality of header names.
pub open spec fn names_equivalent(a: Seq<char>, b: Seq<char>) -> bool {
    &&& a.len() == b.len()
    &&& forall|i: int| 0 <= i < a.len() ==> name_chars_match(#[trigger] a[i], b[i])
}

/// The position of the first entry whose name matches `name`
/// case-insensitively, or -1 when no entry matches.
pub open spec fn find_name(entries: Seq<(Seq<char>, Seq<char>)>, name: Seq<char>) -> int
    decreases entries.len(),
{
    if entries.len() == 0 {
        -1
    } else if names_equivalent(entries[0].0, name) {
        0
    } else {
        let rest = find_name(entries.drop_first(), name);
        if rest == -1 {
            -1
        } else {
            rest + 1
        }
    }
}

/// Inserting into a header set: a matching name has its value replaced in
/// place (the stored spelling of the name is kept), a new name is appended.
pub open spec fn insert_spec(
    entries: Seq<(Seq<char>, Seq<char>)>,
    name: Seq<char>,
    value: Seq<char>,
) -> Seq<(Seq<char>, Seq<char>)> {
    let i = find_name(entries, name);
    if i >= 0 {
        entries.update(i, (entries[i].0, value))
    } else {
        entries.push((name, value))
    }
}

/// The header set before any caller-supplied entry: the default user agent.
pub open spec fn default_headers() -> Seq<(Seq<char>, Seq<char>)> {
    seq![("user-agent"@, "chimera"@)]
}

/// The result of inserting `custom` into `base`, first entry first.
pub open spec fn apply_inserts(
    base: Seq<(Seq<char>, Seq<char>)>,
    custom: Seq<(Seq<char>, Seq<char>)>,
) -> Seq<(Seq<char>, Seq<char>)>
    decreases custom.len(),
{
    if custom.len() == 0 {
        base
    } else {
        apply_inserts(insert_spec(base, custom[0].0, custom[0].1), custom.drop_first())
    }
}

/// The full header set for a request: the default user agent, overridden or
/// extended by the caller-supplied entries in their given order.
pub open spec fn build_headers_spec(
    custom: Seq<(Seq<char>, Seq<char>)>,
) -> Seq<(Seq<char>, Seq<char>)> {
    apply_inserts(default_headers(), custom)
}

/// Every supplied entry has a well-formed name and value.
pub open spec fn all_entries_valid(entries: Seq<(Seq<char>, Seq<char>)>) -> bool {
    forall|i: int| 0 <= i < entries.len() ==> valid_header_name(
        (#[trigger] entries[i]).0,
    ) && valid_header_value(entries[i].1)
}

/// The abstract content of a list of owned header pairs.
pub open spec fn entries_view(entries: Seq<(String, String)>) -> Seq<(Seq<char>, Seq<char>)> {
    entries.map_values(|e: (String, String)| (e.0@, e.1@))
}

/// Exec check of [`valid_header_name_char`].
fn is_name_char(c: char) -> (r: bool)
    ensures
        r == valid_header_name_char(c),
{
    let n = c as u32;
    (0x61 <= n && n <= 0x7a) || (0x41 <= n && n <= 0x5a) || (0x30 <= n && n <= 0x39) || n == 0x21
        || n == 0x23 || n == 0x24 || n == 0x25 || n == 0x26 || n == 0x27 || n == 0x2a || n == 0x2b
        || n == 0x2d || n == 0x2e || n == 0x5e || n == 0x5f || n == 0x60 || n == 0x7c || n == 0x7e
}

/// Exec check of [`valid_header_value_char`].
fn is_value_char(c: char) -> (r: bool)
    ensures
        r == valid_header_value_char(c),
{
    let n = c as u32;
    (0x20 <= n && n <= 0x7e) || n == 0x09
}

/// Exec check of [`valid_header_name`].
fn is_valid_name(s: &String) -> (r: bool)
    ensures
        r == valid_header_name(s@),
{
    let len = s.as_str().unicode_len();
    if len == 0 {
        return false;
    }
    let mut i: usize = 0;
    while i < len
        invariant
            i <= len,
            len == s@.len(),
            forall|j: int| 0 <= j < i ==> valid_header_name_char(#[trigger] s@[j]),
        decreases len - i,
    {
        if !is_name_char(s.as_str().get_char(i)) {
            return false;
        }
        i = i + 1;
    }
    true
}

/// Exec check of [`valid_header_value`].
fn is_valid_value(s: &String) -> (r: bool)
    ensures
        r == valid_header_value(s@),
{
    let len = s.as_str().unicode_len();
    let mut i: usize = 0;
    while i < len
        invariant
            i <= len,
            len == s@.len(),
            forall|j: int| 0 <= j < i ==> valid_header_value_char(#[trigger] s@[j]),
        decreases len - i,
    {
        if !is_value_char(s.as_str().get_char(i)) {
            return false;
        }
        i = i + 1;
    }
    true
}

/// Exec check of [`names_equivalent`].
fn names_match(a: &String, b: &String) -> (r: bool)
    ensures
        r == names_equivalent(a@, b@),
{
    let len_a = a.as_str().unicode_len();
    let len_b = b.as_str().unicode_len();
    if len_a != len_b {
        return false;
    }
    let mut i: usize = 0;
    while i < len_a
        invariant
            i <= len_a,
            len_a == a@.len(),
            len_a == b@.len(),
            forall|j: int| 0 <= j < i ==> name_chars_match(#[trigger] a@[j], b@[j]),
        decreases len_a - i,
    {
        let ca = a.as_str().get_char(i) as u32;
        let cb = b.as_str().get_char(i) as u32;
        let same = ca == cb || (0x41 <= ca && ca <= 0x5a && ca + 0x20 == cb) || (0x41 <= cb && cb
            <= 0x5a && cb + 0x20 == ca);
        if !same {
            return false;
        }
        i = i + 1;
    }
    true
}

/// The outbound header set: name/value pairs with at most one entry per
/// name up to ASCII case, matched and replaced case-insensitively.
#[derive(Debug)]
pub struct HeaderList {
    entries: Vec<(String, String)>,
}

impl HeaderList {
    /// The abstract content: the pairs in order, as character sequences.
    pub closed spec fn view(self) -> Seq<(Seq<char>, Seq<char>)> {
        entries_view(self.entries@)
    }

    /// An empty header set.
    pub fn new() -> (h: HeaderList)
        ensures
            h@ == Seq::<(Seq<char>, Seq<char>)>::empty(),
    {
        let h = HeaderList { entries: Vec::new() };
        proof {
            assert(h@ =~= Seq::<(Seq<char>, Seq<char>)>::empty());
        }
        h
    }

    /// Number of entries.
    pub fn len(&self) -> (n: usize)
        ensures
            n == self@.len(),
    {
        self.entries.len()
    }

    /// The entry at position `i`, as owned strings.
    pub fn entry(&self, i: usize) -> (e: (String, String))
        requires
            i < self@.len(),
        ensures
            e.0@ == self@[i as int].0,
            e.1@ == self@[i as int].1,
    {
        let pair = &self.entries[i];
        (pair.0.clone(), pair.1.clone())
    }

    /// The position of the first entry whose name matches `name`
    /// case-insensitively.
    fn find_index(&self, name: &String) -> (r: Option<usize>)
        ensures
            match r {
                Some(i) => i < self@.len() && find_name(self@, name@) == i,
                None => find_name(self@, name@) == -1,
            },
    {
        let n = self.entries.len();
        let mut i: usize = 0;
        while i < n
            invariant
                i <= n,
                n == self@.len(),
                n == self.entries@.len(),
                forall|j: int| 0 <= j < i ==> !names_equivalent((#[trigger] self@[j]).0, name@),
            decreases n - i,
        {
            if names_match(&self.entries[i].0, name) {
                proof {
                    lemma_find_name_first(self@, name@, i as int);
                }
                return Some(i);
            }
            i = i + 1;
        }
        proof {
            lemma_find_name_first(self@, name@, n as int);
        }
        None
    }

    /// Inserts an entry: a name already present (up to case) has its value
    /// replaced, a new name is appended.
    pub fn insert(&mut self, name: String, value: String)
        ensures
            final(self)@ == insert_spec(old(self)@, name@, value@),
    {
        match self.find_index(&name) {
            Some(i) => {
                let kept_name = self.entries[i].0.clone();
                self.entries.set(i, (kept_name, value));
                proof {
                    assert(final(self)@ =~= insert_spec(old(self)@, name@, value@));
                }
            },
            None => {
                self.entries.push((name, value));
                proof {
                    assert(final(self)@ =~= insert_spec(old(self)@, name@, value@));
                }
            },
        }
    }

    /// The value of the first entry whose name matches `name`
    /// case-insensitively, if any.
    pub fn get_value(&self, name: &String) -> (r: Option<String>)
        ensures
            match r {
                Some(v) => find_name(self@, name@) >= 0 && v@ == self@[find_name(self@, name@)].1,
                None => find_name(self@, name@) == -1,
            },
    {
        match self.find_index(name) {
            Some(i) => Some(self.entries[i].1.clone()),
            None => None,
        }
    }
}

/// `find_name` finds exactly the first matching position: if everything
/// before `i` fails to match, a match at `i` is what `find_name` returns,
/// and no match anywhere means -1.
proof fn lemma_find_name_first(entries: Seq<(Seq<char>, Seq<char>)>, name: Seq<char>, i: int)
    requires
        0 <= i <= entries.len(),
        forall|j: int| 0 <= j < i ==> !names_equivalent((#[trigger] entries[j]).0, name),
        i < entries.len() ==> names_equivalent(entries[i].0, name),
    ensures
        i < entries.len() ==> find_name(entries, name) == i,
        i == entries.len() ==> find_name(entries, name) == -1,
    decreases entries.len(),
{
    if entries.len() > 0 && !names_equivalent(entries[0].0, name) {
        lemma_find_name_first(entries.drop_first(), name, i - 1);
    }
}

/// Builds the header set for a request: the default user agent, then each
/// caller-supplied entry in order, duplicates (up to ASCII case) replacing
/// rather than appending. Fails with `InvalidHeader`, creating nothing,
/// exactly when some supplied name or value is malformed.
pub fn parse_headers(custom_headers: Option<Vec<(String, String)>>) -> (r: Result<
    HeaderList,
    DownloadError,
>)
    ensures
        (r is Ok) == (match custom_headers {
            Some(list) => all_entries_valid(entries_view(list@)),
            None => true,
        }),
        r matches Ok(h) ==> h@ == build_headers_spec(
            match custom_headers {
                Some(list) => entries_view(list@),
                None => Seq::<(Seq<char>, Seq<char>)>::empty(),
            },
        ),
        r matches Ok(h) ==> names_distinct(h@),
        r matches Err(e) ==> e == DownloadError::InvalidHeader,
{
    proof {
        lemma_built_headers_distinct(
            match custom_headers {
                Some(ref list) => entries_view(list@),
                None => Seq::<(Seq<char>, Seq<char>)>::empty(),
            },
        );
    }
    let mut headers = HeaderList::new();
    headers.insert(String::from_str("user-agent"), String::from_str("chimera"));
    proof {
        assert(headers@ =~= default_headers());
    }
    if custom_headers.is_none() {
        return Ok(headers);
    }
    let list = custom_headers.unwrap();
    let n = list.len();
    let mut k: usize = 0;
    while k < n
        invariant
            k <= n,
            n == list@.len(),
            custom_headers matches Some(l) && l == list,
            forall|j: int| 0 <= j < k ==> valid_header_name(
                (#[trigger] entries_view(list@)[j]).0,
            ) && valid_header_value(entries_view(list@)[j].1),
            headers@ == apply_inserts(default_headers(), entries_view(list@).take(k as int)),
        decreases n - k,
    {
        let name = list[k].0.clone();
        let value = list[k].1.clone();
        proof {
            assert(entries_view(list@)[k as int] == (list@[k as int].0@, list@[k as int].1@));
        }
        if !is_valid_name(&name) || !is_valid_value(&value) {
            proof {
                assert(!all_entries_valid(entries_view(list@)));
            }
            return Err(DownloadError::InvalidHeader);
        }
        headers.insert(name, value);
        proof {
            lemma_apply_inserts_snoc(
                default_headers(),
                entries_view(list@).take(k as int),
                entries_view(list@)[k as int],
            );
            assert(entries_view(list@).take(k as int).push(entries_view(list@)[k as int])
                =~= entries_view(list@).take(k + 1));
        }
        k = k + 1;
    }
    proof {
        assert(entries_view(list@).take(n as int) =~= entries_view(list@));
    }
    Ok(headers)
}

/// No two entries share a name, even up to ASCII case.
pub open spec fn names_distinct(entries: Seq<(Seq<char>, Seq<char>)>) -> bool {
    forall|i: int, j: int| 0 <= i < j < entries.len() ==> !names_equivalent(
        (#[trigger] entries[i]).0,
        (#[trigger] entries[j]).0,
    )
}

/// `find_name` answers -1 or a position inside the list.
proof fn lemma_find_name_bounds(entries: Seq<(Seq<char>, Seq<char>)>, name: Seq<char>)
    ensures
        -1 <= find_name(entries, name) < entries.len(),
    decreases entries.len(),
{
    if entries.len() > 0 && !names_equivalent(entries[0].0, name) {
        lemma_find_name_bounds(entries.drop_first(), name);
    }
}

/// A miss by `find_name` means no entry matches at all.
proof fn lemma_find_name_none(entries: Seq<(Seq<char>, Seq<char>)>, name: Seq<char>)
    requires
        find_name(entries, name) == -1,
    ensures
        forall|i: int| 0 <= i < entries.len() ==> !names_equivalent(
            (#[trigger] entries[i]).0,
            name,
        ),
    decreases entries.len(),
{
    if entries.len() > 0 {
        lemma_find_name_bounds(entries.drop_first(), name);
        lemma_find_name_none(entries.drop_first(), name);
        assert(forall|i: int| 1 <= i < entries.len() ==> (#[trigger] entries[i])
            == entries.drop_first()[i - 1]);
    }
}

/// Inserting never makes a duplicate: a matching name is replaced in place,
/// and a new name is only appended when nothing matched it.
pub proof fn lemma_insert_keeps_names_distinct(
    entries: Seq<(Seq<char>, Seq<char>)>,
    name: Seq<char>,
    value: Seq<char>,
)
    requires
        names_distinct(entries),
    ensures
        names_distinct(insert_spec(entries, name, value)),
{
    lemma_find_name_bounds(entries, name);
    let i = find_name(entries, name);
    if i >= 0 {
        let updated = entries.update(i, (entries[i].0, value));
        assert(forall|k: int| 0 <= k < entries.len() ==> (#[trigger] updated[k]).0
            == entries[k].0);
    } else {
        lemma_find_name_none(entries, name);
    }
}

/// The built header set holds at most one entry per name: duplicates
/// replace, they never append.
pub proof fn lemma_built_headers_distinct(custom: Seq<(Seq<char>, Seq<char>)>)
    ensures
        names_distinct(build_headers_spec(custom)),
{
    lemma_apply_inserts_keep_names_distinct(default_headers(), custom);
}

/// Folding inserts over a duplicate-free set leaves it duplicate-free.
proof fn lemma_apply_inserts_keep_names_distinct(
    base: Seq<(Seq<char>, Seq<char>)>,
    custom: Seq<(Seq<char>, Seq<char>)>,
)
    requires
        names_distinct(base),
    ensures
        names_distinct(apply_inserts(base, custom)),
    decreases custom.len(),
{
    if custom.len() > 0 {
        lemma_insert_keeps_names_distinct(base, custom[0].0, custom[0].1);
        lemma_apply_inserts_keep_names_distinct(
            insert_spec(base, custom[0].0, custom[0].1),
            custom.drop_first(),
        );
    }
}

/// A decimal digit.
pub open spec fn is_digit(c: char) -> bool {
    0x30 <= c as u32 && c as u32 <= 0x39
}

/// The numeric value of a decimal digit.
pub open spec fn digit_val(c: char) -> int {
    c as u32 - 0x30
}

/// The number written by a sequence of decimal digits, most significant
/// first.
pub open spec fn digits_value(s: Seq<char>) -> int
    decreases s.len(),
{
    if s.len() == 0 {
        0
    } else {
        digits_value(s.drop_last()) * 10 + digit_val(s.last())
    }
}

/// The value has exactly the shape `bytes=N-` with `N` a non-empty run of
/// decimal digits.
pub open spec fn range_form(v: Seq<char>) -> bool {
    &&& v.len() >= 8
    &&& v[0] == 'b'
    &&& v[1] == 'y'
    &&& v[2] == 't'
    &&& v[3] == 'e'
    &&& v[4] == 's'
    &&& v[5] == '='
    &&& v[v.len() - 1] == '-'
    &&& forall|i: int| 6 <= i < v.len() - 1 ==> is_digit(#[trigger] v[i])
}

/// The digit run of a `bytes=N-` value.
pub open spec fn range_digits(v: Seq<char>) -> Seq<char> {
    v.subrange(6, v.len() - 1)
}

/// The resume offset a `Range` header value names: `N` for a well-formed
/// `bytes=N-` whose number fits in a byte counter, and 0 for anything else.
pub open spec fn range_offset_of(v: Seq<char>) -> int {
    if range_form(v) && digits_value(range_digits(v)) <= u64::MAX {
        digits_value(range_digits(v))
    } else {
        0
    }
}

/// The resume offset of a header set: what its first `Range` entry (matched
/// case-insensitively) names, or 0 without one.
pub open spec fn resume_offset_spec(entries: Seq<(Seq<char>, Seq<char>)>) -> int {
    let i = find_name(entries, "range"@);
    if i >= 0 {
        range_offset_of(entries[i].1)
    } else {
        0
    }
}

/// A digit sequence names a non-negative number.
proof fn lemma_digits_value_nonneg(s: Seq<char>)
    requires
        forall|i: int| 0 <= i < s.len() ==> is_digit(#[trigger] s[i]),
    ensures
        digits_value(s) >= 0,
    decreases s.len(),
{
    if s.len() > 0 {
        lemma_digits_value_nonneg(s.drop_last());
    }
}

/// A prefix of a digit sequence names at most the whole sequence's number.
proof fn lemma_digits_value_prefix_le(s: Seq<char>, j: int)
    requires
        0 <= j <= s.len(),
        forall|i: int| 0 <= i < s.len() ==> is_digit(#[trigger] s[i]),
    ensures
        digits_value(s.subrange(0, j)) <= digits_value(s),
    decreases s.len() - j,
{
    if j == s.len() {
        assert(s.subrange(0, j) =~= s);
    } else {
        let shorter = s.subrange(0, j);
        let longer = s.subrange(0, j + 1);
        assert(longer.drop_last() =~= shorter);
        lemma_digits_value_nonneg(shorter);
        lemma_digits_value_prefix_le(s, j + 1);
    }
}

/// Reads the resume offset out of one `Range` header value: `N` from a
/// well-formed `bytes=N-` that fits in a byte counter, 0 for anything else
/// (including an absent digit run, a stray character, or a number too large
/// to track).
pub fn parse_range_value(value: &String) -> (r: u64)
    ensures
        r as int == range_offset_of(value@),
{
    let s = value.as_str();
    let len = s.unicode_len();
    if len < 8 {
        return 0;
    }
    if s.get_char(0) != 'b' || s.get_char(1) != 'y' || s.get_char(2) != 't' || s.get_char(3) != 'e'
        || s.get_char(4) != 's' || s.get_char(5) != '=' {
        return 0;
    }
    if s.get_char(len - 1) != '-' {
        return 0;
    }
    let mut acc: u64 = 0;
    let mut i: usize = 6;
    while i < len - 1
        invariant
            6 <= i <= len - 1,
            len == value@.len(),
            8 <= len,
            s@ == value@,
            value@[0] == 'b',
            value@[1] == 'y',
            value@[2] == 't',
            value@[3] == 'e',
            value@[4] == 's',
            value@[5] == '=',
            value@[len - 1] == '-',
            forall|j: int| 6 <= j < i ==> is_digit(#[trigger] value@[j]),
            acc as int == digits_value(value@.subrange(6, i as int)),
        decreases len - 1 - i,
    {
        let c = s.get_char(i);
        let cu = c as u32;
        if !(0x30 <= cu && cu <= 0x39) {
            proof {
                assert(!range_form(value@));
            }
            return 0;
        }
        let d = (cu - 0x30) as u64;
        let wide: u128 = (acc as u128) * 10 + (d as u128);
        proof {
            assert(value@.subrange(6, i + 1).drop_last() =~= value@.subrange(6, i as int));
            assert(digits_value(value@.subrange(6, i + 1)) == wide);
        }
        if wide > u64::MAX as u128 {
            proof {
                if range_form(value@) {
                    let rd = range_digits(value@);
                    assert(value@.subrange(6, i + 1) =~= rd.subrange(0, i + 1 - 6));
                    lemma_digits_value_prefix_le(rd, i + 1 - 6);
                }
            }
            return 0;
        }
        acc = wide as u64;
        i = i + 1;
    }
    proof {
        assert(range_form(value@));
        assert(value@.subrange(6, i as int) =~= range_digits(value@));
    }
    acc
}

/// The resume offset of this header set: reads the first `Range` entry
/// (matched case-insensitively) and returns the `N` of its `bytes=N-`
/// value, or 0 when the entry is absent or malformed.
pub fn resume_offset(headers: &HeaderList) -> (r: u64)
    ensures
        r as int == resume_offset_spec(headers@),
{
    let range_name = String::from_str("range");
    match headers.get_value(&range_name) {
        Some(v) => parse_range_value(&v),
        None => 0,
    }
}

/// Appending one entry to the supplied list inserts it last.
proof fn lemma_apply_inserts_snoc(
    base: Seq<(Seq<char>, Seq<char>)>,
    custom: Seq<(Seq<char>, Seq<char>)>,
    entry: (Seq<char>, Seq<char>),
)
    ensures
        apply_inserts(base, custom.push(entry)) == insert_spec(
            apply_inserts(base, custom),
            entry.0,
            entry.1,
        ),
    decreases custom.len(),
{
    let pushed = custom.push(entry);
    assert(pushed[0] == if custom.len() == 0 {
        entry
    } else {
        custom[0]
    });
    assert(apply_inserts(base, pushed) == apply_inserts(
        insert_spec(base, pushed[0].0, pushed[0].1),
        pushed.drop_first(),
    ));
    if custom.len() == 0 {
        assert(pushed.drop_first() =~= Seq::<(Seq<char>, Seq<char>)>::empty());
        assert(apply_inserts(insert_spec(base, entry.0, entry.1), pushed.drop_first())
            == insert_spec(base, entry.0, entry.1));
        assert(apply_inserts(base, custom) == base);
    } else {
        assert(pushed.drop_first() =~= custom.drop_first().push(entry));
        lemma_apply_inserts_snoc(insert_spec(base, custom[0].0, custom[0].1), custom.drop_first(), entry);
    }
}

} // verus!
