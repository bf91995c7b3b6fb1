//! Verified text helpers over character sequences: equality, concatenation, ASCII case folding,
//! substring search, whitespace trimming and JSON object assembly.
use vstd::prelude::*;
use vstd::string::*;

use crate::external::{char_is_whitespace, unicode_whitespace};

verus! {

broadcast use vstd::string::group_string_axioms;

/// A copy of an optional string.
pub fn clone_opt_string(o: &Option<String>) -> (r: Option<String>)
    ensures
        r == *o,
{
    match o {
        Some(s) => Some(s.clone()),
        None => None,
    }
}

/// A copy of a list of strings.
pub fn clone_strings(v: &Vec<String>) -> (r: Vec<String>)
    ensures
        r@ == v@,
{
    let mut r: Vec<String> = Vec::new();
    let mut i: usize = 0;
    while i < v.len()
        invariant
            i <= v.len(),
            r@ == v@.subrange(0, i as int),
        decreases v.len() - i,
    {
        r.push(v[i].clone());
        i = i + 1;
        assert(r@ =~= v@.subrange(0, i as int));
    }
    assert(r@ =~= v@);
    r
}

/// An owned copy of a string slice.
pub fn text(s: &str) -> (r: String)
    ensures
        r@ == s@,
{
    s.to_owned()
}

/// `a` followed by `b`.
pub fn join(a: &str, b: &str) -> (r: String)
    ensures
        r@ == a@ + b@,
{
    let mut r = a.to_owned();
    r.append(b);
    r
}

/// The characters of a string, in order.
pub fn chars_of(s: &str) -> (r: Vec<char>)
    ensures
        r@ == s@,
{
    let n = s.unicode_len();
    let mut r: Vec<char> = Vec::new();
    let mut i: usize = 0;
    while i < n
        invariant
            n == s@.len(),
            i <= n,
            r@ == s@.subrange(0, i as int),
        decreases n - i,
    {
        let c = s.get_char(i);
        r.push(c);
        i = i + 1;
        assert(r@ =~= s@.subrange(0, i as int));
    }
    assert(r@ =~= s@);
    r
}

/// Whether two character sequences are equal.
pub fn chars_equal(x: &Vec<char>, y: &Vec<char>) -> (r: bool)
    ensures
        r == (x@ == y@),
{
    if x.len() != y.len() {
        return false;
    }
    let mut i: usize = 0;
    while i < x.len()
        invariant
            x.len() == y.len(),
            i <= x.len(),
            forall|j: int| 0 <= j < i ==> x@[j] == y@[j],
        decreases x.len() - i,
    {
        if x[i] != y[i] {
            return false;
        }
        i = i + 1;
    }
    assert(x@ =~= y@);
    true
}

/// Whether a character sequence spells out `s`.
pub fn chars_are(x: &Vec<char>, s: &str) -> (r: bool)
    ensures
        r == (x@ == s@),
{
    let y = chars_of(s);
    chars_equal(x, &y)
}

/// Whether two strings hold the same characters.
pub fn str_eq(a: &str, b: &str) -> (r: bool)
    ensures
        r == (a@ == b@),
{
    let x = chars_of(a);
    let y = chars_of(b);
    chars_equal(&x, &y)
}

/// ASCII upper-case letters map to lower case; every other character is unchanged.
pub open spec fn ascii_lower_char(c: char) -> char {
    if 'A' <= c && c <= 'Z' {
        ((c as u32) + 32) as char
    } else {
        c
    }
}

/// `str::to_ascii_lowercase`, character by character.
pub open spec fn ascii_lower(s: Seq<char>) -> Seq<char> {
    Seq::new(s.len(), |i: int| ascii_lower_char(s[i]))
}

pub fn lower_char(c: char) -> (r: char)
    ensures
        r == ascii_lower_char(c),
{
    if 'A' <= c && c <= 'Z' {
        let code: u8 = ((c as u32) + 32) as u8;
        code as char
    } else {
        c
    }
}

/// The ASCII lower-case folding of a character sequence.
pub fn lower_chars(s: &Vec<char>) -> (r: Vec<char>)
    ensures
        r@ == ascii_lower(s@),
{
    let mut r: Vec<char> = Vec::new();
    let mut i: usize = 0;
    while i < s.len()
        invariant
            i <= s.len(),
            r@ == ascii_lower(s@).subrange(0, i as int),
        decreases s.len() - i,
    {
        let c = lower_char(s[i]);
        r.push(c);
        i = i + 1;
        assert(r@ =~= ascii_lower(s@).subrange(0, i as int));
    }
    assert(r@ =~= ascii_lower(s@));
    r
}

/// Whether `needle` occurs in `hay` starting at position `i`.
pub open spec fn occurs_at(hay: Seq<char>, needle: Seq<char>, i: int) -> bool {
    0 <= i && i + needle.len() <= hay.len() && hay.subrange(i, i + needle.len()) == needle
}

/// Whether `needle` occurs anywhere in `hay` (the empty needle occurs in every string).
pub open spec fn contains_text(hay: Seq<char>, needle: Seq<char>) -> bool {
    exists|i: int| occurs_at(hay, needle, i)
}

fn matches_at(hay: &Vec<char>, needle: &Vec<char>, i: usize) -> (r: bool)
    requires
        i + needle.len() <= hay.len(),
    ensures
        r == occurs_at(hay@, needle@, i as int),
{
    let mut j: usize = 0;
    while j < needle.len()
        invariant
            i + needle.len() <= hay.len(),
            j <= needle.len(),
            forall|k: int| 0 <= k < j ==> hay@[i + k] == needle@[k],
        decreases needle.len() - j,
    {
        if hay[i + j] != needle[j] {
            assert(hay@.subrange(i as int, i + needle.len())[j as int] != needle@[j as int]);
            return false;
        }
        j = j + 1;
    }
    assert(hay@.subrange(i as int, i + needle.len()) =~= needle@);
    true
}

/// Substring search over character sequences.
pub fn contains_chars(hay: &Vec<char>, needle: &Vec<char>) -> (r: bool)
    ensures
        r == contains_text(hay@, needle@),
{
    if needle.len() > hay.len() {
        return false;
    }
    if needle.len() == 0 {
        assert(occurs_at(hay@, needle@, 0)) by {
            assert(hay@.subrange(0, 0) =~= needle@);
        }
        return true;
    }
    let last = hay.len() - needle.len();
    let mut i: usize = 0;
    while i <= last
        invariant
            last == hay.len() - needle.len(),
            1 <= needle.len() <= hay.len(),
            i <= last + 1,
            forall|k: int| 0 <= k < i ==> !occurs_at(hay@, needle@, k),
        decreases last + 1 - i,
    {
        if matches_at(hay, needle, i) {
            return true;
        }
        i = i + 1;
    }
    assert forall|k: int| !occurs_at(hay@, needle@, k) by {
        if 0 <= k && k + needle@.len() <= hay@.len() {
            assert(k < i);
        }
    }
    false
}

/// Whether `s` contains `needle`, for string slices.
pub fn str_contains(s: &str, needle: &str) -> (r: bool)
    ensures
        r == contains_text(s@, needle@),
{
    let h = chars_of(s);
    let n = chars_of(needle);
    contains_chars(&h, &n)
}

/// Index of the first leading character that is not whitespace (`s.len()` if none).
pub open spec fn trim_start_index(s: Seq<char>) -> int
    decreases s.len(),
{
    if s.len() == 0 {
        0
    } else if unicode_whitespace(s[0]) {
        1 + trim_start_index(s.drop_first())
    } else {
        0
    }
}

/// `str::trim_start`: drop leading Unicode whitespace.
pub open spec fn trim_start(s: Seq<char>) -> Seq<char>
    decreases s.len(),
{
    if s.len() == 0 {
        s
    } else if unicode_whitespace(s[0]) {
        trim_start(s.drop_first())
    } else {
        s
    }
}

/// `str::trim_end`: drop trailing Unicode whitespace.
pub open spec fn trim_end(s: Seq<char>) -> Seq<char>
    decreases s.len(),
{
    if s.len() == 0 {
        s
    } else if unicode_whitespace(s.last()) {
        trim_end(s.drop_last())
    } else {
        s
    }
}

/// `str::trim`: drop leading and trailing Unicode whitespace.
pub open spec fn trim(s: Seq<char>) -> Seq<char> {
    trim_end(trim_start(s))
}

proof fn lemma_trim_start_suffix(s: Seq<char>, i: int)
    requires
        0 <= i <= s.len(),
        forall|k: int| 0 <= k < i ==> unicode_whitespace(s[k]),
    ensures
        trim_start(s) == trim_start(s.subrange(i, s.len() as int)),
    decreases i,
{
    if i > 0 {
        assert(s.drop_first() =~= s.subrange(1, s.len() as int));
        lemma_trim_start_suffix(s.drop_first(), i - 1);
        assert(s.drop_first().subrange(i - 1, s.drop_first().len() as int) =~= s.subrange(
            i,
            s.len() as int,
        ));
    } else {
        assert(s.subrange(0, s.len() as int) =~= s);
    }
}

proof fn lemma_trim_end_prefix(s: Seq<char>, j: int)
    requires
        0 <= j <= s.len(),
        forall|k: int| j <= k < s.len() ==> unicode_whitespace(s[k]),
    ensures
        trim_end(s) == trim_end(s.subrange(0, j)),
    decreases s.len() - j,
{
    if j < s.len() {
        assert(s.drop_last() =~= s.subrange(0, s.len() - 1));
        lemma_trim_end_prefix(s.drop_last(), j);
        assert(s.drop_last().subrange(0, j) =~= s.subrange(0, j));
    } else {
        assert(s.subrange(0, j) =~= s);
    }
}

/// `str::trim` over a character sequence.
pub fn trim_chars(s: &Vec<char>) -> (r: Vec<char>)
    ensures
        r@ == trim(s@),
{
    let n = s.len();
    let mut i: usize = 0;
    while i < n && char_is_whitespace(s[i])
        invariant
            n == s.len(),
            i <= n,
            forall|k: int| 0 <= k < i ==> unicode_whitespace(s@[k]),
        decreases n - i,
    {
        i = i + 1;
    }
    proof {
        lemma_trim_start_suffix(s@, i as int);
    }
    let ghost rest = s@.subrange(i as int, n as int);
    assert(i == n || !unicode_whitespace(rest[0]));
    assert(trim_start(rest) == rest) by {
        if rest.len() > 0 {
            assert(!unicode_whitespace(rest[0]));
        }
    }
    let mut j: usize = n;
    while j > i && char_is_whitespace(s[j - 1])
        invariant
            n == s.len(),
            i <= j <= n,
            forall|k: int| j <= k < n ==> unicode_whitespace(s@[k]),
        decreases j,
    {
        j = j - 1;
    }
    proof {
        let t = rest;
        let m = j - i;
        assert forall|k: int| m <= k < t.len() implies unicode_whitespace(t[k]) by {
            assert(t[k] == s@[i + k]);
        }
        lemma_trim_end_prefix(t, m);
        let u = t.subrange(0, m);
        if u.len() > 0 {
            assert(u.last() == s@[j - 1]);
        }
        assert(trim_end(u) == u);
        assert(u =~= s@.subrange(i as int, j as int));
    }
    let mut r: Vec<char> = Vec::new();
    let mut k: usize = i;
    while k < j
        invariant
            n == s.len(),
            i <= k <= j <= n,
            r@ == s@.subrange(i as int, k as int),
        decreases j - k,
    {
        r.push(s[k]);
        k = k + 1;
        assert(r@ =~= s@.subrange(i as int, k as int));
    }
    r
}

/// The part of `s` before its first occurrence of `sep` (all of `s` when `sep` is absent).
pub open spec fn before_first(s: Seq<char>, sep: char) -> Seq<char>
    decreases s.len(),
{
    if s.len() == 0 {
        s
    } else if s[0] == sep {
        Seq::empty()
    } else {
        seq![s[0]] + before_first(s.drop_first(), sep)
    }
}

proof fn lemma_before_first_prefix(s: Seq<char>, sep: char, i: int)
    requires
        0 <= i <= s.len(),
        forall|k: int| 0 <= k < i ==> s[k] != sep,
    ensures
        before_first(s, sep) == s.subrange(0, i) + before_first(s.subrange(i, s.len() as int), sep),
    decreases i,
{
    if i > 0 {
        lemma_before_first_prefix(s.drop_first(), sep, i - 1);
        assert(s.drop_first().subrange(i - 1, s.drop_first().len() as int) =~= s.subrange(
            i,
            s.len() as int,
        ));
        assert(seq![s[0]] + s.drop_first().subrange(0, i - 1) =~= s.subrange(0, i));
    } else {
        assert(s.subrange(0, s.len() as int) =~= s);
    }
}

/// The first `sep`-separated segment of a character sequence.
pub fn first_segment(s: &Vec<char>, sep: char) -> (r: Vec<char>)
    ensures
        r@ == before_first(s@, sep),
{
    let mut r: Vec<char> = Vec::new();
    let mut i: usize = 0;
    while i < s.len() && s[i] != sep
        invariant
            i <= s.len(),
            r@ == s@.subrange(0, i as int),
            forall|k: int| 0 <= k < i ==> s@[k] != sep,
        decreases s.len() - i,
    {
        r.push(s[i]);
        i = i + 1;
        assert(r@ =~= s@.subrange(0, i as int));
    }
    proof {
        lemma_before_first_prefix(s@, sep, i as int);
        let rest = s@.subrange(i as int, s@.len() as int);
        assert(before_first(rest, sep) =~= Seq::<char>::empty());
        assert(r@ + Seq::<char>::empty() =~= r@);
    }
    r
}

/// The JSON text of an object whose keys are given already in ascending order and whose values
/// are already JSON text: `{"k1":v1,"k2":v2}`.
pub open spec fn json_object_text(fields: Seq<(Seq<char>, Seq<char>)>) -> Seq<char> {
    seq!['{'] + json_members(fields) + seq!['}']
}

pub open spec fn json_member(field: (Seq<char>, Seq<char>)) -> Seq<char> {
    seq!['"'] + field.0 + seq!['"', ':'] + field.1
}

pub open spec fn json_members(fields: Seq<(Seq<char>, Seq<char>)>) -> Seq<char>
    decreases fields.len(),
{
    if fields.len() == 0 {
        Seq::empty()
    } else if fields.len() == 1 {
        json_member(fields[0])
    } else {
        json_members(fields.drop_last()) + seq![','] + json_member(fields.last())
    }
}

/// The JSON text `null`.
pub open spec fn json_null() -> Seq<char> {
    seq!['n', 'u', 'l', 'l']
}

/// The JSON text of a boolean.
pub open spec fn json_bool(b: bool) -> Seq<char> {
    if b {
        seq!['t', 'r', 'u', 'e']
    } else {
        seq!['f', 'a', 'l', 's', 'e']
    }
}

pub fn json_bool_text(b: bool) -> (r: String)
    ensures
        r@ == json_bool(b),
{
    proof {
        reveal_strlit("true");
        reveal_strlit("false");
    }
    if b {
        text("true")
    } else {
        text("false")
    }
}

pub fn json_null_text() -> (r: String)
    ensures
        r@ == json_null(),
{
    proof {
        reveal_strlit("null");
    }
    text("null")
}

/// Assemble a JSON object from keys (in ascending order) and JSON-text values.
pub fn json_object(keys: &Vec<&str>, values: &Vec<String>) -> (r: String)
    requires
        keys.len() == values.len(),
    ensures
        r@ == json_object_text(
            Seq::new(keys.len() as nat, |i: int| (keys@[i]@, values@[i]@)),
        ),
{
    let ghost fields = Seq::new(keys.len() as nat, |i: int| (keys@[i]@, values@[i]@));
    let mut body = String::new();
    let mut i: usize = 0;
    while i < keys.len()
        invariant
            keys.len() == values.len(),
            i <= keys.len(),
            fields == Seq::new(keys.len() as nat, |i: int| (keys@[i]@, values@[i]@)),
            body@ == json_members(fields.subrange(0, i as int)),
        decreases keys.len() - i,
    {
        proof {
            reveal_strlit(",");
            reveal_strlit("\"");
            reveal_strlit("\":");
        }
        if i > 0 {
            body.append(",");
        }
        body.append("\"");
        body.append(keys[i]);
        body.append("\":");
        body.append(values[i].as_str());
        proof {
            let prev = fields.subrange(0, i as int);
            let next = fields.subrange(0, i + 1);
            assert(next.drop_last() =~= prev);
            assert(next.last() == fields[i as int]);
            if i == 0 {
                assert(prev.len() == 0);
            }
        }
        i = i + 1;
    }
    proof {
        reveal_strlit("{");
        reveal_strlit("}");
        assert(fields.subrange(0, keys.len() as int) =~= fields);
    }
    let mut r = text("{");
    r.append(body.as_str());
    r.append("}");
    r
}

} // verus!
