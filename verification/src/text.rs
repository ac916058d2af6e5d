//! Text, as the rest of the crate needs it: decimal numbers, searching, trimming.
//!
//! Positions count characters, not bytes.
use vstd::prelude::*;
use vstd::string::*;

verus! {

// ------------------------------------------------------------ decimal numbers

/// The decimal digit for `d`.
pub open spec fn digit(d: nat) -> Seq<char> {
    if d == 0 {
        "0"@
    } else if d == 1 {
        "1"@
    } else if d == 2 {
        "2"@
    } else if d == 3 {
        "3"@
    } else if d == 4 {
        "4"@
    } else if d == 5 {
        "5"@
    } else if d == 6 {
        "6"@
    } else if d == 7 {
        "7"@
    } else if d == 8 {
        "8"@
    } else {
        "9"@
    }
}

/// `n` written in decimal, without sign, separators or leading zeros.
pub open spec fn decimal(n: nat) -> Seq<char>
    decreases n,
{
    if n < 10 {
        digit(n)
    } else {
        decimal(n / 10) + digit(n % 10)
    }
}

fn digit_text(d: u64) -> (s: &'static str)
    requires
        d < 10,
    ensures
        s@ == digit(d as nat),
{
    if d == 0 {
        "0"
    } else if d == 1 {
        "1"
    } else if d == 2 {
        "2"
    } else if d == 3 {
        "3"
    } else if d == 4 {
        "4"
    } else if d == 5 {
        "5"
    } else if d == 6 {
        "6"
    } else if d == 7 {
        "7"
    } else if d == 8 {
        "8"
    } else {
        "9"
    }
}

/// Writes `n` in decimal.
pub fn decimal_text(n: u64) -> (s: String)
    ensures
        s@ == decimal(n as nat),
    decreases n,
{
    if n < 10 {
        digit_text(n).to_string()
    } else {
        let mut s = decimal_text(n / 10);
        s.append(digit_text(n % 10));
        s
    }
}

// ------------------------------------------------------------ whole texts

/// Whether two texts hold the same characters.
pub fn same_text(a: &str, b: &str) -> (same: bool)
    ensures
        same == (a@ == b@),
{
    a.to_string() == b.to_string()
}

/// The characters of `s`, in order.
pub fn chars_of(s: &str) -> (cs: Vec<char>)
    ensures
        cs@ == s@,
{
    let mut cs: Vec<char> = Vec::new();
    for c in it: s.chars()
        invariant
            cs@.len() == it.index(),
            it.seq() == s@,
            forall|i: int| 0 <= i < cs@.len() ==> cs@[i] == s@[i],
    {
        cs.push(c);
    }
    cs
}

// ------------------------------------------------------------ searching

/// `needle` stands in `hay` at position `i`.
pub open spec fn occurs_at(hay: Seq<char>, needle: Seq<char>, i: int) -> bool {
    &&& 0 <= i
    &&& i + needle.len() <= hay.len()
    &&& hay.subrange(i, i + needle.len()) == needle
}

/// The first position at or after `from` where `needle` stands in `hay`.
pub open spec fn find_text(hay: Seq<char>, needle: Seq<char>, from: int) -> Option<int>
    decreases hay.len() - from,
{
    if from < 0 || from + needle.len() > hay.len() {
        None
    } else if occurs_at(hay, needle, from) {
        Some(from)
    } else if from < hay.len() {
        find_text(hay, needle, from + 1)
    } else {
        None
    }
}

/// `needle` stands somewhere in `hay`.
pub open spec fn contains(hay: Seq<char>, needle: Seq<char>) -> bool {
    find_text(hay, needle, 0) is Some
}

/// The search finds the first occurrence, and finds one exactly if there is one.
pub proof fn find_text_is_first(hay: Seq<char>, needle: Seq<char>, from: int)
    requires
        0 <= from,
    ensures
        match find_text(hay, needle, from) {
            Some(i) => from <= i && occurs_at(hay, needle, i) && forall|j: int|
                from <= j < i ==> !occurs_at(hay, needle, j),
            None => forall|j: int| from <= j ==> !occurs_at(hay, needle, j),
        },
    decreases hay.len() - from,
{
    if from + needle.len() <= hay.len() && !occurs_at(hay, needle, from) && from < hay.len() {
        find_text_is_first(hay, needle, from + 1);
    }
}

fn occurs_here(hay: &Vec<char>, needle: &Vec<char>, i: usize) -> (b: bool)
    requires
        i + needle@.len() <= hay@.len(),
    ensures
        b == occurs_at(hay@, needle@, i as int),
{
    let len: usize = hay.len();
    let mut k: usize = 0;
    while k < needle.len()
        invariant
            k <= needle@.len(),
            i + needle@.len() <= hay@.len() == len,
            forall|j: int| 0 <= j < k ==> hay@[i + j] == needle@[j],
        decreases needle@.len() - k,
    {
        if hay[i + k] != needle[k] {
            assert(hay@.subrange(i as int, i + needle@.len())[k as int] != needle@[k as int]);
            return false;
        }
        k = k + 1;
    }
    assert(hay@.subrange(i as int, i + needle@.len()) =~= needle@);
    true
}

/// The first position at or after `from` where `needle` stands in `hay`.
pub fn find_chars(hay: &Vec<char>, needle: &str, from: usize) -> (r: Option<usize>)
    ensures
        match r {
            Some(i) => find_text(hay@, needle@, from as int) == Some(i as int) && from <= i && i
                + needle@.len() <= hay@.len(),
            None => find_text(hay@, needle@, from as int) is None,
        },
{
    let pattern = chars_of(needle);
    if pattern.len() > hay.len() || from > hay.len() - pattern.len() {
        return None;
    }
    let last: usize = hay.len() - pattern.len();
    let mut i: usize = from;
    loop
        invariant
            pattern@ == needle@,
            from <= i <= last,
            last + pattern@.len() == hay@.len(),
            find_text(hay@, needle@, from as int) == find_text(hay@, needle@, i as int),
        decreases last - i,
    {
        if occurs_here(hay, &pattern, i) {
            return Some(i);
        }
        if i == last {
            assert(find_text(hay@, needle@, i as int) is None) by {
                reveal_with_fuel(find_text, 2);
            }
            return None;
        }
        i = i + 1;
    }
}

/// Whether `needle` stands somewhere in `hay`.
pub fn text_contains(hay: &str, needle: &str) -> (b: bool)
    ensures
        b == contains(hay@, needle@),
{
    let cs = chars_of(hay);
    find_chars(&cs, needle, 0).is_some()
}

/// The last position of `c` in `s`.
pub open spec fn last_index(s: Seq<char>, c: char) -> Option<int>
    decreases s.len(),
{
    if s.len() == 0 {
        None
    } else if s.last() == c {
        Some(s.len() - 1)
    } else {
        last_index(s.drop_last(), c)
    }
}

/// The last position of `c` among the first `len` characters of `s`.
pub fn rfind_char(s: &Vec<char>, len: usize, c: char) -> (r: Option<usize>)
    requires
        len <= s@.len(),
    ensures
        match r {
            Some(i) => last_index(s@.take(len as int), c) == Some(i as int) && i < len,
            None => last_index(s@.take(len as int), c) is None,
        },
{
    let mut n: usize = len;
    while n > 0
        invariant
            n <= len <= s@.len(),
            last_index(s@.take(len as int), c) == last_index(s@.take(n as int), c),
        decreases n,
    {
        if s[n - 1] == c {
            assert(s@.take(n as int).last() == c);
            return Some(n - 1);
        }
        assert(s@.take(n as int).drop_last() =~= s@.take(n - 1));
        n = n - 1;
    }
    None
}

// ------------------------------------------------------------ trimming

/// The characters that have the Unicode property `White_Space`.
pub open spec fn white_space(c: char) -> bool {
    let u = c as u32;
    ||| 0x9 <= u <= 0xd
    ||| u == 0x20
    ||| u == 0x85
    ||| u == 0xa0
    ||| u == 0x1680
    ||| 0x2000 <= u <= 0x200a
    ||| u == 0x2028
    ||| u == 0x2029
    ||| u == 0x202f
    ||| u == 0x205f
    ||| u == 0x3000
}

/// `char::is_whitespace` of the standard library tells whether a character has the Unicode
/// property `White_Space`. The claim is that this property holds of exactly the characters
/// listed in `white_space`, which are those of the Unicode Character Database.
pub assume_specification[ char::is_whitespace ](c: char) -> (b: bool)
    ensures
        b == white_space(c),
;

/// `s` without the white space at its end.
pub open spec fn trim_end(s: Seq<char>) -> Seq<char>
    decreases s.len(),
{
    if s.len() > 0 && white_space(s.last()) {
        trim_end(s.drop_last())
    } else {
        s
    }
}

/// Trimming takes nothing but white space away, and all of it from the end.
pub proof fn trim_end_is_prefix(s: Seq<char>)
    ensures
        trim_end(s).len() <= s.len(),
        trim_end(s) == s.take(trim_end(s).len() as int),
        trim_end(s).len() > 0 ==> !white_space(trim_end(s).last()),
        forall|i: int| trim_end(s).len() <= i < s.len() ==> white_space(s[i]),
    decreases s.len(),
{
    if s.len() > 0 && white_space(s.last()) {
        trim_end_is_prefix(s.drop_last());
        assert(s.drop_last().take(trim_end(s).len() as int) =~= s.take(trim_end(s).len() as int));
        assert forall|i: int| trim_end(s).len() <= i < s.len() implies white_space(s[i]) by {
            if i < s.len() - 1 {
                assert(s.drop_last()[i] == s[i]);
            }
        }
    } else {
        assert(s.take(s.len() as int) =~= s);
    }
}

/// How many characters of `s` are left once the white space at its end is gone.
pub fn trimmed_len(s: &Vec<char>) -> (n: usize)
    ensures
        n <= s@.len(),
        s@.take(n as int) == trim_end(s@),
{
    let mut n: usize = s.len();
    assert(s@.take(n as int) =~= s@);
    while n > 0
        invariant
            n <= s@.len(),
            trim_end(s@.take(n as int)) == trim_end(s@),
        decreases n,
    {
        if !s[n - 1].is_whitespace() {
            assert(s@.take(n as int).last() == s@[n - 1]);
            return n;
        }
        assert(s@.take(n as int).last() == s@[n - 1]);
        assert(s@.take(n as int).drop_last() =~= s@.take(n - 1));
        n = n - 1;
    }
    n
}

// ------------------------------------------------------------ quoting

/// `s` as `{:?}` shows it: in double quotes, with escapes.
pub uninterp spec fn debug_quoted(s: Seq<char>) -> Seq<char>;

/// `format!("{:?}", s)` of the standard library. The claim is only that what it gives is
/// determined by the characters of `s`; which escapes it uses is left unsaid.
#[verifier::external_body]
pub(crate) fn debug_text(s: &str) -> (r: String)
    ensures
        r@ == debug_quoted(s@),
{
    format!("{:?}", s)
}

/// An optional text as `{:?}` shows it, given how the text itself is shown.
pub open spec fn debug_option(quoted: Option<Seq<char>>) -> Seq<char> {
    match quoted {
        Some(q) => "Some("@ + q + ")"@,
        None => "None"@,
    }
}

/// Shows an optional text, given how the text itself is shown.
pub fn debug_option_text(quoted: Option<String>) -> (r: String)
    ensures
        r@ == debug_option(quoted.deep_view()),
{
    match quoted {
        Some(q) => {
            let mut s = "Some(".to_string();
            s.append(q.as_str());
            s.append(")");
            s
        },
        None => "None".to_string(),
    }
}

// ------------------------------------------------------------ lists of texts

/// A copy of a list of texts.
pub fn copy_texts(v: &Vec<String>) -> (r: Vec<String>)
    ensures
        r.deep_view() == v.deep_view(),
{
    let mut r: Vec<String> = Vec::new();
    let mut i: usize = 0;
    while i < v.len()
        invariant
            i <= v@.len(),
            r@.len() == i,
            forall|j: int| 0 <= j < i ==> r@[j] == v@[j],
        decreases v@.len() - i,
    {
        r.push(v[i].clone());
        i = i + 1;
    }
    assert(r.deep_view() =~= v.deep_view());
    r
}

/// A copy of a list of bytes.
pub fn copy_bytes(v: &Vec<u8>) -> (r: Vec<u8>)
    ensures
        r@ == v@,
{
    let mut r: Vec<u8> = Vec::new();
    let mut i: usize = 0;
    while i < v.len()
        invariant
            i <= v@.len(),
            r@.len() == i,
            forall|j: int| 0 <= j < i ==> r@[j] == v@[j],
        decreases v@.len() - i,
    {
        r.push(v[i]);
        i = i + 1;
    }
    assert(r@ =~= v@);
    r
}

} // verus!
