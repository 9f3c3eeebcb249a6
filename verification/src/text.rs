//! Character-sequence primitives: substring search, whitespace trimming,
//! prefix stripping and decimal rendering, each with its mathematical
//! definition over `Seq<char>` and an executable counterpart proved equal to it.

use vstd::prelude::*;

verus! {

/// `needle` occurs in `hay` starting at index `at`.
pub open spec fn occurs_at(hay: Seq<char>, needle: Seq<char>, at: int) -> bool {
    &&& 0 <= at
    &&& at + needle.len() <= hay.len()
    &&& hay.subrange(at, at + needle.len()) == needle
}

/// `needle` occurs somewhere in `hay`.  The empty needle occurs in every text.
pub open spec fn contains(hay: Seq<char>, needle: Seq<char>) -> bool {
    exists|at: int| occurs_at(hay, needle, at)
}

/// `prefix` is an initial segment of `hay`.
pub open spec fn starts_with(hay: Seq<char>, prefix: Seq<char>) -> bool {
    occurs_at(hay, prefix, 0)
}

/// Index of the first occurrence of `needle` in `hay` at or after `from`.
pub open spec fn find_from(hay: Seq<char>, needle: Seq<char>, from: int) -> Option<int>
    decreases hay.len() + 1 - from,
{
    if from < 0 || from + needle.len() > hay.len() {
        None
    } else if occurs_at(hay, needle, from) {
        Some(from)
    } else {
        find_from(hay, needle, from + 1)
    }
}

/// Index of the first occurrence of `needle` in `hay`.
pub open spec fn find(hay: Seq<char>, needle: Seq<char>) -> Option<int> {
    find_from(hay, needle, 0)
}

/// What `find_from` returns is the least occurrence not before `from`, and it
/// returns `None` exactly when there is no such occurrence.
pub proof fn lemma_find_from(hay: Seq<char>, needle: Seq<char>, from: int)
    requires
        0 <= from,
    ensures
        match find_from(hay, needle, from) {
            Some(at) => {
                &&& from <= at
                &&& occurs_at(hay, needle, at)
                &&& forall|j: int| from <= j < at ==> !occurs_at(hay, needle, j)
            },
            None => forall|j: int| from <= j ==> !occurs_at(hay, needle, j),
        },
    decreases hay.len() + 1 - from,
{
    if from + needle.len() > hay.len() {
    } else if occurs_at(hay, needle, from) {
    } else {
        lemma_find_from(hay, needle, from + 1);
    }
}

/// `find` succeeds exactly on the texts that contain the needle.
pub proof fn lemma_find_contains(hay: Seq<char>, needle: Seq<char>)
    ensures
        find(hay, needle) is Some <==> contains(hay, needle),
        find(hay, needle) matches Some(at) ==> occurs_at(hay, needle, at) && forall|j: int|
            0 <= j < at ==> !occurs_at(hay, needle, j),
{
    lemma_find_from(hay, needle, 0);
    if contains(hay, needle) {
        let at: int = choose|at: int| occurs_at(hay, needle, at);
        assert(occurs_at(hay, needle, at));
    }
}

/// The characters of a string slice as a vector.
pub fn chars_of(s: &str) -> (v: Vec<char>)
    ensures
        v@ == s@,
{
    let mut v: Vec<char> = Vec::new();
    for c in it: s.chars()
        invariant
            v@ == it.seq().take(it.index() as int),
            it.seq() == s@,
    {
        v.push(c);
    }
    v
}

/// Whether `needle` occurs in `hay` at index `at`.
pub fn matches_at(hay: &Vec<char>, needle: &Vec<char>, at: usize) -> (r: bool)
    ensures
        r == occurs_at(hay@, needle@, at as int),
{
    if needle.len() > hay.len() || at > hay.len() - needle.len() {
        return false;
    }
    let mut k: usize = 0;
    while k < needle.len()
        invariant
            k <= needle.len(),
            at + needle.len() <= hay.len(),
            forall|j: int| 0 <= j < k ==> hay@[at + j] == needle@[j],
        decreases needle.len() - k,
    {
        if hay[at + k] != needle[k] {
            assert(hay@.subrange(at as int, at + needle.len())[k as int] != needle@[k as int]);
            return false;
        }
        k += 1;
    }
    assert(hay@.subrange(at as int, at + needle.len()) =~= needle@);
    true
}

/// Index of the first occurrence of `needle` in `hay`, if there is one.
pub fn find_in(hay: &Vec<char>, needle: &Vec<char>) -> (r: Option<usize>)
    ensures
        match r {
            Some(at) => find(hay@, needle@) == Some(at as int) && at + needle.len() <= hay.len(),
            None => find(hay@, needle@) is None,
        },
{
    if needle.len() > hay.len() {
        return None;
    }
    let last: usize = hay.len() - needle.len();
    let mut i: usize = 0;
    loop
        invariant
            i <= last,
            last == hay.len() - needle.len(),
            find(hay@, needle@) == find_from(hay@, needle@, i as int),
        decreases last - i,
    {
        if matches_at(hay, needle, i) {
            return Some(i);
        }
        if i == last {
            assert(find_from(hay@, needle@, i + 1) is None);
            return None;
        }
        i += 1;
    }
}

/// Whether `hay` contains `needle`.
pub fn contains_in(hay: &Vec<char>, needle: &Vec<char>) -> (r: bool)
    ensures
        r == contains(hay@, needle@),
{
    proof {
        lemma_find_contains(hay@, needle@);
    }
    find_in(hay, needle).is_some()
}

/// Whether a string slice contains the pattern.
pub fn str_contains(s: &str, pattern: &str) -> (r: bool)
    ensures
        r == contains(s@, pattern@),
{
    let hay = chars_of(s);
    let needle = chars_of(pattern);
    contains_in(&hay, &needle)
}

/// Whether a string slice begins with the pattern.
pub fn str_starts_with(s: &str, pattern: &str) -> (r: bool)
    ensures
        r == starts_with(s@, pattern@),
{
    let hay = chars_of(s);
    let needle = chars_of(pattern);
    matches_at(&hay, &needle, 0)
}

/// Whether two string slices hold the same characters.
pub fn str_eq(a: &str, b: &str) -> (r: bool)
    ensures
        r == (a@ == b@),
{
    let x = chars_of(a);
    let y = chars_of(b);
    if x.len() != y.len() {
        return false;
    }
    let r = matches_at(&x, &y, 0);
    proof {
        assert(x@.subrange(0, x@.len() as int) =~= x@);
    }
    r
}

/// The characters that count as white space: the code points of Unicode's
/// `White_Space` property.
pub open spec fn is_whitespace(c: char) -> bool {
    let n: u32 = c as u32;
    ||| 0x09 <= n <= 0x0D
    ||| n == 0x20
    ||| n == 0x85
    ||| n == 0xA0
    ||| n == 0x1680
    ||| 0x2000 <= n <= 0x200A
    ||| n == 0x2028
    ||| n == 0x2029
    ||| n == 0x202F
    ||| n == 0x205F
    ||| n == 0x3000
}

/// `s` without its leading white space.
pub open spec fn trim_start(s: Seq<char>) -> Seq<char>
    decreases s.len(),
{
    if s.len() > 0 && is_whitespace(s[0]) {
        trim_start(s.drop_first())
    } else {
        s
    }
}

/// `s` without its trailing white space.
pub open spec fn trim_end(s: Seq<char>) -> Seq<char>
    decreases s.len(),
{
    if s.len() > 0 && is_whitespace(s.last()) {
        trim_end(s.drop_last())
    } else {
        s
    }
}

/// `s` without leading and trailing white space.
pub open spec fn trim(s: Seq<char>) -> Seq<char> {
    trim_end(trim_start(s))
}

/// `s` is empty or white space only.
pub open spec fn is_blank(s: Seq<char>) -> bool {
    trim(s).len() == 0
}

/// `s` after removing `prefix` from its front as often as it stands there.
/// An empty prefix removes nothing.
pub open spec fn strip_prefixes(s: Seq<char>, prefix: Seq<char>) -> Seq<char>
    decreases s.len(),
{
    if prefix.len() > 0 && starts_with(s, prefix) {
        strip_prefixes(s.skip(prefix.len() as int), prefix)
    } else {
        s
    }
}

/// The text before the first occurrence of `marker`; all of `s` if there is none.
pub open spec fn before_first(s: Seq<char>, marker: Seq<char>) -> Seq<char> {
    match find(s, marker) {
        Some(at) => s.take(at),
        None => s,
    }
}

/// The text after the first occurrence of `marker`; empty if there is none.
pub open spec fn after_first(s: Seq<char>, marker: Seq<char>) -> Seq<char> {
    match find(s, marker) {
        Some(at) => s.skip(at + marker.len()),
        None => Seq::empty(),
    }
}

/// Cutting `k` white-space characters off the front, where the next one is not
/// white space, is `trim_start`.
pub proof fn lemma_trim_start(s: Seq<char>, k: int)
    requires
        0 <= k <= s.len(),
        forall|j: int| 0 <= j < k ==> is_whitespace(s[j]),
        k == s.len() || !is_whitespace(s[k]),
    ensures
        trim_start(s) == s.skip(k),
    decreases k,
{
    if k == 0 {
        assert(s.skip(0) =~= s);
    } else {
        let rest = s.drop_first();
        assert forall|j: int| 0 <= j < k - 1 implies is_whitespace(rest[j]) by {
            assert(rest[j] == s[j + 1]);
        }
        lemma_trim_start(rest, k - 1);
        assert(rest.skip(k - 1) =~= s.skip(k));
    }
}

/// Keeping the first `k` characters, where all after them are white space and
/// the last kept one is not, is `trim_end`.
pub proof fn lemma_trim_end(s: Seq<char>, k: int)
    requires
        0 <= k <= s.len(),
        forall|j: int| k <= j < s.len() ==> is_whitespace(s[j]),
        k == 0 || !is_whitespace(s[k - 1]),
    ensures
        trim_end(s) == s.take(k),
    decreases s.len() - k,
{
    if k == s.len() {
        assert(s.take(k) =~= s);
    } else {
        let rest = s.drop_last();
        lemma_trim_end(rest, k);
        assert(rest.take(k) =~= s.take(k));
    }
}

/// Nothing that `trim` returns begins or ends with white space, and it is a
/// contiguous part of the input.
pub proof fn lemma_trim_is_trimmed(s: Seq<char>)
    ensures
        trim(s).len() > 0 ==> !is_whitespace(trim(s)[0]) && !is_whitespace(trim(s).last()),
        exists|a: int, b: int| 0 <= a <= b <= s.len() && trim(s) == s.subrange(a, b),
        trim(trim(s)) == trim(s),
{
    lemma_trim_start_shape(s);
    let t = trim_start(s);
    lemma_trim_end_shape(t);
    let a: int = s.len() - t.len();
    let b: int = a + trim_end(t).len();
    assert(trim(s) =~= s.subrange(a, b));
    let r = trim(s);
    if r.len() > 0 {
        assert(r[0] == t[0]);
        lemma_trim_start(r, 0);
        assert(r.skip(0) =~= r);
        lemma_trim_end(r, r.len() as int);
        assert(r.take(r.len() as int) =~= r);
    }
}

/// `trim_start` returns a suffix of its input that does not begin with white space.
pub proof fn lemma_trim_start_shape(s: Seq<char>)
    ensures
        trim_start(s).len() <= s.len(),
        trim_start(s) == s.skip(s.len() - trim_start(s).len()),
        trim_start(s).len() > 0 ==> !is_whitespace(trim_start(s)[0]),
    decreases s.len(),
{
    if s.len() > 0 && is_whitespace(s[0]) {
        let rest = s.drop_first();
        lemma_trim_start_shape(rest);
        assert(rest.skip(rest.len() - trim_start(rest).len()) =~= s.skip(
            s.len() - trim_start(rest).len(),
        ));
    } else {
        assert(s.skip(0) =~= s);
    }
}

/// `trim_end` returns a prefix of its input that does not end with white space.
pub proof fn lemma_trim_end_shape(s: Seq<char>)
    ensures
        trim_end(s).len() <= s.len(),
        trim_end(s) == s.take(trim_end(s).len() as int),
        trim_end(s).len() > 0 ==> !is_whitespace(trim_end(s).last()),
        trim_end(s).len() > 0 ==> trim_end(s)[0] == s[0],
    decreases s.len(),
{
    if s.len() > 0 && is_whitespace(s.last()) {
        let rest = s.drop_last();
        lemma_trim_end_shape(rest);
        assert(rest.take(trim_end(rest).len() as int) =~= s.take(trim_end(rest).len() as int));
    } else {
        assert(s.take(s.len() as int) =~= s);
    }
}

/// Whether a character is white space.
pub fn char_is_whitespace(c: char) -> (r: bool)
    ensures
        r == is_whitespace(c),
{
    let n: u32 = c as u32;
    (0x09 <= n && n <= 0x0D) || n == 0x20 || n == 0x85 || n == 0xA0 || n == 0x1680 || (0x2000 <= n
        && n <= 0x200A) || n == 0x2028 || n == 0x2029 || n == 0x202F || n == 0x205F || n == 0x3000
}

/// The bounds of the trimmed part of `chars`: `trim` keeps exactly the
/// characters from `start` up to `end`.
pub fn trim_bounds(chars: &Vec<char>) -> (r: (usize, usize))
    ensures
        r.0 <= r.1 <= chars.len(),
        trim(chars@) == chars@.subrange(r.0 as int, r.1 as int),
{
    let mut start: usize = 0;
    while start < chars.len() && char_is_whitespace(chars[start])
        invariant
            start <= chars.len(),
            forall|j: int| 0 <= j < start ==> is_whitespace(chars@[j]),
        decreases chars.len() - start,
    {
        start += 1;
    }
    let mut end: usize = chars.len();
    while end > start && char_is_whitespace(chars[end - 1])
        invariant
            start <= end <= chars.len(),
            forall|j: int| end <= j < chars.len() ==> is_whitespace(chars@[j]),
        decreases end - start,
    {
        end -= 1;
    }
    proof {
        let s = chars@;
        lemma_trim_start(s, start as int);
        let t = s.skip(start as int);
        lemma_trim_end(t, end - start);
        assert(t.take(end - start) =~= s.subrange(start as int, end as int));
    }
    (start, end)
}

/// The string slice without leading and trailing white space.
pub fn trim_str<'a>(s: &'a str) -> (r: &'a str)
    ensures
        r@ == trim(s@),
{
    let chars = chars_of(s);
    let bounds: (usize, usize) = trim_bounds(&chars);
    s.substring_char(bounds.0, bounds.1)
}

/// Whether the string slice is empty or white space only.
pub fn str_is_blank(s: &str) -> (r: bool)
    ensures
        r == is_blank(s@),
{
    let chars = chars_of(s);
    let bounds: (usize, usize) = trim_bounds(&chars);
    bounds.0 == bounds.1
}

/// The number of characters that `strip_prefixes` removes from the front.
pub fn stripped_offset(hay: &Vec<char>, prefix: &Vec<char>) -> (at: usize)
    ensures
        at <= hay.len(),
        strip_prefixes(hay@, prefix@) == hay@.skip(at as int),
{
    let mut at: usize = 0;
    if prefix.len() == 0 {
        assert(hay@.skip(0) =~= hay@);
        return at;
    }
    assert(hay@.skip(0) =~= hay@);
    while matches_at(hay, prefix, at)
        invariant
            at <= hay.len(),
            prefix.len() > 0,
            strip_prefixes(hay@, prefix@) == strip_prefixes(hay@.skip(at as int), prefix@),
        decreases hay.len() - at,
    {
        proof {
            let rest = hay@.skip(at as int);
            assert(rest.subrange(0, prefix@.len() as int) =~= hay@.subrange(
                at as int,
                at + prefix@.len(),
            ));
            assert(rest.skip(prefix@.len() as int) =~= hay@.skip(at + prefix@.len()));
        }
        at += prefix.len();
    }
    proof {
        let rest = hay@.skip(at as int);
        if at + prefix@.len() <= hay@.len() {
            assert(rest.subrange(0, prefix@.len() as int) =~= hay@.subrange(
                at as int,
                at + prefix@.len(),
            ));
        }
    }
    at
}

/// The decimal digit for `d`, which is below ten.
pub open spec fn digit_char(d: int) -> char {
    if d == 0 {
        '0'
    } else if d == 1 {
        '1'
    } else if d == 2 {
        '2'
    } else if d == 3 {
        '3'
    } else if d == 4 {
        '4'
    } else if d == 5 {
        '5'
    } else if d == 6 {
        '6'
    } else if d == 7 {
        '7'
    } else if d == 8 {
        '8'
    } else {
        '9'
    }
}

/// The decimal numeral of `n`, without sign or leading zeros.
pub open spec fn decimal(n: nat) -> Seq<char>
    decreases n,
{
    if n < 10 {
        seq![digit_char(n as int)]
    } else {
        decimal(n / 10).push(digit_char((n % 10) as int))
    }
}

/// The one-character text of a decimal digit.
fn digit_str(d: u32) -> (r: &'static str)
    requires
        d < 10,
    ensures
        r@ == seq![digit_char(d as int)],
{
    proof {
        reveal_strlit("0");
        reveal_strlit("1");
        reveal_strlit("2");
        reveal_strlit("3");
        reveal_strlit("4");
        reveal_strlit("5");
        reveal_strlit("6");
        reveal_strlit("7");
        reveal_strlit("8");
        reveal_strlit("9");
    }
    let r = if d == 0 {
        "0"
    } else if d == 1 {
        "1"
    } else if d == 2 {
        "2"
    } else if d == 3 {
        "3"
    } else if d == 4 {
        "4"
    } else if d == 5 {
        "5"
    } else if d == 6 {
        "6"
    } else if d == 7 {
        "7"
    } else if d == 8 {
        "8"
    } else {
        "9"
    };
    assert(r@ =~= seq![digit_char(d as int)]);
    r
}

/// The decimal numeral of `n` as a string.
pub fn decimal_string(n: u32) -> (r: String)
    ensures
        r@ == decimal(n as nat),
    decreases n,
{
    if n < 10 {
        String::from_str(digit_str(n))
    } else {
        let mut r = decimal_string(n / 10);
        r.append(digit_str(n % 10));
        assert(r@ =~= decimal((n / 10) as nat).push(digit_char((n % 10) as int)));
        r
    }
}

/// The string slice after removing `prefix` from its front as often as it
/// stands there.
pub fn str_strip_prefixes<'a>(s: &'a str, prefix: &str) -> (r: &'a str)
    ensures
        r@ == strip_prefixes(s@, prefix@),
{
    let hay = chars_of(s);
    let needle = chars_of(prefix);
    let at: usize = stripped_offset(&hay, &needle);
    assert(s@.skip(at as int) =~= s@.subrange(at as int, s@.len() as int));
    s.substring_char(at, hay.len())
}

/// The part of the string slice before the first occurrence of `marker`.
pub fn str_before_first<'a>(s: &'a str, marker: &str) -> (r: &'a str)
    ensures
        r@ == before_first(s@, marker@),
{
    let hay = chars_of(s);
    let needle = chars_of(marker);
    match find_in(&hay, &needle) {
        Some(at) => {
            proof {
                lemma_find_from(s@, marker@, 0);
            }
            assert(s@.take(at as int) =~= s@.subrange(0, at as int));
            s.substring_char(0, at)
        },
        None => {
            assert(s@ =~= s@.subrange(0, s@.len() as int));
            s.substring_char(0, hay.len())
        },
    }
}

/// The part of the string slice after the first occurrence of `marker`.
pub fn str_after_first<'a>(s: &'a str, marker: &str) -> (r: &'a str)
    ensures
        r@ == after_first(s@, marker@),
{
    let hay = chars_of(s);
    let needle = chars_of(marker);
    match find_in(&hay, &needle) {
        Some(at) => {
            proof {
                lemma_find_from(s@, marker@, 0);
            }
            assert(s@.skip(at + marker@.len()) =~= s@.subrange(
                at + marker@.len(),
                s@.len() as int,
            ));
            s.substring_char(at + needle.len(), hay.len())
        },
        None => {
            assert(Seq::<char>::empty() =~= s@.subrange(0, 0));
            s.substring_char(0, 0)
        },
    }
}

} // verus!
