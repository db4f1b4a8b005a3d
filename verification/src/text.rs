//! Character-level text helpers shared by the rest of the library:
//! decimal rendering, substring search, literal comparison, decimal
//! parsing, and the std lowercase function whose result the library names.
use vstd::prelude::*;

verus! {

broadcast use vstd::string::group_string_axioms;

/// The characters of `s`, one by one.
pub fn chars_vec(s: &str) -> (v: Vec<char>)
    ensures
        v@ == s@,
{
    let mut v: Vec<char> = Vec::new();
    for c in it: s.chars()
        invariant
            v@ == it.seq().take(it.index()),
            it.seq() == s@,
    {
        v.push(c);
    }
    v
}

/// The character of the decimal digit `d`.
pub open spec fn digit_char(d: int) -> char {
    if d == 0 { '0' }
    else if d == 1 { '1' }
    else if d == 2 { '2' }
    else if d == 3 { '3' }
    else if d == 4 { '4' }
    else if d == 5 { '5' }
    else if d == 6 { '6' }
    else if d == 7 { '7' }
    else if d == 8 { '8' }
    else { '9' }
}

/// The decimal rendering of `n`, without sign or leading zeros.
pub open spec fn decimal(n: nat) -> Seq<char>
    decreases n,
{
    if n < 10 {
        seq![digit_char(n as int)]
    } else {
        decimal(n / 10) + seq![digit_char((n % 10) as int)]
    }
}

/// `needle` occurs in `hay` starting at position `i`.
pub open spec fn matches_at(hay: Seq<char>, needle: Seq<char>, i: int) -> bool {
    &&& 0 <= i
    &&& i + needle.len() <= hay.len()
    &&& hay.subrange(i, i + needle.len()) == needle
}

/// The first position at or after `i` where `needle` occurs in `hay`.
pub open spec fn find_from(hay: Seq<char>, needle: Seq<char>, i: nat) -> Option<nat>
    decreases hay.len() + 1 - i,
{
    if i + needle.len() > hay.len() {
        None
    } else if matches_at(hay, needle, i as int) {
        Some(i)
    } else {
        find_from(hay, needle, i + 1)
    }
}

/// The first position where `needle` occurs in `hay`.
pub open spec fn first_index_of(hay: Seq<char>, needle: Seq<char>) -> Option<nat> {
    find_from(hay, needle, 0)
}

/// `needle` occurs somewhere in `hay`.
pub open spec fn contains_text(hay: Seq<char>, needle: Seq<char>) -> bool {
    exists|i: int| matches_at(hay, needle, i)
}

/// What `find_from` returns is a match, and no earlier position from `i` on matches.
pub proof fn lemma_find_from(hay: Seq<char>, needle: Seq<char>, i: nat)
    ensures
        find_from(hay, needle, i) matches Some(p) ==> {
            &&& i <= p
            &&& matches_at(hay, needle, p as int)
            &&& forall|j: int| i <= j < p ==> !matches_at(hay, needle, j)
        },
        find_from(hay, needle, i) is None ==> forall|j: int| i <= j ==> !matches_at(hay, needle, j),
    decreases hay.len() + 1 - i,
{
    if i + needle.len() > hay.len() {
    } else if matches_at(hay, needle, i as int) {
    } else {
        lemma_find_from(hay, needle, i + 1);
    }
}

/// A needle occurs in a text exactly when a first occurrence exists.
pub proof fn lemma_contains_iff_found(hay: Seq<char>, needle: Seq<char>)
    ensures
        contains_text(hay, needle) <==> first_index_of(hay, needle) is Some,
{
    lemma_find_from(hay, needle, 0);
    if let Some(p) = first_index_of(hay, needle) {
        assert(matches_at(hay, needle, p as int));
    }
}

/// The text of the digit `d`.
fn digit_text(d: u64) -> (s: &'static str)
    requires
        d < 10,
    ensures
        s@ == seq![digit_char(d as int)],
{
    proof {
        reveal_strlit("0");
        reveal_strlit("1");
        reveal_strlit("2");
        reveal_strlit("3");
        reveal_strlit("4");
        reveal_strlit("5");
        reveal_strlit("6");
        reveal_strlit("7");
        reveal_strlit("8");
        reveal_strlit("9");
    }
    if d == 0 { "0" }
    else if d == 1 { "1" }
    else if d == 2 { "2" }
    else if d == 3 { "3" }
    else if d == 4 { "4" }
    else if d == 5 { "5" }
    else if d == 6 { "6" }
    else if d == 7 { "7" }
    else if d == 8 { "8" }
    else { "9" }
}

/// Appends the decimal rendering of `n` to `out`.
pub fn push_decimal(out: &mut String, n: u64)
    ensures
        final(out)@ == old(out)@ + decimal(n as nat),
    decreases n,
{
    if n >= 10 {
        push_decimal(out, n / 10);
    }
    out.append(digit_text(n % 10));
    assert(final(out)@ == old(out)@ + decimal(n as nat)) by {
        if n >= 10 {
            assert(decimal(n as nat) == decimal((n / 10) as nat) + seq![digit_char((n % 10) as int)]);
        }
    }
}

/// Whether `needle` occurs in `hay` at position `i`.
fn matches_at_exec(hay: &Vec<char>, needle: &Vec<char>, i: usize) -> (r: bool)
    requires
        i + needle@.len() <= hay@.len(),
    ensures
        r == matches_at(hay@, needle@, i as int),
{
    let hay_len = hay.len();
    let mut k: usize = 0;
    while k < needle.len()
        invariant
            k <= needle@.len(),
            i + needle@.len() <= hay@.len(),
            hay@.len() == hay_len,
            hay@.subrange(i as int, i + k) == needle@.subrange(0, k as int),
        decreases needle@.len() - k,
    {
        if hay[i + k] != needle[k] {
            assert(hay@.subrange(i as int, i + needle@.len())[k as int] != needle@[k as int]);
            return false;
        }
        assert(hay@.subrange(i as int, i + k + 1) == hay@.subrange(i as int, i + k).push(hay@[i + k]));
        assert(needle@.subrange(0, k + 1) == needle@.subrange(0, k as int).push(needle@[k as int]));
        k = k + 1;
    }
    assert(needle@.subrange(0, needle@.len() as int) == needle@);
    true
}

/// The first position where `needle` occurs in `hay`.
pub fn find_chars(hay: &Vec<char>, needle: &Vec<char>) -> (r: Option<usize>)
    ensures
        match r {
            Some(p) => first_index_of(hay@, needle@) == Some(p as nat),
            None => first_index_of(hay@, needle@) is None,
        },
{
    let mut i: usize = 0;
    if needle.len() > hay.len() {
        return None;
    }
    let last = hay.len() - needle.len();
    loop
        invariant
            last + needle@.len() == hay@.len(),
            i <= last,
            first_index_of(hay@, needle@) == find_from(hay@, needle@, i as nat),
        decreases last - i,
    {
        if matches_at_exec(hay, needle, i) {
            return Some(i);
        }
        if i == last {
            assert(find_from(hay@, needle@, (i + 1) as nat) is None);
            return None;
        }
        i = i + 1;
    }
}

/// Whether `needle` occurs anywhere in `hay`.
pub fn contains_chars(hay: &Vec<char>, needle: &Vec<char>) -> (r: bool)
    ensures
        r == contains_text(hay@, needle@),
{
    proof {
        lemma_contains_iff_found(hay@, needle@);
    }
    find_chars(hay, needle).is_some()
}

/// Whether two texts are equal.
pub fn same_text(a: &str, b: &str) -> (r: bool)
    ensures
        r == (a@ == b@),
{
    let x = a.to_owned();
    let y = b.to_owned();
    x == y
}

/// An owned copy of `s`.
pub fn owned(s: &str) -> (r: String)
    ensures
        r@ == s@,
{
    s.to_owned()
}

/// The concatenation of `a` and `b`.
pub fn joined(a: &str, b: &str) -> (r: String)
    ensures
        r@ == a@ + b@,
{
    let mut r = a.to_owned();
    r.append(b);
    r
}

/// `c` is a decimal digit.
pub open spec fn is_digit(c: char) -> bool {
    '0' as int <= c as int <= '9' as int
}

/// The value of the decimal digit `c`.
pub open spec fn digit_value(c: char) -> nat {
    (c as int - '0' as int) as nat
}

/// The value of the decimal digits `s`.
pub open spec fn digits_value(s: Seq<char>) -> nat
    decreases s.len(),
{
    if s.len() == 0 {
        0
    } else {
        digits_value(s.drop_last()) * 10 + digit_value(s.last())
    }
}

/// `s` without a leading `+` sign.
pub open spec fn unsigned_digits(s: Seq<char>) -> Seq<char> {
    if s.len() > 0 && s[0] == '+' { s.drop_first() } else { s }
}

/// The number that `usize::from_str` reads from `s`, as its documentation
/// describes it: an optional `+` sign followed by one or more decimal digits,
/// whose value fits in a `usize`; anything else is no number.
pub open spec fn usize_text_value(s: Seq<char>) -> Option<usize> {
    let body = unsigned_digits(s);
    if body.len() > 0 && (forall|i: int| 0 <= i < body.len() ==> is_digit(body[i]))
        && digits_value(body) <= usize::MAX {
        Some(digits_value(body) as usize)
    } else {
        None
    }
}

proof fn lemma_digits_value_grows(s: Seq<char>, k: int)
    requires
        0 <= k <= s.len(),
    ensures
        digits_value(s.take(k)) <= digits_value(s),
    decreases s.len(),
{
    if k < s.len() {
        assert(s.drop_last().take(k) =~= s.take(k));
        lemma_digits_value_grows(s.drop_last(), k);
    } else {
        assert(s.take(k) =~= s);
    }
}

/// Reads a `usize` from `s` as `usize::from_str` does.
pub fn parse_usize(s: &str) -> (r: Option<usize>)
    ensures
        r == usize_text_value(s@),
{
    let v = chars_vec(s);
    let n = v.len();
    let start: usize = if n > 0 && v[0] == '+' { 1 } else { 0 };
    let ghost body = unsigned_digits(s@);
    assert(body =~= s@.subrange(start as int, n as int));
    if start == n {
        return None;
    }
    let mut acc: usize = 0;
    let mut i: usize = start;
    while i < n
        invariant
            start <= i <= n,
            n == v@.len(),
            v@ == s@,
            body == s@.subrange(start as int, n as int),
            body == unsigned_digits(s@),
            forall|j: int| 0 <= j < i - start ==> is_digit(body[j]),
            acc == digits_value(body.take(i - start)),
        decreases n - i,
    {
        let c = v[i];
        if !('0' <= c && c <= '9') {
            assert(!is_digit(body[i - start]));
            assert(!(forall|j: int| 0 <= j < body.len() ==> is_digit(body[j])));
            return None;
        }
        let d = ((c as u32) - ('0' as u32)) as usize;
        assert(body.take(i - start + 1).drop_last() =~= body.take(i - start));
        assert(body.take(i - start + 1).last() == c);
        assert(d == digit_value(c));
        assert(digits_value(body.take(i - start + 1)) == acc * 10 + d);
        match acc.checked_mul(10) {
            Some(t) => match t.checked_add(d) {
                Some(u) => {
                    acc = u;
                },
                None => {
                    proof {
                        lemma_digits_value_grows(body, i - start + 1);
                    }
                    return None;
                },
            },
            None => {
                proof {
                    lemma_digits_value_grows(body, i - start + 1);
                }
                return None;
            },
        }
        i = i + 1;
    }
    assert(body.take(n - start) =~= body);
    Some(acc)
}

/// What `str::to_lowercase` gives for a text: the Unicode lowercase mapping,
/// character by character but for a final capital sigma, whose lowercase
/// depends on its neighbours; it takes tables to state.
pub uninterp spec fn lowercase(s: Seq<char>) -> Seq<char>;

/// Calls `str::to_lowercase`; its result is `lowercase` of the argument, a
/// function of the text alone.
#[verifier::external_body]
pub(crate) fn to_lowercase(s: &str) -> (r: String)
    ensures
        r@ == lowercase(s@),
{
    s.to_lowercase()
}

} // verus!
