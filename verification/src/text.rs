//! Text primitives of the search: ASCII case folding, substring containment
//! and the decimal rendering of a date key.

use vstd::prelude::*;

verus! {

/// `String::push` of std: the character is appended at the end of the
/// string, and nothing else changes.
pub assume_specification[ String::push ](s: &mut String, ch: char)
    ensures
        final(s)@ == old(s)@.push(ch),
;

/// An ASCII upper-case letter becomes its lower-case form; every other
/// character stays as it is.
pub open spec fn fold_char(c: char) -> char {
    if 'A' <= c && c <= 'Z' {
        ((c as u8 + 32) as u8) as char
    } else {
        c
    }
}

/// A text with every character folded.
pub open spec fn fold(s: Seq<char>) -> Seq<char> {
    Seq::new(s.len(), |i: int| fold_char(s[i]))
}

/// `needle` stands in `hay` at position `at`.
pub open spec fn occurs_at(hay: Seq<char>, needle: Seq<char>, at: int) -> bool {
    &&& 0 <= at
    &&& at + needle.len() <= hay.len()
    &&& hay.subrange(at, at + needle.len()) == needle
}

/// `needle` is a substring of `hay`. The empty text is a substring of every
/// text.
pub open spec fn contains(hay: Seq<char>, needle: Seq<char>) -> bool {
    exists|at: int| occurs_at(hay, needle, at)
}

/// The character of one decimal digit.
pub open spec fn digit_char(d: int) -> char
    recommends
        0 <= d <= 9,
{
    ((48 + d) as u8) as char
}

/// The decimal digits of a natural number, most significant first, without
/// leading zeros.
pub open spec fn digits(n: nat) -> Seq<char>
    decreases n,
{
    if n < 10 {
        seq![digit_char(n as int)]
    } else {
        digits(n / 10).push(digit_char((n % 10) as int))
    }
}

/// The decimal rendering of an integer: a minus sign for a negative number,
/// then the digits of its magnitude.
pub open spec fn decimal(n: int) -> Seq<char> {
    if n < 0 {
        seq!['-'] + digits((-n) as nat)
    } else {
        digits(n as nat)
    }
}

/// Folds one character.
pub fn fold_ascii(c: char) -> (r: char)
    ensures
        r == fold_char(c),
{
    if 'A' <= c && c <= 'Z' {
        let code: u8 = c as u8;
        (code + 32) as char
    } else {
        c
    }
}

/// The folded characters of a text, in a vector that can be indexed.
pub fn fold_text(s: &str) -> (out: Vec<char>)
    ensures
        out@ == fold(s@),
{
    let mut out: Vec<char> = Vec::new();
    for c in it: s.chars()
        invariant
            it.seq() == s@,
            out@ == fold(s@.take(it.index())),
    {
        out.push(fold_ascii(c));
    }
    out
}

/// Whether `needle` stands in `hay` at `at`.
fn matches_at(hay: &Vec<char>, needle: &Vec<char>, at: usize) -> (r: bool)
    requires
        at + needle.len() <= hay.len(),
    ensures
        r == occurs_at(hay@, needle@, at as int),
{
    let mut k: usize = 0;
    while k < needle.len()
        invariant
            k <= needle.len(),
            at + needle.len() <= hay.len(),
            forall|j: int| 0 <= j < k ==> hay@[at + j] == needle@[j],
        decreases needle.len() - k,
    {
        if hay[at + k] != needle[k] {
            assert(hay@.subrange(at as int, at + needle.len())[k as int] != needle@[k as int]);
            return false;
        }
        k += 1;
    }
    assert(hay@.subrange(at as int, at + needle.len()) =~= needle@);
    true
}

/// Whether `needle` is a substring of `hay`.
pub fn find(hay: &Vec<char>, needle: &Vec<char>) -> (r: bool)
    ensures
        r == contains(hay@, needle@),
{
    if needle.len() == 0 {
        assert(hay@.subrange(0, 0) =~= needle@);
        assert(occurs_at(hay@, needle@, 0));
        return true;
    }
    if needle.len() > hay.len() {
        return false;
    }
    let starts: usize = hay.len() - needle.len() + 1;
    let mut at: usize = 0;
    while at < starts
        invariant
            at <= starts,
            starts == hay.len() - needle.len() + 1,
            needle.len() <= hay.len(),
            forall|j: int| 0 <= j < at ==> !occurs_at(hay@, needle@, j),
        decreases starts - at,
    {
        if matches_at(hay, needle, at) {
            return true;
        }
        at += 1;
    }
    false
}

/// The digits that stand before the last one: none for zero.
spec fn leading(m: nat) -> Seq<char> {
    if m == 0 {
        Seq::empty()
    } else {
        digits(m)
    }
}

/// The character of the digit `d`.
fn digit_of(d: u64) -> (c: char)
    requires
        d < 10,
    ensures
        c == digit_char(d as int),
{
    let code: u8 = 48 + (d as u8);
    code as char
}

/// The decimal rendering of a date key, as the store writes it.
pub fn decimal_string(n: i64) -> (out: String)
    ensures
        out@ == decimal(n as int),
{
    let negative: bool = n < 0;
    let magnitude: u64 = if negative {
        ((-(n + 1)) as u64) + 1
    } else {
        n as u64
    };
    let mut low_first: Vec<char> = Vec::new();
    low_first.push(digit_of(magnitude % 10));
    let mut rest: u64 = magnitude / 10;
    assert(digits(magnitude as nat) =~= leading(rest as nat) + low_first@.reverse());
    while rest > 0
        invariant
            low_first.len() > 0,
            digits(magnitude as nat) == leading(rest as nat) + low_first@.reverse(),
        decreases rest,
    {
        let ghost before = low_first@;
        low_first.push(digit_of(rest % 10));
        assert(low_first@.reverse() =~= seq![digit_char((rest % 10) as int)] + before.reverse());
        assert(leading(rest as nat) =~= leading((rest / 10) as nat).push(
            digit_char((rest % 10) as int),
        ));
        rest = rest / 10;
    }
    let mut out: String = String::new();
    if negative {
        out.push('-');
    }
    let ghost sign = out@;
    let mut k: usize = low_first.len();
    while k > 0
        invariant
            k <= low_first.len(),
            out@ == sign + low_first@.reverse().take(low_first.len() - k),
        decreases k,
    {
        k -= 1;
        out.push(low_first[k]);
        assert(low_first@.reverse().take(low_first.len() - k) =~= low_first@.reverse().take(
            low_first.len() - k - 1,
        ).push(low_first@[k as int]));
    }
    assert(low_first@.reverse().take(low_first.len() as int) =~= low_first@.reverse());
    out
}

/// Folding a folded text changes nothing.
pub proof fn lemma_fold_is_idempotent(s: Seq<char>)
    ensures
        fold(fold(s)) == fold(s),
{
    assert(fold(fold(s)) =~= fold(s));
}

/// Folding keeps the length of a text, and folds it character by character.
pub proof fn lemma_fold_is_pointwise(s: Seq<char>)
    ensures
        fold(s).len() == s.len(),
        forall|i: int| 0 <= i < s.len() ==> fold(s)[i] == fold_char(#[trigger] s[i]),
{
}

/// The empty text is a substring of every text.
pub proof fn lemma_empty_is_contained(hay: Seq<char>)
    ensures
        contains(hay, Seq::<char>::empty()),
{
    assert(hay.subrange(0, 0) =~= Seq::<char>::empty());
    assert(occurs_at(hay, Seq::<char>::empty(), 0));
}

/// The digits of a number are digit characters, and there is at least one.
pub proof fn lemma_digits_are_digits(n: nat)
    ensures
        digits(n).len() >= 1,
        forall|i: int|
            0 <= i < digits(n).len() ==> '0' <= (#[trigger] digits(n)[i]) && digits(n)[i] <= '9',
    decreases n,
{
    if n >= 10 {
        lemma_digits_are_digits(n / 10);
    }
}

/// Folding leaves the decimal rendering of a number as it is: it holds no
/// letters.
pub proof fn lemma_decimal_is_folded(n: int)
    ensures
        fold(decimal(n)) == decimal(n),
{
    if n < 0 {
        lemma_digits_are_digits((-n) as nat);
    } else {
        lemma_digits_are_digits(n as nat);
    }
    assert(fold(decimal(n)) =~= decimal(n));
}

/// The number that a sequence of digit characters writes.
pub open spec fn value_of(text: Seq<char>) -> nat
    decreases text.len(),
{
    if text.len() == 0 {
        0
    } else {
        (value_of(text.drop_last()) * 10 + (text.last() as int - 48)) as nat
    }
}

/// Reading the digits of a number gives the number back.
pub proof fn lemma_digits_round_trip(n: nat)
    ensures
        value_of(digits(n)) == n,
    decreases n,
{
    if n < 10 {
        let text = digits(n);
        assert(text.drop_last() =~= Seq::<char>::empty());
        assert(value_of(text.drop_last()) == 0);
    } else {
        lemma_digits_round_trip(n / 10);
        let text = digits(n);
        assert(text.drop_last() =~= digits(n / 10));
    }
}

/// Two different numbers are never written alike: the decimal rendering
/// names one date only.
pub proof fn lemma_decimal_is_injective(a: int, b: int)
    requires
        decimal(a) == decimal(b),
    ensures
        a == b,
{
    let left = if a < 0 { (-a) as nat } else { a as nat };
    let right = if b < 0 { (-b) as nat } else { b as nat };
    lemma_digits_are_digits(left);
    lemma_digits_are_digits(right);
    lemma_digits_round_trip(left);
    lemma_digits_round_trip(right);
    assert(decimal(a)[0] == decimal(b)[0]);
    if a < 0 {
        assert(decimal(a)[0] == '-');
        assert(b < 0) by {
            if b >= 0 {
                assert(decimal(b)[0] == digits(right)[0]);
            }
        }
        assert(digits(left) =~= decimal(a).subrange(1, decimal(a).len() as int));
        assert(digits(right) =~= decimal(b).subrange(1, decimal(b).len() as int));
    } else {
        assert(decimal(a)[0] == digits(left)[0]);
        assert(b >= 0) by {
            if b < 0 {
                assert(decimal(b)[0] == '-');
            }
        }
    }
}

} // verus!
