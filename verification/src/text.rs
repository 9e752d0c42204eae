//! Text: number formatting, substring search and replacement, and the decoding
//! of what other programs print.

use vstd::prelude::*;
use vstd::string::StrSliceExecFns;
use vstd::string::StringExecFns;

verus! {

/// The character that stands for one digit, in lower case above nine.
pub open spec fn digit_char(d: nat) -> char {
    if d < 10 {
        (('0' as u32) + d) as char
    } else {
        (('a' as u32) + (d - 10)) as char
    }
}

/// A number written in a base, most significant digit first, without leading
/// zeros.
pub open spec fn digits(n: nat, base: nat) -> Seq<char>
    recommends
        2 <= base <= 16,
    decreases n,
{
    if n < base || base < 2 {
        seq![digit_char(n)]
    } else {
        proof {
            vstd::arithmetic::div_mod::lemma_div_decreases(n as int, base as int);
        }
        digits(n / base, base).push(digit_char(n % base))
    }
}

/// A number in decimal.
pub open spec fn decimal_of(n: nat) -> Seq<char> {
    digits(n, 10)
}

/// A number in lower case hexadecimal.
pub open spec fn hex_of(n: nat) -> Seq<char> {
    digits(n, 16)
}

/// Whether one text occurs in another at a place.
pub open spec fn occurs_at(s: Seq<char>, pattern: Seq<char>, at: int) -> bool {
    0 <= at && at + pattern.len() <= s.len() && s.subrange(at, at + pattern.len() as int) == pattern
}

/// Whether one text occurs in another.
pub open spec fn contains_text(s: Seq<char>, pattern: Seq<char>) -> bool {
    exists|at: int| occurs_at(s, pattern, at)
}

/// The text with every occurrence of `from` replaced by `to`, found from the
/// left and without overlap.
pub open spec fn replaced(s: Seq<char>, from: Seq<char>, to: Seq<char>) -> Seq<char>
    decreases s.len(),
{
    if from.len() == 0 || s.len() < from.len() {
        s
    } else if occurs_at(s, from, 0) {
        to + replaced(s.skip(from.len() as int), from, to)
    } else {
        seq![s[0]] + replaced(s.skip(1), from, to)
    }
}

proof fn lemma_digit_char_injective(a: nat, b: nat)
    requires
        a < 16,
        b < 16,
        digit_char(a) == digit_char(b),
    ensures
        a == b,
{
}

/// Different numbers are written differently.
pub proof fn law_digits_injective(n: nat, m: nat, base: nat)
    requires
        2 <= base <= 16,
        digits(n, base) == digits(m, base),
    ensures
        n == m,
    decreases n,
{
    lemma_digits_nonempty(n / base, base);
    lemma_digits_nonempty(m / base, base);
    if n < base && m < base {
        assert(digits(n, base) == seq![digit_char(n)]);
        assert(digits(m, base) == seq![digit_char(m)]);
        assert(digits(n, base)[0] == digit_char(n));
        assert(digits(m, base)[0] == digit_char(m));
        lemma_digit_char_injective(n, m);
    } else if n >= base && m >= base {
        let a = digits(n / base, base);
        let b = digits(m / base, base);
        assert(digits(n, base) == a.push(digit_char(n % base)));
        assert(digits(m, base) == b.push(digit_char(m % base)));
        assert(digits(n, base).last() == digit_char(n % base));
        assert(digits(m, base).last() == digit_char(m % base));
        vstd::arithmetic::div_mod::lemma_mod_bound(n as int, base as int);
        vstd::arithmetic::div_mod::lemma_mod_bound(m as int, base as int);
        lemma_digit_char_injective(n % base, m % base);
        assert(digits(n, base).drop_last() =~= a);
        assert(digits(m, base).drop_last() =~= b);
        vstd::arithmetic::div_mod::lemma_div_decreases(n as int, base as int);
        law_digits_injective(n / base, m / base, base);
        vstd::arithmetic::div_mod::lemma_fundamental_div_mod(n as int, base as int);
        vstd::arithmetic::div_mod::lemma_fundamental_div_mod(m as int, base as int);
    } else if n < base {
        assert(digits(n, base).len() == 1);
        assert(digits(m, base).len() == digits(m / base, base).len() + 1);
    } else {
        assert(digits(m, base).len() == 1);
        assert(digits(n, base).len() == digits(n / base, base).len() + 1);
    }
}

/// A number is written with at least one digit.
pub proof fn lemma_digits_nonempty(n: nat, base: nat)
    ensures
        digits(n, base).len() > 0,
{
}

/// A text in which `from` does not occur is left as it is.
pub proof fn law_replace_absent(s: Seq<char>, from: Seq<char>, to: Seq<char>)
    requires
        !contains_text(s, from),
    ensures
        replaced(s, from, to) == s,
    decreases s.len(),
{
    if from.len() > 0 && s.len() >= from.len() {
        assert(!occurs_at(s, from, 0));
        let rest = s.skip(1);
        assert forall|at: int| !occurs_at(rest, from, at) by {
            if occurs_at(rest, from, at) {
                assert(s.subrange(at + 1, at + 1 + from.len()) =~= rest.subrange(
                    at,
                    at + from.len(),
                ));
                assert(occurs_at(s, from, at + 1));
            }
        }
        law_replace_absent(rest, from, to);
        assert(s =~= seq![s[0]] + rest);
    }
}

/// The text of one digit.
fn digit_text(d: u64) -> (r: &'static str)
    requires
        d < 16,
    ensures
        r@ == seq![digit_char(d as nat)],
{
    proof {
        reveal_strlit("0");
        reveal_strlit("1");
        reveal_strlit("2");
        reveal_strlit("3");
        reveal_strlit("4");
        reveal_strlit("5");
        reveal_strlit("6");
        reveal_strlit("7");
        reveal_strlit("8");
        reveal_strlit("9");
        reveal_strlit("a");
        reveal_strlit("b");
        reveal_strlit("c");
        reveal_strlit("d");
        reveal_strlit("e");
        reveal_strlit("f");
    }
    match d {
        0 => "0",
        1 => "1",
        2 => "2",
        3 => "3",
        4 => "4",
        5 => "5",
        6 => "6",
        7 => "7",
        8 => "8",
        9 => "9",
        10 => "a",
        11 => "b",
        12 => "c",
        13 => "d",
        14 => "e",
        _ => "f",
    }
}

fn digits_text(n: u64, base: u64) -> (r: String)
    requires
        2 <= base <= 16,
    ensures
        r@ == digits(n as nat, base as nat),
    decreases n,
{
    if n < base {
        digit_text(n).to_string()
    } else {
        proof {
            vstd::arithmetic::div_mod::lemma_div_decreases(n as int, base as int);
        }
        let mut text = digits_text(n / base, base);
        text.append(digit_text(n % base));
        assert(text@ =~= digits(n as nat, base as nat));
        text
    }
}

/// Writes a number in decimal.
pub fn decimal(n: u64) -> (r: String)
    ensures
        r@ == decimal_of(n as nat),
{
    digits_text(n, 10)
}

/// Writes a number in lower case hexadecimal.
pub fn hex(n: u64) -> (r: String)
    ensures
        r@ == hex_of(n as nat),
{
    digits_text(n, 16)
}

/// Whether two texts are the same.
pub fn same_text(a: &str, b: &str) -> (r: bool)
    ensures
        r == (a@ == b@),
{
    a.to_string() == b.to_string()
}

/// The characters of a text.
fn chars_of(s: &str) -> (r: Vec<char>)
    ensures
        r@ == s@,
{
    let mut chars: Vec<char> = Vec::new();
    for c in it: s.chars()
        invariant
            chars@.len() == it.index(),
            it.seq() == s@,
            forall|i: int| 0 <= i < chars@.len() ==> chars@[i] == it.seq()[i],
    {
        chars.push(c);
    }
    assert(chars@ =~= s@);
    chars
}

/// Whether `pattern` stands in `s` at `at`.
fn matches_at(s: &Vec<char>, pattern: &Vec<char>, at: usize) -> (r: bool)
    requires
        at <= s@.len(),
    ensures
        r == occurs_at(s@, pattern@, at as int),
{
    let len: usize = s.len();
    if pattern.len() > len - at {
        return false;
    }
    let mut i: usize = 0;
    while i < pattern.len()
        invariant
            i <= pattern@.len(),
            len == s@.len(),
            at + pattern@.len() <= s@.len(),
            forall|j: int| 0 <= j < i ==> s@[at + j] == pattern@[j],
        decreases pattern@.len() - i,
    {
        if s[at + i] != pattern[i] {
            assert(s@.subrange(at as int, at + pattern@.len() as int)[i as int] != pattern@[i as int]);
            return false;
        }
        i = i + 1;
    }
    assert(s@.subrange(at as int, at + pattern@.len() as int) =~= pattern@);
    true
}

/// Whether `pattern` occurs in `s`.
pub fn contains(s: &str, pattern: &str) -> (r: bool)
    ensures
        r == contains_text(s@, pattern@),
{
    let text: Vec<char> = chars_of(s);
    let wanted: Vec<char> = chars_of(pattern);
    let mut at: usize = 0;
    while at < text.len()
        invariant
            at <= text@.len(),
            text@ == s@,
            wanted@ == pattern@,
            forall|j: int| 0 <= j < at ==> !occurs_at(text@, wanted@, j),
        decreases text@.len() - at,
    {
        if matches_at(&text, &wanted, at) {
            return true;
        }
        at = at + 1;
    }
    let last: bool = matches_at(&text, &wanted, at);
    assert(forall|j: int| j > text@.len() ==> !occurs_at(text@, wanted@, j));
    last
}

/// Replaces every occurrence of `from` by `to`.
pub fn replace_all(s: &str, from: &str, to: &str) -> (r: String)
    requires
        from@.len() > 0,
    ensures
        r@ == replaced(s@, from@, to@),
{
    let text: Vec<char> = chars_of(s);
    let wanted: Vec<char> = chars_of(from);
    let mut result: String = String::new();
    let mut at: usize = 0;
    assert(s@.skip(0) =~= s@);
    while at < text.len()
        invariant
            at <= text@.len(),
            text@ == s@,
            wanted@ == from@,
            from@.len() > 0,
            result@ + replaced(s@.skip(at as int), from@, to@) == replaced(s@, from@, to@),
        decreases text@.len() - at,
    {
        let ghost rest = s@.skip(at as int);
        let ghost before = result@;
        if matches_at(&text, &wanted, at) {
            proof {
                assert(rest.subrange(0, from@.len() as int) =~= s@.subrange(
                    at as int,
                    at + from@.len() as int,
                ));
                assert(rest.skip(from@.len() as int) =~= s@.skip(at + from@.len() as int));
            }
            result.append(to);
            at = at + wanted.len();
            assert(result@ + replaced(s@.skip(at as int), from@, to@) =~= before + replaced(
                rest,
                from@,
                to@,
            ));
        } else {
            proof {
                if occurs_at(rest, from@, 0) {
                    assert(rest.subrange(0, from@.len() as int) =~= s@.subrange(
                        at as int,
                        at + from@.len() as int,
                    ));
                }
                assert(rest.skip(1) =~= s@.skip(at + 1));
                if rest.len() < from@.len() {
                    assert(rest =~= seq![rest[0]] + rest.skip(1));
                }
            }
            result.append(s.substring_char(at, at + 1));
            at = at + 1;
            assert(s@.subrange(at - 1, at as int) =~= seq![rest[0]]);
            assert(result@ + replaced(s@.skip(at as int), from@, to@) =~= before + replaced(
                rest,
                from@,
                to@,
            ));
        }
    }
    assert(s@.skip(at as int) =~= Seq::<char>::empty());
    assert(result@ =~= replaced(s@, from@, to@));
    result
}

/// The text that `String::from_utf8_lossy` decodes from bytes.
pub uninterp spec fn lossy_text(bytes: Seq<u8>) -> Seq<char>;

/// Calls `String::from_utf8_lossy`. The result is a function of the bytes;
/// bytes that are valid UTF-8 decode to the text that they encode. How the
/// replacement characters stand for invalid bytes is left unsaid.
#[verifier::external_body]
pub(crate) fn decode_lossy(bytes: &Vec<u8>) -> (r: String)
    ensures
        r@ == lossy_text(bytes@),
        vstd::utf8::valid_utf8(bytes@) ==> r@ == vstd::utf8::decode_utf8(bytes@),
{
    String::from_utf8_lossy(bytes).into_owned()
}

/// The text that `str::to_lowercase` makes of a text.
pub uninterp spec fn lowercase_text(s: Seq<char>) -> Seq<char>;

/// Calls `str::to_lowercase`. The result is a function of the text: the Unicode
/// lower case mapping, which is left unsaid.
#[verifier::external_body]
pub(crate) fn to_lowercase(s: &str) -> (r: String)
    ensures
        r@ == lowercase_text(s@),
{
    s.to_lowercase()
}

} // verus!
