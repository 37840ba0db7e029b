//! Character-level helpers on strings, each stated over the string's view.

use vstd::prelude::*;
use vstd::std_specs::iter::IteratorSpec;
use vstd::string::*;

verus! {

/// The view of an optional string.
pub open spec fn option_text(text: Option<&str>) -> Option<Seq<char>> {
    match text {
        Some(t) => Some(t@),
        None => None,
    }
}

/// `text` is not empty and its last character is `c`.
pub open spec fn ends_with_char(text: Seq<char>, c: char) -> bool {
    text.len() > 0 && text.last() == c
}

/// What is left of `text` once the leading `prefix` is taken away; `None`
/// where `text` does not start with `prefix`.
pub open spec fn without_prefix(text: Seq<char>, prefix: Seq<char>) -> Option<Seq<char>> {
    if prefix.is_prefix_of(text) {
        Some(text.skip(prefix.len() as int))
    } else {
        None
    }
}

/// `text` without any of the characters `c` at its end.
pub open spec fn without_trailing(text: Seq<char>, c: char) -> Seq<char>
    decreases text.len(),
{
    if text.len() > 0 && text.last() == c {
        without_trailing(text.drop_last(), c)
    } else {
        text
    }
}

/// The character that stands for the digit `d`.
pub open spec fn digit_char(d: int) -> char {
    if d == 0 {
        '0'
    } else if d == 1 {
        '1'
    } else if d == 2 {
        '2'
    } else if d == 3 {
        '3'
    } else if d == 4 {
        '4'
    } else if d == 5 {
        '5'
    } else if d == 6 {
        '6'
    } else if d == 7 {
        '7'
    } else if d == 8 {
        '8'
    } else {
        '9'
    }
}

/// The decimal numeral of `n`, without leading zeros.
pub open spec fn decimal(n: nat) -> Seq<char>
    decreases n,
{
    if n < 10 {
        seq![digit_char(n as int)]
    } else {
        decimal(n / 10).push(digit_char((n % 10) as int))
    }
}

/// Cutting `text` after its first `keep` characters removes exactly its
/// trailing run of `c`, provided the run starts at `keep`.
pub proof fn lemma_without_trailing_is_take(text: Seq<char>, c: char, keep: int)
    requires
        0 <= keep <= text.len(),
        forall|j: int| keep <= j < text.len() ==> text[j] == c,
        keep > 0 ==> text[keep - 1] != c,
    ensures
        without_trailing(text, c) == text.take(keep),
    decreases text.len() - keep,
{
    if keep == text.len() {
        assert(text.take(keep) =~= text);
    } else {
        let shorter = text.drop_last();
        lemma_without_trailing_is_take(shorter, c, keep);
        assert(shorter.take(keep) =~= text.take(keep));
    }
}

/// The digit that the character `c` stands for.
pub open spec fn digit_value(c: char) -> nat {
    if c == '1' {
        1
    } else if c == '2' {
        2
    } else if c == '3' {
        3
    } else if c == '4' {
        4
    } else if c == '5' {
        5
    } else if c == '6' {
        6
    } else if c == '7' {
        7
    } else if c == '8' {
        8
    } else if c == '9' {
        9
    } else {
        0
    }
}

/// The number that the decimal numeral `digits` stands for.
pub open spec fn numeral_value(digits: Seq<char>) -> nat
    decreases digits.len(),
{
    if digits.len() == 0 {
        0
    } else {
        numeral_value(digits.drop_last()) * 10 + digit_value(digits.last())
    }
}

/// The character is one of the ten digits.
pub open spec fn is_digit(c: char) -> bool {
    c == digit_char(digit_value(c) as int)
}

/// `digits` is a decimal numeral: one digit or more, and nothing else.
pub open spec fn is_numeral(digits: Seq<char>) -> bool {
    digits.len() > 0 && forall|i: int| 0 <= i < digits.len() ==> is_digit(#[trigger] digits[i])
}

/// The number that `text` writes in decimal, where it writes one: a
/// numeral, with or without a `+` in front of it.
pub open spec fn decimal_value(text: Seq<char>) -> Option<nat> {
    let digits = if text.len() > 0 && text[0] == '+' {
        text.skip(1)
    } else {
        text
    };
    if is_numeral(digits) {
        Some(numeral_value(digits))
    } else {
        None
    }
}

/// The number that `text` writes in decimal, where it writes one that a
/// `usize` can hold.
pub open spec fn decimal_usize(text: Seq<char>) -> Option<usize> {
    match decimal_value(text) {
        Some(value) => if value <= usize::MAX {
            Some(value as usize)
        } else {
            None
        },
        None => None,
    }
}

/// The start of a numeral stands for no more than the numeral.
pub proof fn lemma_numeral_value_grows(digits: Seq<char>, n: int)
    requires
        0 <= n <= digits.len(),
    ensures
        numeral_value(digits.take(n)) <= numeral_value(digits),
    decreases digits.len() - n,
{
    if n == digits.len() {
        assert(digits.take(n) =~= digits);
    } else {
        lemma_numeral_value_grows(digits, n + 1);
        assert(digits.take(n + 1).drop_last() =~= digits.take(n));
    }
}

/// The decimal numeral of `n` stands for `n`, and is read back as `n`. It
/// has a digit, and it starts with `0` only where `n` is 0.
pub proof fn lemma_decimal_reads_back(n: nat)
    ensures
        numeral_value(decimal(n)) == n,
        is_numeral(decimal(n)),
        decimal_value(decimal(n)) == Some(n),
        decimal(n).len() >= 1,
        n > 0 ==> decimal(n)[0] != '0',
    decreases n,
{
    let d = if n < 10 {
        n
    } else {
        n % 10
    };
    assert(digit_value(digit_char(d as int)) == d);
    assert(decimal(n).last() == digit_char(d as int));
    if n < 10 {
        assert(decimal(n).drop_last() =~= Seq::empty());
        assert(numeral_value(decimal(n).drop_last()) == 0);
    } else {
        lemma_decimal_reads_back(n / 10);
        assert(decimal(n).drop_last() =~= decimal(n / 10));
        assert(decimal(n)[0] == decimal(n / 10)[0]);
        assert forall|i: int| 0 <= i < decimal(n).len() implies is_digit(
            #[trigger] decimal(n)[i],
        ) by {
            if i < decimal(n).len() - 1 {
                assert(decimal(n)[i] == decimal(n / 10)[i]);
            }
        }
    }
    assert(is_digit(decimal(n)[0]));
}

/// `prefix` can be taken away from `text` exactly when `text` is `prefix`
/// with something behind it, and that is what is left.
pub proof fn lemma_without_prefix_undoes_concat(
    text: Seq<char>,
    prefix: Seq<char>,
    rest: Seq<char>,
)
    ensures
        without_prefix(text, prefix) == Some(rest) <==> text == prefix + rest,
{
    if prefix.is_prefix_of(text) {
        assert(text =~= prefix + text.skip(prefix.len() as int));
    }
    if text == prefix + rest {
        assert(text.subrange(0, prefix.len() as int) =~= prefix);
        assert(text.skip(prefix.len() as int) =~= rest);
    }
}

/// What is left without the trailing `c` is the start of `text` and does
/// not end with `c`, and nothing but `c` was taken away.
pub proof fn lemma_without_trailing_is_clean(text: Seq<char>, c: char)
    ensures
        without_trailing(text, c).is_prefix_of(text),
        !ends_with_char(without_trailing(text, c), c),
        forall|i: int| without_trailing(text, c).len() <= i < text.len() ==> text[i] == c,
    decreases text.len(),
{
    if text.len() > 0 && text.last() == c {
        lemma_without_trailing_is_clean(text.drop_last(), c);
        let kept = without_trailing(text, c);
        assert(kept =~= text.subrange(0, kept.len() as int));
        assert forall|i: int| kept.len() <= i < text.len() implies text[i] == c by {
            if i < text.len() - 1 {
                assert(text[i] == text.drop_last()[i]);
            }
        }
    } else {
        assert(text =~= text.subrange(0, text.len() as int));
    }
}

/// Whether `text` ends with the character `c`.
pub fn ends_with(text: &str, c: char) -> (r: bool)
    ensures
        r == ends_with_char(text@, c),
{
    let n: usize = text.unicode_len();
    n > 0 && text.get_char(n - 1) == c
}

/// Removes `prefix` from the front of `text`, or returns `None` where `text`
/// does not start with it.
pub fn strip_prefix<'a>(text: &'a str, prefix: &str) -> (r: Option<&'a str>)
    ensures
        option_text(r) == without_prefix(text@, prefix@),
{
    let total: usize = text.unicode_len();
    let mut rest = text.chars();
    let mut wanted = prefix.chars();
    let mut matched: usize = 0;
    loop
        invariant
            total == text@.len(),
            matched <= total,
            matched <= prefix@.len(),
            rest.remaining() == text@.skip(matched as int),
            wanted.remaining() == prefix@.skip(matched as int),
            text@.take(matched as int) == prefix@.take(matched as int),
        decreases prefix@.len() - matched,
    {
        match wanted.next() {
            None => {
                assert(prefix@.take(matched as int) =~= prefix@);
                assert(text@.take(matched as int) =~= text@.subrange(0, prefix@.len() as int));
                return Some(text.substring_char(matched, total));
            },
            Some(w) => {
                match rest.next() {
                    None => {
                        return None;
                    },
                    Some(c) => {
                        if c != w {
                            assert(text@[matched as int] != prefix@[matched as int]);
                            return None;
                        }
                        assert(text@.take(matched + 1) =~= text@.take(matched as int).push(c));
                        assert(prefix@.take(matched + 1) =~= prefix@.take(matched as int).push(w));
                        assert(text@.skip(matched as int).drop_first() =~= text@.skip(matched + 1));
                        assert(prefix@.skip(matched as int).drop_first() =~= prefix@.skip(
                            matched + 1,
                        ));
                        matched = matched + 1;
                    },
                }
            },
        }
    }
}

/// Removes every character `c` from the end of `text`.
pub fn trim_end<'a>(text: &'a str, c: char) -> (r: &'a str)
    ensures
        r@ == without_trailing(text@, c),
{
    let total: usize = text.unicode_len();
    let mut rest = text.chars();
    let mut seen: usize = 0;
    let mut keep: usize = 0;
    loop
        invariant
            total == text@.len(),
            keep <= seen <= total,
            rest.remaining() == text@.skip(seen as int),
            forall|j: int| keep <= j < seen ==> text@[j] == c,
            keep > 0 ==> text@[keep - 1] != c,
        decreases total - seen,
    {
        match rest.next() {
            None => {
                proof {
                    lemma_without_trailing_is_take(text@, c, keep as int);
                }
                return text.substring_char(0, keep);
            },
            Some(found) => {
                assert(text@.skip(seen as int).drop_first() =~= text@.skip(seen + 1));
                seen = seen + 1;
                if found != c {
                    keep = seen;
                }
            },
        }
    }
}

/// The one-character string of the digit `d`.
fn digit_text(d: usize) -> (r: &'static str)
    requires
        d < 10,
    ensures
        r@ == seq![digit_char(d as int)],
{
    proof {
        reveal_strlit("0");
        reveal_strlit("1");
        reveal_strlit("2");
        reveal_strlit("3");
        reveal_strlit("4");
        reveal_strlit("5");
        reveal_strlit("6");
        reveal_strlit("7");
        reveal_strlit("8");
        reveal_strlit("9");
    }
    let r: &'static str = if d == 0 {
        "0"
    } else if d == 1 {
        "1"
    } else if d == 2 {
        "2"
    } else if d == 3 {
        "3"
    } else if d == 4 {
        "4"
    } else if d == 5 {
        "5"
    } else if d == 6 {
        "6"
    } else if d == 7 {
        "7"
    } else if d == 8 {
        "8"
    } else {
        "9"
    };
    assert(r@ =~= seq![digit_char(d as int)]);
    r
}

/// Writes `n` in decimal.
pub fn decimal_text(n: usize) -> (r: String)
    ensures
        r@ == decimal(n as nat),
    decreases n,
{
    if n < 10 {
        String::from_str(digit_text(n))
    } else {
        let mut r = decimal_text(n / 10);
        r.append(digit_text(n % 10));
        assert(r@ =~= decimal((n / 10) as nat).push(digit_char((n % 10) as int)));
        r
    }
}

/// The digit that `c` stands for, where it is one.
fn digit_of(c: char) -> (r: Option<usize>)
    ensures
        r == if is_digit(c) {
            Some(digit_value(c) as usize)
        } else {
            None
        },
{
    if c == '0' {
        Some(0)
    } else if c == '1' {
        Some(1)
    } else if c == '2' {
        Some(2)
    } else if c == '3' {
        Some(3)
    } else if c == '4' {
        Some(4)
    } else if c == '5' {
        Some(5)
    } else if c == '6' {
        Some(6)
    } else if c == '7' {
        Some(7)
    } else if c == '8' {
        Some(8)
    } else if c == '9' {
        Some(9)
    } else {
        None
    }
}

/// Reads a number written in decimal. A `+` may stand in front of the
/// digits, nothing else may stand anywhere, and a number too large for a
/// `usize` is no number.
pub fn parse_decimal(text: &str) -> (r: Option<usize>)
    ensures
        r == decimal_usize(text@),
{
    let total: usize = text.unicode_len();
    let mut rest = text.chars();
    let mut seen: usize = 0;
    let mut first: usize = 0;
    let mut value: usize = 0;
    let ghost mut digits: Seq<char> = text@;
    loop
        invariant
            total == text@.len(),
            first <= seen <= total,
            first <= 1,
            rest.remaining() == text@.skip(seen as int),
            first == 1 ==> text@[0] == '+',
            first == 0 && seen > 0 ==> text@[0] != '+',
            digits == text@.skip(first as int),
            value == numeral_value(digits.take(seen - first)),
            forall|i: int| 0 <= i < seen - first ==> is_digit(#[trigger] digits[i]),
        decreases total - seen,
    {
        match rest.next() {
            None => {
                assert(digits.take(seen - first) =~= digits);
                assert(text@.skip(0) =~= text@);
                if seen == first {
                    return None;
                }
                return Some(value);
            },
            Some(c) => {
                assert(text@.skip(seen as int).drop_first() =~= text@.skip(seen + 1));
                if seen == 0 && c == '+' {
                    first = 1;
                    seen = 1;
                    proof {
                        digits = text@.skip(1);
                        assert(digits.take(0) =~= Seq::empty());
                    }
                } else {
                    assert(digits[seen - first] == c);
                    match digit_of(c) {
                        None => {
                            return None;
                        },
                        Some(d) => {
                            proof {
                                assert(digits.take(seen - first + 1).drop_last() =~= digits.take(
                                    seen - first,
                                ));
                                assert(digits.take(seen - first + 1).last() == c);
                            }
                            assert(numeral_value(digits.take(seen - first + 1)) == value * 10
                                + d);
                            if value > (usize::MAX - d) / 10 {
                                proof {
                                    lemma_numeral_value_grows(digits, seen - first + 1);
                                    assert(text@.skip(0) =~= text@);
                                }
                                return None;
                            }
                            value = value * 10 + d;
                            seen = seen + 1;
                        },
                    }
                }
            },
        }
    }
}

} // verus!
