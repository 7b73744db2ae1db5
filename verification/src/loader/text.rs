//! Text handling for the loader's command line, configuration and
//! translation files: comparing words, splitting lines into words, and
//! reading unsigned decimal numbers the way Rust's integer parsing does (an
//! optional `+`, then one or more decimal digits, in range).

use vstd::prelude::*;
use vstd::string::StrSliceExecFns;

verus! {

/// Whether `a` and `b` hold the same characters.
pub fn str_equal(a: &str, b: &str) -> (r: bool)
    ensures
        r == (a@ == b@),
{
    let n = a.unicode_len();
    if n != b.unicode_len() {
        return false;
    }
    let mut i: usize = 0;
    while i < n
        invariant
            n == a@.len(),
            n == b@.len(),
            i <= n,
            forall|j: int| 0 <= j < i ==> a@[j] == b@[j],
        decreases n - i,
    {
        if a.get_char(i) != b.get_char(i) {
            return false;
        }
        i += 1;
    }
    assert(a@ =~= b@);
    true
}

/// Unicode white space (the `White_Space` property), which separates words.
pub open spec fn is_white_space(c: char) -> bool {
    ||| ('\u{9}' <= c && c <= '\u{d}')
    ||| c == ' '
    ||| c == '\u{85}'
    ||| c == '\u{a0}'
    ||| c == '\u{1680}'
    ||| ('\u{2000}' <= c && c <= '\u{200a}')
    ||| c == '\u{2028}'
    ||| c == '\u{2029}'
    ||| c == '\u{202f}'
    ||| c == '\u{205f}'
    ||| c == '\u{3000}'
}

pub fn white_space(c: char) -> (r: bool)
    ensures
        r == is_white_space(c),
{
    ('\u{9}' <= c && c <= '\u{d}') || c == ' ' || c == '\u{85}' || c == '\u{a0}' || c == '\u{1680}'
        || ('\u{2000}' <= c && c <= '\u{200a}') || c == '\u{2028}' || c == '\u{2029}' || c
        == '\u{202f}' || c == '\u{205f}' || c == '\u{3000}'
}

/// The words of `s` from position `i` on, the current word having started
/// at `start` (`start == i` when no word is open): maximal runs of
/// characters that are not white space.
pub open spec fn words_from(s: Seq<char>, start: int, i: int) -> Seq<Seq<char>>
    decreases s.len() - i,
{
    if i >= s.len() {
        if start < i {
            seq![s.subrange(start, i)]
        } else {
            Seq::empty()
        }
    } else if is_white_space(s[i]) {
        if start < i {
            seq![s.subrange(start, i)] + words_from(s, i + 1, i + 1)
        } else {
            words_from(s, i + 1, i + 1)
        }
    } else {
        words_from(s, start, i + 1)
    }
}

/// The words of `s`, separated by white space.
pub open spec fn words_of(s: Seq<char>) -> Seq<Seq<char>> {
    words_from(s, 0, 0)
}

/// Splits `line` into its words.
pub fn split_whitespace(line: &str) -> (r: Vec<String>)
    ensures
        r.deep_view() == words_of(line@),
{
    let n = line.unicode_len();
    let mut words: Vec<String> = Vec::new();
    let mut start: usize = 0;
    let mut i: usize = 0;
    while i < n
        invariant
            n == line@.len(),
            start <= i <= n,
            words.deep_view() + words_from(line@, start as int, i as int) == words_of(line@),
        decreases n - i,
    {
        let c = line.get_char(i);
        if white_space(c) {
            if start < i {
                let word = line.substring_char(start, i).to_owned();
                proof {
                    assert(words.deep_view().push(word@) =~= words.deep_view() + seq![line@.subrange(start as int, i as int)]);
                    assert(words.deep_view() + seq![line@.subrange(start as int, i as int)] + words_from(line@, i + 1, i + 1)
                        =~= words.deep_view() + (seq![line@.subrange(start as int, i as int)] + words_from(line@, i + 1, i + 1)));
                }
                words.push(word);
            }
            start = i + 1;
        }
        i += 1;
    }
    if start < n {
        let word = line.substring_char(start, n).to_owned();
        proof {
            assert(words.deep_view().push(word@) =~= words.deep_view() + seq![line@.subrange(start as int, n as int)]);
        }
        words.push(word);
    } else {
        assert(words.deep_view() + Seq::<Seq<char>>::empty() =~= words.deep_view());
    }
    words
}

pub open spec fn is_digit(c: char) -> bool {
    '0' <= c && c <= '9'
}

/// The value of a string of decimal digits.
pub open spec fn digits_value(s: Seq<char>) -> int
    decreases s.len(),
{
    if s.len() == 0 {
        0
    } else {
        digits_value(s.drop_last()) * 10 + (s.last() as int - '0' as int)
    }
}

/// `s` without a leading `+`.
pub open spec fn unsigned_digits(s: Seq<char>) -> Seq<char> {
    if s.len() > 0 && s[0] == '+' {
        s.subrange(1, s.len() as int)
    } else {
        s
    }
}

/// The unsigned number `s` spells, if it is one not above `max`: an
/// optional `+`, then one or more decimal digits.
pub open spec fn parsed_unsigned(s: Seq<char>, max: int) -> Option<int> {
    let d = unsigned_digits(s);
    if d.len() > 0 && (forall|i: int| 0 <= i < d.len() ==> is_digit(#[trigger] d[i]))
        && digits_value(d) <= max {
        Some(digits_value(d))
    } else {
        None
    }
}

/// A parsed number lies between 0 and the bound.
pub proof fn lemma_parsed_in_range(s: Seq<char>, max: int)
    ensures
        parsed_unsigned(s, max) matches Some(v) ==> 0 <= v <= max,
{
    let d = unsigned_digits(s);
    if d.len() > 0 && (forall|i: int| 0 <= i < d.len() ==> is_digit(#[trigger] d[i])) {
        lemma_digits_value_nonnegative(d);
    }
}

/// Numbers are read in decimal: a single digit is its value, and a digit
/// written after a number without a sign multiplies it by ten and adds the
/// digit.
pub proof fn lemma_decimal_digits(d: Seq<char>, c: char, max: int)
    requires
        is_digit(c),
    ensures
        c as int - '0' as int <= max ==> parsed_unsigned(seq![c], max) == Some(c as int - '0' as int),
        ({
            let v = parsed_unsigned(d, max);
            (v is Some && d[0] != '+' && v->0 * 10 + (c as int - '0' as int) <= max) ==> parsed_unsigned(
                d.push(c),
                max,
            ) == Some(v->0 * 10 + (c as int - '0' as int))
        }),
{
    let one = seq![c];
    assert(unsigned_digits(one) =~= one);
    assert(one.drop_last() =~= Seq::<char>::empty());
    assert(digits_value(one.drop_last()) == 0);
    assert(digits_value(one) == c as int - '0' as int);
    assert(forall|i: int| 0 <= i < one.len() ==> is_digit(#[trigger] one[i]));
    let v = parsed_unsigned(d, max);
    if v is Some && d[0] != '+' {
        let e = d.push(c);
        assert(unsigned_digits(d) == d);
        assert(unsigned_digits(e) =~= e);
        assert(e.drop_last() =~= d);
        assert(forall|i: int| 0 <= i < e.len() ==> is_digit(#[trigger] e[i])) by {
            assert forall|i: int| 0 <= i < e.len() implies is_digit(#[trigger] e[i]) by {
                if i < d.len() {
                    assert(e[i] == d[i]);
                }
            }
        }
    }
}

proof fn lemma_digits_value_grows(s: Seq<char>, k: int)
    requires
        0 <= k <= s.len(),
        forall|i: int| 0 <= i < s.len() ==> is_digit(#[trigger] s[i]),
    ensures
        digits_value(s.subrange(0, k)) <= digits_value(s),
        digits_value(s) >= 0,
    decreases s.len() - k,
{
    if k < s.len() {
        lemma_digits_value_grows(s, k + 1);
        assert(s.subrange(0, k + 1).drop_last() =~= s.subrange(0, k));
        assert(is_digit(s[k]));
    } else {
        assert(s.subrange(0, k) =~= s);
        lemma_digits_value_nonnegative(s);
    }
}

proof fn lemma_digits_value_nonnegative(s: Seq<char>)
    requires
        forall|i: int| 0 <= i < s.len() ==> is_digit(#[trigger] s[i]),
    ensures
        digits_value(s) >= 0,
    decreases s.len(),
{
    if s.len() > 0 {
        assert(is_digit(s[s.len() - 1]));
        lemma_digits_value_nonnegative(s.drop_last());
    }
}

/// Reads an unsigned decimal number not above `max`.
pub fn parse_unsigned(s: &str, max: u64) -> (r: Option<u64>)
    ensures
        r == (match parsed_unsigned(s@, max as int) {
            Some(v) => Some(v as u64),
            None => None::<u64>,
        }),
{
    let n = s.unicode_len();
    let mut i: usize = 0;
    if n > 0 && s.get_char(0) == '+' {
        i = 1;
    }
    let ghost d = unsigned_digits(s@);
    assert(d =~= s@.subrange(i as int, n as int));
    if i == n {
        return None;
    }
    let first = i;
    let mut value: u64 = 0;
    while i < n
        invariant
            n == s@.len(),
            d == unsigned_digits(s@),
            d == s@.subrange(first as int, n as int),
            first < n,
            first <= i <= n,
            forall|j: int| first <= j < i ==> is_digit(#[trigger] s@[j]),
            value == digits_value(s@.subrange(first as int, i as int)),
            value <= max,
        decreases n - i,
    {
        let c = s.get_char(i);
        if !('0' <= c && c <= '9') {
            proof {
                assert(d[i - first] == c);
                assert(!is_digit(d[i - first]));
            }
            return None;
        }
        let digit = (c as u32 - '0' as u32) as u64;
        proof {
            assert(s@.subrange(first as int, i + 1).drop_last() =~= s@.subrange(first as int, i as int));
        }
        if digit > max || value > (max - digit) / 10 {
            proof {
                assert(digits_value(s@.subrange(first as int, i + 1)) == value * 10 + digit);
                assert(value * 10 + digit > max) by (nonlinear_arith)
                    requires
                        digit > max || value > (max - digit) / 10,
                        max >= 0,
                        digit >= 0,
                        value >= 0,
                ;
                let tail = s@.subrange(first as int, n as int);
                if forall|j: int| 0 <= j < tail.len() ==> is_digit(#[trigger] tail[j]) {
                    lemma_digits_value_grows(tail, i + 1 - first);
                    assert(tail.subrange(0, i + 1 - first) =~= s@.subrange(first as int, i + 1));
                }
            }
            return None;
        }
        value = value * 10 + digit;
        i += 1;
    }
    proof {
        assert(s@.subrange(first as int, n as int) == d);
        assert forall|j: int| 0 <= j < d.len() implies is_digit(#[trigger] d[j]) by {
            assert(d[j] == s@[first + j]);
        }
    }
    Some(value)
}

} // verus!
