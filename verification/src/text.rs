//! Character-level helpers shared by the record codec and the validators.
//!
//! Every length in this crate counts characters, never bytes: a field of
//! width 7 holds seven characters whatever their encoding.

use vstd::prelude::*;
use vstd::string::*;

verus! {

/// Whether `c` is one of the ten ASCII decimal digits.
pub open spec fn is_digit_char(c: char) -> bool {
    '0' <= c && c <= '9'
}

/// Whether every character of `s` is an ASCII decimal digit.
pub open spec fn all_digits(s: Seq<char>) -> bool {
    forall|i: int| 0 <= i < s.len() ==> is_digit_char(#[trigger] s[i])
}

/// `n` copies of `c`.
pub open spec fn repeated(c: char, n: nat) -> Seq<char> {
    Seq::new(n, |i: int| c)
}

/// The numeric value of a decimal digit character.
pub open spec fn digit_value(c: char) -> nat {
    (c as nat - '0' as nat) as nat
}

/// The character that writes the digit `d`.
pub open spec fn digit_char(d: nat) -> char
    recommends
        d < 10,
{
    if d == 0 {
        '0'
    } else if d == 1 {
        '1'
    } else if d == 2 {
        '2'
    } else if d == 3 {
        '3'
    } else if d == 4 {
        '4'
    } else if d == 5 {
        '5'
    } else if d == 6 {
        '6'
    } else if d == 7 {
        '7'
    } else if d == 8 {
        '8'
    } else {
        '9'
    }
}

/// The integer that a string of decimal digits writes; leading zeros do not
/// count and the empty string reads as zero.
pub open spec fn decimal_value(s: Seq<char>) -> nat
    decreases s.len(),
{
    if s.len() == 0 {
        0
    } else {
        decimal_value(s.drop_last()) * 10 + digit_value(s.last())
    }
}

/// The shortest decimal writing of `n`.
pub open spec fn decimal_text(n: nat) -> Seq<char>
    decreases n,
{
    if n < 10 {
        seq![digit_char(n)]
    } else {
        decimal_text(n / 10).push(digit_char(n % 10))
    }
}

/// `s` without its leading run of `c`.
pub open spec fn skip_leading(s: Seq<char>, c: char) -> Seq<char>
    decreases s.len(),
{
    if s.len() > 0 && s[0] == c {
        skip_leading(s.drop_first(), c)
    } else {
        s
    }
}

/// `s` with every occurrence of `c` taken out.
pub open spec fn without_char(s: Seq<char>, c: char) -> Seq<char>
    decreases s.len(),
{
    if s.len() == 0 {
        s
    } else if s.last() == c {
        without_char(s.drop_last(), c)
    } else {
        without_char(s.drop_last(), c).push(s.last())
    }
}

/// Whether `c` has the Unicode property White_Space.
pub open spec fn is_white_space(c: char) -> bool {
    ||| ('\u{9}' <= c && c <= '\u{d}')
    ||| c == ' '
    ||| c == '\u{85}'
    ||| c == '\u{a0}'
    ||| c == '\u{1680}'
    ||| ('\u{2000}' <= c && c <= '\u{200a}')
    ||| c == '\u{2028}'
    ||| c == '\u{2029}'
    ||| c == '\u{202f}'
    ||| c == '\u{205f}'
    ||| c == '\u{3000}'
}

/// Whether every character of `s` is white space; true of the empty string.
pub open spec fn all_white_space(s: Seq<char>) -> bool {
    forall|i: int| 0 <= i < s.len() ==> is_white_space(#[trigger] s[i])
}

/// The number of leading white-space characters of `s`.
pub open spec fn leading_white(s: Seq<char>) -> nat
    decreases s.len(),
{
    if s.len() > 0 && is_white_space(s[0]) {
        1 + leading_white(s.drop_first())
    } else {
        0
    }
}

/// The number of trailing white-space characters of `s`.
pub open spec fn trailing_white(s: Seq<char>) -> nat
    decreases s.len(),
{
    if s.len() > 0 && is_white_space(s.last()) {
        1 + trailing_white(s.drop_last())
    } else {
        0
    }
}

/// `s` without its leading and trailing white space.
pub open spec fn trimmed(s: Seq<char>) -> Seq<char> {
    let from = leading_white(s);
    let rest = s.subrange(from as int, s.len() as int);
    rest.subrange(0, rest.len() - trailing_white(rest))
}

/// Reading a digit string gives at least what any of its prefixes reads.
pub proof fn lemma_decimal_value_prefix(s: Seq<char>, k: int)
    requires
        0 <= k <= s.len(),
    ensures
        decimal_value(s.take(k)) <= decimal_value(s),
    decreases s.len() - k,
{
    if k == s.len() {
        assert(s.take(k) =~= s);
    } else {
        lemma_decimal_value_prefix(s, k + 1);
        assert(s.take(k + 1).drop_last() =~= s.take(k));
    }
}

/// A string of `k` digits reads as less than ten to the power `k`; stated
/// here for the widths that the record fields have.
pub proof fn lemma_decimal_value_bound(s: Seq<char>)
    requires
        all_digits(s),
    ensures
        s.len() <= 6 ==> decimal_value(s) < 1_000_000,
        s.len() <= 8 ==> decimal_value(s) < 100_000_000,
        s.len() <= 9 ==> decimal_value(s) < 1_000_000_000,
        s.len() <= 10 ==> decimal_value(s) < 10_000_000_000,
    decreases s.len(),
{
    if s.len() > 0 {
        lemma_decimal_value_bound(s.drop_last());
        assert(is_digit_char(s[s.len() - 1]));
        if s.len() <= 10 {
            lemma_decimal_value_bound_step(s.drop_last());
        }
    }
}

proof fn lemma_decimal_value_bound_step(s: Seq<char>)
    requires
        all_digits(s),
        s.len() <= 9,
    ensures
        s.len() <= 0 ==> decimal_value(s) < 1,
        s.len() <= 1 ==> decimal_value(s) < 10,
        s.len() <= 2 ==> decimal_value(s) < 100,
        s.len() <= 3 ==> decimal_value(s) < 1_000,
        s.len() <= 4 ==> decimal_value(s) < 10_000,
        s.len() <= 5 ==> decimal_value(s) < 100_000,
        s.len() <= 6 ==> decimal_value(s) < 1_000_000,
        s.len() <= 7 ==> decimal_value(s) < 10_000_000,
        s.len() <= 8 ==> decimal_value(s) < 100_000_000,
        s.len() <= 9 ==> decimal_value(s) < 1_000_000_000,
    decreases s.len(),
{
    if s.len() > 0 {
        lemma_decimal_value_bound_step(s.drop_last());
        assert(is_digit_char(s[s.len() - 1]));
    }
}

/// Writing a number and reading it back gives the number.
pub proof fn lemma_decimal_text_value(n: nat)
    ensures
        all_digits(decimal_text(n)),
        decimal_text(n).len() >= 1,
        decimal_value(decimal_text(n)) == n,
    decreases n,
{
    if n < 10 {
        let t = decimal_text(n);
        assert(t.drop_last() =~= Seq::<char>::empty());
        assert(decimal_value(t.drop_last()) == 0);
        assert(t.last() == digit_char(n));
    } else {
        lemma_decimal_text_value(n / 10);
        let t = decimal_text(n);
        assert(t.drop_last() =~= decimal_text(n / 10));
        assert(t.last() == digit_char(n % 10));
        assert forall|i: int| 0 <= i < t.len() implies is_digit_char(#[trigger] t[i]) by {
            if i < t.len() - 1 {
                assert(t[i] == decimal_text(n / 10)[i]);
            }
        }
    }
}

/// The decimal writing of a number below ten to the power `k` has at most
/// `k` characters; stated for the widths that the record fields have.
pub proof fn lemma_decimal_text_len(n: nat)
    ensures
        n < 10 ==> decimal_text(n).len() == 1,
        n < 100 ==> decimal_text(n).len() <= 2,
        n < 1_000 ==> decimal_text(n).len() <= 3,
        n < 10_000 ==> decimal_text(n).len() <= 4,
        n < 100_000 ==> decimal_text(n).len() <= 5,
        n < 1_000_000 ==> decimal_text(n).len() <= 6,
        n < 10_000_000 ==> decimal_text(n).len() <= 7,
        n < 100_000_000 ==> decimal_text(n).len() <= 8,
        n < 1_000_000_000 ==> decimal_text(n).len() <= 9,
        n < 10_000_000_000 ==> decimal_text(n).len() <= 10,
    decreases n,
{
    if n >= 10 {
        lemma_decimal_text_len(n / 10);
    }
}

/// Zeros in front of a digit string do not change what it reads as.
pub proof fn lemma_leading_zeros_value(k: nat, s: Seq<char>)
    ensures
        decimal_value(repeated('0', k) + s) == decimal_value(s),
    decreases s.len(), k,
{
    let z = repeated('0', k);
    if s.len() > 0 {
        lemma_leading_zeros_value(k, s.drop_last());
        assert((z + s).drop_last() =~= z + s.drop_last());
        assert((z + s).last() == s.last());
    } else if k > 0 {
        lemma_leading_zeros_value((k - 1) as nat, s);
        assert(z + s =~= z);
        assert(z.drop_last() =~= repeated('0', (k - 1) as nat) + s);
        assert(z.last() == '0');
    } else {
        assert(z + s =~= s);
    }
}

/// Zeros in front of a digit string leave it a digit string.
pub proof fn lemma_leading_zeros_digits(k: nat, s: Seq<char>)
    requires
        all_digits(s),
    ensures
        all_digits(repeated('0', k) + s),
{
    let t = repeated('0', k) + s;
    assert forall|i: int| 0 <= i < t.len() implies is_digit_char(#[trigger] t[i]) by {
        if i >= k {
            assert(t[i] == s[i - k]);
        }
    }
}

/// Taking a character out of a string that holds no such
/// character changes nothing.
pub proof fn lemma_without_char_absent(s: Seq<char>, c: char)
    requires
        !s.contains(c),
    ensures
        without_char(s, c) == s,
    decreases s.len(),
{
    if s.len() > 0 {
        assert(s[s.len() - 1] != c);
        assert forall|x: char| x == c implies !s.drop_last().contains(x) by {
            if s.drop_last().contains(x) {
                let i = choose|i: int| 0 <= i < s.drop_last().len() && s.drop_last()[i] == x;
                assert(s[i] == x);
            }
        }
        lemma_without_char_absent(s.drop_last(), c);
        assert(s.drop_last().push(s.last()) =~= s);
    }
}

/// The number of characters of `s`.
pub fn char_count(s: &str) -> (n: usize)
    ensures
        n == s@.len(),
{
    s.unicode_len()
}

/// The characters of `s` from position `from` up to, not including, `to`.
pub fn slice_chars(s: &str, from: usize, to: usize) -> (out: String)
    requires
        from <= to <= s@.len(),
    ensures
        out@ == s@.subrange(from as int, to as int),
{
    s.substring_char(from, to).to_owned()
}

/// Whether `i` begins with the character `c`.
pub fn starts_with_char(i: &str, c: char) -> (yes: bool)
    ensures
        yes == (i@.len() > 0 && i@[0] == c),
{
    i.unicode_len() > 0 && i.get_char(0) == c
}

/// Whether `i` ends with the character `c`.
pub fn ends_with_char(i: &str, c: char) -> (yes: bool)
    ensures
        yes == (i@.len() > 0 && i@.last() == c),
{
    let n = i.unicode_len();
    n > 0 && i.get_char(n - 1) == c
}

/// Whether the character `c` occurs in `i`.
pub fn contains_char(i: &str, c: char) -> (yes: bool)
    ensures
        yes == i@.contains(c),
{
    let n = i.unicode_len();
    let mut k: usize = 0;
    while k < n
        invariant
            k <= n,
            n == i@.len(),
            forall|j: int| 0 <= j < k ==> i@[j] != c,
        decreases n - k,
    {
        if i.get_char(k) == c {
            return true;
        }
        k += 1;
    }
    false
}

/// `i` without its leading run of the character `c`.
pub fn trim_start_char(i: &str, c: char) -> (out: String)
    ensures
        out@ == skip_leading(i@, c),
{
    let n = i.unicode_len();
    let mut k: usize = 0;
    assert(i@.subrange(0, n as int) =~= i@);
    while k < n && i.get_char(k) == c
        invariant
            k <= n,
            n == i@.len(),
            skip_leading(i@, c) == skip_leading(i@.subrange(k as int, n as int), c),
        decreases n - k,
    {
        proof {
            let rest = i@.subrange(k as int, n as int);
            assert(rest[0] == c);
            assert(rest.drop_first() =~= i@.subrange(k + 1, n as int));
        }
        k += 1;
    }
    proof {
        let rest = i@.subrange(k as int, n as int);
        if k < n {
            assert(rest[0] != c);
        }
    }
    slice_chars(i, k, n)
}

/// `i` with every occurrence of the character `c` taken out.
pub fn remove_char(i: &str, c: char) -> (out: String)
    ensures
        out@ == without_char(i@, c),
{
    let n = i.unicode_len();
    let mut out = String::new();
    let mut k: usize = 0;
    while k < n
        invariant
            k <= n,
            n == i@.len(),
            out@ == without_char(i@.take(k as int), c),
        decreases n - k,
    {
        proof {
            assert(i@.take(k + 1).drop_last() =~= i@.take(k as int));
            assert(i@.take(k + 1).last() == i@[k as int]);
        }
        if i.get_char(k) != c {
            out.append(i.substring_char(k, k + 1));
            assert(i@.subrange(k as int, k + 1) =~= seq![i@[k as int]]);
            assert(out@ =~= without_char(i@.take(k as int), c).push(i@[k as int]));
        }
        k += 1;
    }
    proof {
        assert(i@.take(n as int) =~= i@);
    }
    out
}

/// Whether `c` has the Unicode property White_Space.
pub fn is_space(c: char) -> (yes: bool)
    ensures
        yes == is_white_space(c),
{
    (c >= '\u{9}' && c <= '\u{d}') || c == ' ' || c == '\u{85}' || c == '\u{a0}' || c
        == '\u{1680}' || (c >= '\u{2000}' && c <= '\u{200a}') || c == '\u{2028}' || c
        == '\u{2029}' || c == '\u{202f}' || c == '\u{205f}' || c == '\u{3000}'
}

/// `i` without its leading and trailing white space.
pub fn trim(i: &str) -> (out: String)
    ensures
        out@ == trimmed(i@),
{
    let n = i.unicode_len();
    let mut from: usize = 0;
    assert(i@.subrange(0, n as int) =~= i@);
    while from < n && is_space(i.get_char(from))
        invariant
            from <= n,
            n == i@.len(),
            leading_white(i@) == from + leading_white(i@.subrange(from as int, n as int)),
        decreases n - from,
    {
        proof {
            let rest = i@.subrange(from as int, n as int);
            assert(is_white_space(rest[0]));
            assert(rest.drop_first() =~= i@.subrange(from + 1, n as int));
        }
        from += 1;
    }
    let ghost rest = i@.subrange(from as int, n as int);
    proof {
        if from < n {
            assert(!is_white_space(rest[0]));
        }
        assert(leading_white(i@) == from);
    }
    let mut to: usize = n;
    assert(rest.take(n - from) =~= rest);
    while to > from && is_space(i.get_char(to - 1))
        invariant
            from <= to <= n,
            n == i@.len(),
            rest == i@.subrange(from as int, n as int),
            trailing_white(rest) == (n - to) + trailing_white(rest.take(to - from)),
        decreases to,
    {
        proof {
            let head = rest.take(to - from);
            assert(head.last() == i@[to - 1]);
            assert(head.drop_last() =~= rest.take(to - 1 - from));
        }
        to -= 1;
    }
    proof {
        let head = rest.take(to - from);
        if to > from {
            assert(head.last() == i@[to - 1]);
        }
        assert(trailing_white(rest) == n - to);
        assert(rest.subrange(0, rest.len() - trailing_white(rest)) =~= i@.subrange(
            from as int,
            to as int,
        ));
    }
    slice_chars(i, from, to)
}

/// The one-character string that writes the digit `d`.
fn digit_str(d: u8) -> (out: &'static str)
    requires
        d < 10,
    ensures
        out@ == seq![digit_char(d as nat)],
{
    proof {
        reveal_strlit("0");
        reveal_strlit("1");
        reveal_strlit("2");
        reveal_strlit("3");
        reveal_strlit("4");
        reveal_strlit("5");
        reveal_strlit("6");
        reveal_strlit("7");
        reveal_strlit("8");
        reveal_strlit("9");
    }
    let out = match d {
        0 => "0",
        1 => "1",
        2 => "2",
        3 => "3",
        4 => "4",
        5 => "5",
        6 => "6",
        7 => "7",
        8 => "8",
        _ => "9",
    };
    assert(out@ =~= seq![digit_char(d as nat)]);
    out
}

/// The shortest decimal writing of `n`.
pub fn number_text(n: u128) -> (out: String)
    ensures
        out@ == decimal_text(n as nat),
    decreases n,
{
    if n < 10 {
        String::from_str(digit_str(n as u8))
    } else {
        let mut out = number_text(n / 10);
        out.append(digit_str((n % 10) as u8));
        assert(out@ =~= decimal_text(n as nat / 10).push(digit_char(n as nat % 10)));
        out
    }
}

/// Reads a string of decimal digits as an integer. `None` where a character
/// is no digit or the value does not fit in 128 bits.
pub fn digits_value(i: &str) -> (out: Option<u128>)
    ensures
        out is Some <==> (all_digits(i@) && decimal_value(i@) <= u128::MAX),
        out is Some ==> out.unwrap() == decimal_value(i@),
{
    let n = i.unicode_len();
    let mut acc: u128 = 0;
    let mut k: usize = 0;
    while k < n
        invariant
            k <= n,
            n == i@.len(),
            all_digits(i@.take(k as int)),
            acc == decimal_value(i@.take(k as int)),
        decreases n - k,
    {
        let c = i.get_char(k);
        proof {
            assert(i@.take(k + 1).drop_last() =~= i@.take(k as int));
            assert(i@.take(k + 1).last() == c);
            lemma_decimal_value_prefix(i@, k + 1);
        }
        if !(c >= '0' && c <= '9') {
            proof {
                assert(!is_digit_char(i@[k as int]));
            }
            return None;
        }
        let d: u128 = (c as u32 - '0' as u32) as u128;
        assert(d == digit_value(c));
        if acc > (u128::MAX - d) / 10 {
            return None;
        }
        acc = acc * 10 + d;
        k += 1;
        proof {
            assert forall|j: int| 0 <= j < k implies is_digit_char(
                #[trigger] i@.take(k as int)[j],
            ) by {
                if j < k - 1 {
                    assert(i@.take(k as int)[j] == i@.take(k - 1)[j]);
                }
            }
        }
    }
    proof {
        assert(i@.take(n as int) =~= i@);
    }
    Some(acc)
}

} // verus!
