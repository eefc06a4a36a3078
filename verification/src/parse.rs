//! Reading a guess from one line of text, and writing one back.
//!
//! A line is accepted when, after surrounding white space is removed, it is an
//! optional `+` followed by one or more decimal digits whose value fits in
//! sixteen bits. A guess is written as its decimal numeral, which is read back
//! as the same guess.

use vstd::prelude::*;
use vstd::std_specs::iter::IteratorSpec;
use vstd::string::*;

verus! {

/// The largest value a guess can have.
pub const GUESS_MAX: u16 = 65535;

/// Whether `c` has the Unicode property `White_Space`.
pub open spec fn is_space(c: char) -> bool {
    let n: u32 = c as u32;
    ||| 0x09 <= n <= 0x0D
    ||| n == 0x20
    ||| n == 0x85
    ||| n == 0xA0
    ||| n == 0x1680
    ||| 0x2000 <= n <= 0x200A
    ||| n == 0x2028
    ||| n == 0x2029
    ||| n == 0x202F
    ||| n == 0x205F
    ||| n == 0x3000
}

/// Whether `c` is one of the ten ASCII decimal digits.
pub open spec fn is_digit(c: char) -> bool {
    0x30 <= (c as u32) <= 0x39
}

/// The number that a decimal digit stands for.
pub open spec fn digit_value(c: char) -> nat {
    ((c as u32) - 0x30) as nat
}

/// `s` without its leading white space.
pub open spec fn trim_start(s: Seq<char>) -> Seq<char>
    decreases s.len(),
{
    if s.len() > 0 && is_space(s.first()) {
        trim_start(s.drop_first())
    } else {
        s
    }
}

/// `s` without its trailing white space.
pub open spec fn trim_end(s: Seq<char>) -> Seq<char>
    decreases s.len(),
{
    if s.len() > 0 && is_space(s.last()) {
        trim_end(s.drop_last())
    } else {
        s
    }
}

/// `s` without the white space on either side.
pub open spec fn trimmed(s: Seq<char>) -> Seq<char> {
    trim_end(trim_start(s))
}

/// Whether every character of `s` is white space.
pub open spec fn all_space(s: Seq<char>) -> bool {
    forall|i: int| 0 <= i < s.len() ==> is_space(#[trigger] s[i])
}

/// Whether every character of `s` is a decimal digit.
pub open spec fn all_digits(s: Seq<char>) -> bool {
    forall|i: int| 0 <= i < s.len() ==> is_digit(#[trigger] s[i])
}

/// The number written by the digits `s`, most significant first.
pub open spec fn decimal_value(s: Seq<char>) -> nat
    decreases s.len(),
{
    if s.len() == 0 {
        0
    } else {
        10 * decimal_value(s.drop_last()) + digit_value(s.last())
    }
}

/// The character that writes the digit `d`.
pub open spec fn digit_char(d: nat) -> char {
    (0x30 + d) as char
}

/// The decimal numeral of `n`, without sign or leading zeros.
pub open spec fn decimal_text(n: nat) -> Seq<char>
    decreases n,
{
    if n < 10 {
        seq![digit_char(n)]
    } else {
        decimal_text(n / 10).push(digit_char(n % 10))
    }
}

/// The digits of a numeral: the text after an optional leading `+`.
pub open spec fn unsigned_part(s: Seq<char>) -> Seq<char> {
    if s.len() > 0 && s.first() == '+' {
        s.drop_first()
    } else {
        s
    }
}

/// The value of the numeral `s`, if it is one and fits in sixteen bits.
pub open spec fn numeral_value(s: Seq<char>) -> Option<u16> {
    let digits = unsigned_part(s);
    if digits.len() > 0 && all_digits(digits) && decimal_value(digits) <= GUESS_MAX {
        Some(decimal_value(digits) as u16)
    } else {
        None
    }
}

/// The guess that a raw input line holds, if any.
pub open spec fn parsed_guess(line: Seq<char>) -> Option<u16> {
    numeral_value(trimmed(line))
}

/// Tests a character for white space.
pub fn is_whitespace(c: char) -> (r: bool)
    ensures
        r == is_space(c),
{
    let n: u32 = c as u32;
    (0x09 <= n && n <= 0x0D) || n == 0x20 || n == 0x85 || n == 0xA0 || n == 0x1680 || (0x2000 <= n
        && n <= 0x200A) || n == 0x2028 || n == 0x2029 || n == 0x202F || n == 0x205F || n == 0x3000
}

/// The decimal digit that `c` stands for, if it is one.
pub fn to_digit(c: char) -> (r: Option<u8>)
    ensures
        r.is_some() == is_digit(c),
        r.is_some() ==> r.unwrap() as nat == digit_value(c),
{
    let n: u32 = c as u32;
    if 0x30 <= n && n <= 0x39 {
        Some((n - 0x30) as u8)
    } else {
        None
    }
}

/// The one-character text that writes the digit `d`.
fn digit_str(d: u16) -> (r: &'static str)
    requires
        d < 10,
    ensures
        r@ == seq![digit_char(d as nat)],
{
    proof {
        reveal_strlit("0");
        reveal_strlit("1");
        reveal_strlit("2");
        reveal_strlit("3");
        reveal_strlit("4");
        reveal_strlit("5");
        reveal_strlit("6");
        reveal_strlit("7");
        reveal_strlit("8");
        reveal_strlit("9");
    }
    let r = match d {
        0 => "0",
        1 => "1",
        2 => "2",
        3 => "3",
        4 => "4",
        5 => "5",
        6 => "6",
        7 => "7",
        8 => "8",
        _ => "9",
    };
    assert(r@ =~= seq![digit_char(d as nat)]);
    r
}

/// Writes `n` as a decimal numeral.
pub fn decimal_string(n: u16) -> (r: String)
    ensures
        r@ == decimal_text(n as nat),
    decreases n,
{
    if n < 10 {
        String::from_str(digit_str(n))
    } else {
        let mut text = decimal_string(n / 10);
        text.append(digit_str(n % 10));
        assert(text@ =~= decimal_text(n as nat));
        text
    }
}

/// The characters of `line`, in order.
pub fn chars_of(line: &str) -> (r: Vec<char>)
    ensures
        r@ == line@,
{
    broadcast use {axiom_spec_iter, next_postcondition};

    let mut text: Vec<char> = Vec::new();
    let mut rest = line.chars();
    loop
        invariant
            text@ + rest.remaining() == line@,
            rest.obeys_prophetic_iter_laws(),
        ensures
            text@ == line@,
        decreases line@.len() - text@.len(),
    {
        match rest.next() {
            Some(c) => {
                text.push(c);
                assert(text@ + rest.remaining() =~= line@);
            },
            None => {
                assert(text@ + rest.remaining() =~= text@);
                break ;
            },
        }
    }
    text
}

/// Finds where the trimmed part of `text` begins and ends: everything before
/// the first bound and from the second bound on is white space, and what lies
/// between neither starts nor ends with any.
pub fn trim_bounds(text: &[char]) -> (r: (usize, usize))
    ensures
        r.0 <= r.1 <= text@.len(),
        trimmed(text@) == text@.subrange(r.0 as int, r.1 as int),
        r.0 == text@.len() - trim_start(text@).len(),
        forall|i: int| 0 <= i < r.0 ==> is_space(#[trigger] text@[i]),
        forall|i: int| r.1 <= i < text@.len() ==> is_space(#[trigger] text@[i]),
        r.0 < r.1 ==> !is_space(text@[r.0 as int]) && !is_space(text@[r.1 - 1]),
{
    let n: usize = text.len();
    let ghost s = text@;
    let mut a: usize = 0;
    assert(s.subrange(0, n as int) =~= s);
    while a < n && is_whitespace(text[a])
        invariant
            a <= n,
            n == s.len(),
            s == text@,
            trim_start(s) == trim_start(s.subrange(a as int, n as int)),
            forall|i: int| 0 <= i < a ==> is_space(#[trigger] s[i]),
        decreases n - a,
    {
        proof {
            let t = s.subrange(a as int, n as int);
            assert(t.first() == s[a as int]);
            assert(t.drop_first() =~= s.subrange(a + 1, n as int));
        }
        a += 1;
    }
    let ghost front = s.subrange(a as int, n as int);
    assert(trim_start(s) == front);
    let mut b: usize = n;
    while b > a && is_whitespace(text[b - 1])
        invariant
            a <= b <= n,
            n == s.len(),
            s == text@,
            trim_end(front) == trim_end(s.subrange(a as int, b as int)),
            forall|i: int| b <= i < n ==> is_space(#[trigger] s[i]),
            a < n ==> !is_space(s[a as int]),
        decreases b,
    {
        proof {
            let t = s.subrange(a as int, b as int);
            assert(t.last() == s[b - 1]);
            assert(t.drop_last() =~= s.subrange(a as int, b - 1));
        }
        b -= 1;
    }
    (a, b)
}

/// Reads a guess from the characters of a raw input line.
pub fn parse_chars(text: &[char]) -> (r: Option<u16>)
    ensures
        r == parsed_guess(text@),
{
    let (a, b) = trim_bounds(text);
    let ghost s = text@;
    let ghost body = s.subrange(a as int, b as int);
    if a == b {
        return None;
    }
    let start: usize = if text[a] == '+' {
        a + 1
    } else {
        a
    };
    let ghost digits = s.subrange(start as int, b as int);
    assert(unsigned_part(body) =~= digits);
    if start == b {
        return None;
    }
    let mut acc: u32 = 0;
    let mut k: usize = start;
    while k < b
        invariant
            start <= k <= b <= s.len(),
            s == text@,
            digits == s.subrange(start as int, b as int),
            digits == unsigned_part(trimmed(s)),
            all_digits(s.subrange(start as int, k as int)),
            acc <= GUESS_MAX + 1,
            acc as nat == if decimal_value(s.subrange(start as int, k as int)) > GUESS_MAX {
                (GUESS_MAX + 1) as nat
            } else {
                decimal_value(s.subrange(start as int, k as int))
            },
        decreases b - k,
    {
        let c = text[k];
        proof {
            let next = s.subrange(start as int, k + 1);
            assert(next.last() == c);
            assert(next.drop_last() =~= s.subrange(start as int, k as int));
        }
        match to_digit(c) {
            None => {
                assert(!is_digit(digits[k - start]));
                return None;
            },
            Some(d) => {
                let wide: u32 = acc * 10 + d as u32;
                acc = if wide > GUESS_MAX as u32 {
                    GUESS_MAX as u32 + 1
                } else {
                    wide
                };
            },
        }
        k += 1;
    }
    assert(s.subrange(start as int, k as int) == digits);
    if acc > GUESS_MAX as u32 {
        None
    } else {
        Some(acc as u16)
    }
}

/// Reads a guess from a raw input line.
///
/// Surrounding white space, the line terminator included, is ignored. What is
/// left must be an optional `+` and at least one decimal digit, with a value of
/// at most 65535; anything else gives `None`.
pub fn parse_guess(line: &str) -> (r: Option<u16>)
    ensures
        r == parsed_guess(line@),
{
    let text = chars_of(line);
    parse_chars(text.as_slice())
}

proof fn lemma_trim_start_skips_prefix(space: Seq<char>, text: Seq<char>)
    requires
        all_space(space),
    ensures
        trim_start(space + text) == trim_start(text),
    decreases space.len(),
{
    if space.len() > 0 {
        assert((space + text).first() == space[0]);
        assert((space + text).drop_first() =~= space.drop_first() + text);
        lemma_trim_start_skips_prefix(space.drop_first(), text);
    } else {
        assert(space + text =~= text);
    }
}

proof fn lemma_trim_end_skips_suffix(text: Seq<char>, space: Seq<char>)
    requires
        all_space(space),
    ensures
        trim_end(text + space) == trim_end(text),
    decreases space.len(),
{
    if space.len() > 0 {
        assert((text + space).last() == space[space.len() - 1]);
        assert((text + space).drop_last() =~= text + space.drop_last());
        lemma_trim_end_skips_suffix(text, space.drop_last());
    } else {
        assert(text + space =~= text);
    }
}

proof fn lemma_trim_start_keeps_suffix(text: Seq<char>, space: Seq<char>)
    requires
        all_space(space),
    ensures
        trim_start(text + space) == if trim_start(text).len() > 0 {
            trim_start(text) + space
        } else {
            Seq::<char>::empty()
        },
    decreases text.len(),
{
    if text.len() > 0 {
        assert((text + space).first() == text[0]);
        if is_space(text.first()) {
            assert((text + space).drop_first() =~= text.drop_first() + space);
            lemma_trim_start_keeps_suffix(text.drop_first(), space);
        }
    } else {
        assert(space + text =~= text + space);
        lemma_trim_start_skips_prefix(space, text);
    }
}

/// White space around a text changes neither what is left after trimming nor
/// the guess that is read: a line terminator, blanks or tabs on either side
/// are ignored.
pub proof fn surrounding_space_is_ignored(before: Seq<char>, text: Seq<char>, after: Seq<char>)
    requires
        all_space(before),
        all_space(after),
    ensures
        trimmed(before + text + after) == trimmed(text),
        parsed_guess(before + text + after) == parsed_guess(text),
{
    assert(before + text + after =~= before + (text + after));
    lemma_trim_start_skips_prefix(before, text + after);
    lemma_trim_start_keeps_suffix(text, after);
    if trim_start(text).len() > 0 {
        lemma_trim_end_skips_suffix(trim_start(text), after);
    }
}

/// A line that is nothing but decimal digits is read as the number they
/// write, and is rejected exactly when that number exceeds the largest guess.
pub proof fn digits_are_read_as_their_value(digits: Seq<char>)
    requires
        digits.len() > 0,
        all_digits(digits),
    ensures
        trimmed(digits) == digits,
        parsed_guess(digits) == if decimal_value(digits) <= GUESS_MAX {
            Some(decimal_value(digits) as u16)
        } else {
            None
        },
{
    assert(is_digit(digits[0]));
    assert(is_digit(digits[digits.len() - 1]));
}

/// The numeral of a number consists of digits, at least one, and writes that
/// number.
pub proof fn decimal_text_writes_its_number(n: nat)
    ensures
        decimal_text(n).len() > 0,
        all_digits(decimal_text(n)),
        decimal_value(decimal_text(n)) == n,
    decreases n,
{
    if n < 10 {
        assert(decimal_text(n).drop_last() =~= Seq::<char>::empty());
        assert(decimal_value(decimal_text(n).drop_last()) == 0);
    } else {
        decimal_text_writes_its_number(n / 10);
        assert(decimal_text(n).drop_last() =~= decimal_text(n / 10));
    }
}

/// Writing a guess and reading it back gives the same guess: every number up
/// to the largest guess has a line that is read as it.
pub proof fn written_guess_is_read_back(guess: u16)
    ensures
        parsed_guess(decimal_text(guess as nat)) == Some(guess),
{
    decimal_text_writes_its_number(guess as nat);
    digits_are_read_as_their_value(decimal_text(guess as nat));
}

/// A line that is empty, or white space only, holds no guess.
pub proof fn blank_line_holds_no_guess(line: Seq<char>)
    requires
        all_space(line),
    ensures
        parsed_guess(line).is_none(),
{
    assert(line =~= line + Seq::<char>::empty());
    lemma_trim_start_skips_prefix(line, Seq::<char>::empty());
}

} // verus!
