//! Unsigned 64-bit integers written out in digits, decimal or hexadecimal.
//!
//! Digits are read from the left, in either case: the first character that
//! is no digit of the base, or with which the number no longer fits 64
//! bits, ends the reading with an error. A decimal number may begin with one
//! `+`; a hexadecimal number may not. Numbers are written in lower case
//! without leading zeros. What a text denotes is defined for every base from
//! 2 to 16.

use vstd::prelude::*;
use vstd::string::StringExecFns;

verus! {

/// Why a text is not the number it was taken for.
#[derive(Clone, Copy, Debug, PartialEq, Eq)]
pub enum NumberError {
    /// The text is empty.
    Empty,
    /// The text is a lone `+`, or a character that is no digit of the base
    /// comes before the number has grown too large.
    InvalidDigit,
    /// The number no longer fits 64 bits with a digit that comes before
    /// any character that is no digit.
    TooLarge,
}

impl NumberError {
    /// The error in words.
    pub open spec fn description(self) -> Seq<char> {
        match self {
            NumberError::Empty => "cannot parse integer from empty string"@,
            NumberError::InvalidDigit => "invalid digit found in string"@,
            NumberError::TooLarge => "number too large to fit in target type"@,
        }
    }

    /// The error in words.
    pub fn describe(&self) -> (text: String)
        ensures
            text@ == self.description(),
    {
        String::from_str(
            match self {
                NumberError::Empty => "cannot parse integer from empty string",
                NumberError::InvalidDigit => "invalid digit found in string",
                NumberError::TooLarge => "number too large to fit in target type",
            },
        )
    }
}

/// What a character is worth as a digit: `0` to `9` their face value, the
/// letters `a` to `f` of either case 10 to 15.
pub open spec fn digit_value(c: char) -> Option<nat> {
    if '0' <= c && c <= '9' {
        Some((c as u32 - '0' as u32) as nat)
    } else if 'a' <= c && c <= 'f' {
        Some((c as u32 - 'a' as u32 + 10) as nat)
    } else if 'A' <= c && c <= 'F' {
        Some((c as u32 - 'A' as u32 + 10) as nat)
    } else {
        None
    }
}

/// Whether `c` is a digit of the base `radix`.
pub open spec fn is_digit(c: char, radix: nat) -> bool {
    digit_value(c) matches Some(d) && d < radix
}

/// Whether every character of `text` is a digit of the base `radix`.
pub open spec fn all_digits(text: Seq<char>, radix: nat) -> bool {
    forall|i: int| 0 <= i < text.len() ==> is_digit(#[trigger] text[i], radix)
}

/// The number that `digits` denote in base `radix`, most significant digit
/// first.
pub open spec fn value_of(digits: Seq<char>, radix: nat) -> nat
    decreases digits.len(),
{
    if digits.len() == 0 {
        0
    } else {
        radix * value_of(digits.drop_last(), radix) + match digit_value(digits.last()) {
            Some(d) => d,
            None => 0,
        }
    }
}

/// What reading `digits` from the left comes to in base `radix`: the number
/// they denote, or the error of the first character that is no digit of the
/// base or with which the number no longer fits 64 bits. A character that is
/// no digit is `InvalidDigit` even where a digit in its place would have
/// been too much.
pub open spec fn scan(digits: Seq<char>, radix: nat) -> Result<u64, NumberError>
    decreases digits.len(),
{
    if digits.len() == 0 {
        Ok(0)
    } else {
        match scan(digits.drop_last(), radix) {
            Err(e) => Err(e),
            Ok(high) => if !is_digit(digits.last(), radix) {
                Err(NumberError::InvalidDigit)
            } else if radix * high + digit_value(digits.last()).unwrap() > u64::MAX {
                Err(NumberError::TooLarge)
            } else {
                Ok((radix * high + digit_value(digits.last()).unwrap()) as u64)
            },
        }
    }
}

/// The number that `text` stands for in base `radix` when it is to be digits
/// and nothing else, or why it stands for none.
pub open spec fn parse_digits(text: Seq<char>, radix: nat) -> Result<u64, NumberError> {
    if text.len() == 0 {
        Err(NumberError::Empty)
    } else {
        scan(text, radix)
    }
}

/// `text` without its leading `+`, if it has one.
pub open spec fn unsigned_part(text: Seq<char>) -> Seq<char> {
    if text.len() > 0 && text[0] == '+' {
        text.skip(1)
    } else {
        text
    }
}

/// The number that `text` stands for in base `radix` when it may begin with
/// one `+`, or why it stands for none.
pub open spec fn parse(text: Seq<char>, radix: nat) -> Result<u64, NumberError> {
    if text.len() == 0 {
        Err(NumberError::Empty)
    } else if unsigned_part(text).len() == 0 {
        Err(NumberError::InvalidDigit)
    } else {
        scan(unsigned_part(text), radix)
    }
}

/// The lower-case digit worth `d`, for `d` below 16.
pub open spec fn digit_char(d: nat) -> char {
    "0123456789abcdef"@[d as int]
}

/// The digits of `n` in base `radix`, most significant first, without
/// leading zeros; zero is the single digit `0`.
pub open spec fn digits_of(n: nat, radix: nat) -> Seq<char>
    decreases n,
{
    if radix < 2 || n < radix {
        seq![digit_char(n)]
    } else {
        proof {
            assert(n / radix < n) by (nonlinear_arith)
                requires
                    radix >= 2,
                    n >= radix,
            ;
        }
        digits_of(n / radix, radix).push(digit_char(n % radix))
    }
}

/// Every digit that `digit_char` writes is read back by `digit_value`.
pub proof fn lemma_digit_char_value(d: nat)
    requires
        d < 16,
    ensures
        digit_value(digit_char(d)) == Some(d),
        digit_char(d) != '+',
{
    reveal_strlit("0123456789abcdef");
}

/// Reading comes to a number exactly on digits of the base that denote a
/// number of 64 bits, and then to the number they denote.
pub proof fn lemma_scan_ok(digits: Seq<char>, radix: nat)
    requires
        radix >= 1,
    ensures
        scan(digits, radix) is Ok <==> all_digits(digits, radix) && value_of(digits, radix)
            <= u64::MAX,
        scan(digits, radix) matches Ok(n) ==> n == value_of(digits, radix),
    decreases digits.len(),
{
    if digits.len() > 0 {
        let front = digits.drop_last();
        lemma_scan_ok(front, radix);
        assert(radix * value_of(front, radix) >= value_of(front, radix)) by (nonlinear_arith)
            requires
                radix >= 1,
        ;
        if all_digits(digits, radix) {
            assert forall|i: int| 0 <= i < front.len() implies is_digit(
                #[trigger] front[i],
                radix,
            ) by {
                assert(front[i] == digits[i]);
            }
            assert(is_digit(digits[digits.len() - 1], radix));
        }
        if all_digits(front, radix) && is_digit(digits.last(), radix) {
            assert forall|i: int| 0 <= i < digits.len() implies is_digit(
                #[trigger] digits[i],
                radix,
            ) by {
                if i < front.len() {
                    assert(digits[i] == front[i]);
                }
            }
        }
    }
}

/// A text that is to be digits and nothing else stands for a number exactly
/// when it has a character, every character is a digit of the base, and the
/// number they denote fits 64 bits.
pub proof fn lemma_parse_digits_ok(text: Seq<char>, radix: nat)
    requires
        radix >= 1,
    ensures
        parse_digits(text, radix) is Ok <==> text.len() > 0 && all_digits(text, radix) && value_of(
            text,
            radix,
        ) <= u64::MAX,
        parse_digits(text, radix) matches Ok(n) ==> n == value_of(text, radix),
{
    lemma_scan_ok(text, radix);
}

/// An error that reading has come to stays, whatever follows.
pub proof fn lemma_scan_error_stays(digits: Seq<char>, k: int, radix: nat)
    requires
        0 <= k <= digits.len(),
        scan(digits.take(k), radix) is Err,
    ensures
        scan(digits, radix) == scan(digits.take(k), radix),
    decreases digits.len() - k,
{
    if k < digits.len() {
        assert(digits.take(k + 1).drop_last() =~= digits.take(k));
        lemma_scan_error_stays(digits, k + 1, radix);
    } else {
        assert(digits.take(k) =~= digits);
    }
}

/// The digits written for a number are digits of the base, at least one of
/// them, and they denote that number.
pub proof fn lemma_digits_of(n: nat, radix: nat)
    requires
        2 <= radix <= 16,
    ensures
        digits_of(n, radix).len() > 0,
        digits_of(n, radix)[0] != '+',
        all_digits(digits_of(n, radix), radix),
        value_of(digits_of(n, radix), radix) == n,
    decreases n,
{
    let text = digits_of(n, radix);
    if n < radix {
        lemma_digit_char_value(n);
        assert(value_of(text.drop_last(), radix) == 0);
        assert(radix * 0 == 0);
    } else {
        let high = n / radix;
        let low = n % radix;
        assert(high < n) by (nonlinear_arith)
            requires
                radix >= 2,
                n >= radix,
                high == n / radix,
        ;
        assert(0 <= low < radix && n == radix * high + low) by (nonlinear_arith)
            requires
                radix >= 2,
                high == n / radix,
                low == n % radix,
        ;
        lemma_digits_of(high, radix);
        lemma_digit_char_value(low);
        let front = digits_of(high, radix);
        assert(text.drop_last() =~= front);
        assert forall|i: int| 0 <= i < text.len() implies is_digit(#[trigger] text[i], radix) by {
            if i < front.len() {
                assert(text[i] == front[i]);
            }
        }
    }
}

/// Writing a number and reading the text back gives the number, whether or
/// not a `+` would have been taken.
pub proof fn lemma_parse_digits_of(n: u64, radix: nat)
    requires
        2 <= radix <= 16,
    ensures
        parse_digits(digits_of(n as nat, radix), radix) == Ok::<u64, NumberError>(n),
        parse(digits_of(n as nat, radix), radix) == Ok::<u64, NumberError>(n),
{
    lemma_digits_of(n as nat, radix);
    lemma_scan_ok(digits_of(n as nat, radix), radix);
}

/// Reads one character as a digit.
fn read_digit(c: char) -> (d: Option<u8>)
    ensures
        match d {
            Some(v) => digit_value(c) == Some(v as nat),
            None => digit_value(c) is None,
        },
{
    if '0' <= c && c <= '9' {
        Some((c as u32 - '0' as u32) as u8)
    } else if 'a' <= c && c <= 'f' {
        Some((c as u32 - 'a' as u32 + 10) as u8)
    } else if 'A' <= c && c <= 'F' {
        Some((c as u32 - 'A' as u32 + 10) as u8)
    } else {
        None
    }
}

/// Reads `text` as a number in base `radix`, with or without leave for a
/// leading `+`.
fn parse_u64(text: &str, radix: u32, sign: bool) -> (r: Result<u64, NumberError>)
    requires
        2 <= radix <= 16,
    ensures
        r == if sign {
            parse(text@, radix as nat)
        } else {
            parse_digits(text@, radix as nat)
        },
{
    let ghost start: int = if sign && text@.len() > 0 && text@[0] == '+' {
        1
    } else {
        0
    };
    let ghost digits = text@.skip(start);
    let mut first: bool = true;
    let mut seen: bool = false;
    let mut acc: u64 = 0;
    for c in it: text.chars()
        invariant
            it.seq() == text@,
            2 <= radix <= 16,
            start == if sign && text@.len() > 0 && text@[0] == '+' {
                1int
            } else {
                0int
            },
            digits == text@.skip(start),
            first == (it.index() == 0),
            first ==> acc == 0 && !seen,
            !first ==> start <= it.index(),
            !first ==> seen == (it.index() > start),
            !first ==> scan(digits.take(it.index() - start), radix as nat) == Ok::<
                u64,
                NumberError,
            >(acc),
    {
        let ghost k: int = it.index() as int;
        if first && sign && c == '+' {
            first = false;
            proof {
                assert(digits.take(0) =~= Seq::<char>::empty());
            }
        } else {
            proof {
                if first {
                    assert(digits.take(0) =~= Seq::<char>::empty());
                }
                assert(digits.take(k + 1 - start).drop_last() =~= digits.take(k - start));
                assert(digits.take(k + 1 - start).last() == c);
                if sign {
                    assert(digits =~= unsigned_part(text@));
                } else {
                    assert(digits =~= text@);
                }
            }
            first = false;
            seen = true;
            match read_digit(c) {
                Some(d) if (d as u32) < radix => {
                    assert(acc as u128 * radix as u128 + d as u128 <= 0xffff_ffff_ffff_ffff * 16
                        + 16) by (nonlinear_arith)
                        requires
                            acc <= 0xffff_ffff_ffff_ffff,
                            radix <= 16,
                            d < 16,
                    ;
                    assert(acc as u128 * radix as u128 == radix as nat * acc as nat)
                        by (nonlinear_arith);
                    let wide: u128 = acc as u128 * radix as u128 + d as u128;
                    if wide > u64::MAX as u128 {
                        proof {
                            lemma_scan_error_stays(digits, k + 1 - start, radix as nat);
                        }
                        return Err(NumberError::TooLarge);
                    }
                    acc = wide as u64;
                },
                _ => {
                    proof {
                        lemma_scan_error_stays(digits, k + 1 - start, radix as nat);
                    }
                    return Err(NumberError::InvalidDigit);
                },
            }
        }
    }
    proof {
        if !first {
            assert(digits.take(text@.len() - start) =~= digits);
        }
        if sign {
            assert(digits =~= unsigned_part(text@));
        } else {
            assert(digits =~= text@);
        }
    }
    if first {
        Err(NumberError::Empty)
    } else if !seen {
        Err(NumberError::InvalidDigit)
    } else {
        Ok(acc)
    }
}

/// The one-character text of the digit worth `d`.
fn digit_text(d: u8) -> (text: &'static str)
    requires
        d < 16,
    ensures
        text@ == seq![digit_char(d as nat)],
{
    proof {
        reveal_strlit("0123456789abcdef");
        reveal_strlit("0");
        reveal_strlit("1");
        reveal_strlit("2");
        reveal_strlit("3");
        reveal_strlit("4");
        reveal_strlit("5");
        reveal_strlit("6");
        reveal_strlit("7");
        reveal_strlit("8");
        reveal_strlit("9");
        reveal_strlit("a");
        reveal_strlit("b");
        reveal_strlit("c");
        reveal_strlit("d");
        reveal_strlit("e");
        reveal_strlit("f");
    }
    match d {
        0 => "0",
        1 => "1",
        2 => "2",
        3 => "3",
        4 => "4",
        5 => "5",
        6 => "6",
        7 => "7",
        8 => "8",
        9 => "9",
        10 => "a",
        11 => "b",
        12 => "c",
        13 => "d",
        14 => "e",
        _ => "f",
    }
}

/// Appends the digits of `n` in base `radix` to `out`.
fn write_u64(out: &mut String, n: u64, radix: u32)
    requires
        2 <= radix <= 16,
    ensures
        final(out)@ == old(out)@ + digits_of(n as nat, radix as nat),
{
    let mut low: Vec<u8> = Vec::new();
    let mut rest: u64 = n;
    while rest >= radix as u64
        invariant
            2 <= radix <= 16,
            forall|i: int| 0 <= i < low.len() ==> low[i] < 16,
            digits_of(n as nat, radix as nat) == digits_of(rest as nat, radix as nat) + Seq::new(
                low.len() as nat,
                |i: int| digit_char(low[low.len() - 1 - i] as nat),
            ),
        decreases rest,
    {
        let ghost tail = Seq::new(
            low.len() as nat,
            |i: int| digit_char(low[low.len() - 1 - i] as nat),
        );
        let d: u8 = (rest % radix as u64) as u8;
        low.push(d);
        proof {
            let next = Seq::new(
                low.len() as nat,
                |i: int| digit_char(low[low.len() - 1 - i] as nat),
            );
            assert(next =~= seq![digit_char(d as nat)] + tail);
            assert(digits_of(rest as nat, radix as nat) == digits_of(
                (rest / radix as u64) as nat,
                radix as nat,
            ).push(digit_char(d as nat)));
            assert(digits_of((rest / radix as u64) as nat, radix as nat).push(digit_char(d as nat))
                + tail =~= digits_of((rest / radix as u64) as nat, radix as nat) + next);
        }
        rest = rest / radix as u64;
    }
    out.append(digit_text(rest as u8));
    let mut i: usize = low.len();
    while i > 0
        invariant
            i <= low.len(),
            forall|j: int| 0 <= j < low.len() ==> low[j] < 16,
            out@ == old(out)@ + seq![digit_char(rest as nat)] + Seq::new(
                (low.len() - i) as nat,
                |j: int| digit_char(low[low.len() - 1 - j] as nat),
            ),
        decreases i,
    {
        i = i - 1;
        out.append(digit_text(low[i]));
    }
}

/// Reads `text` as a decimal number, which may begin with one `+`.
pub fn parse_decimal(text: &str) -> (r: Result<u64, NumberError>)
    ensures
        r == parse(text@, 10),
{
    parse_u64(text, 10, true)
}

/// Reads `text` as a hexadecimal number: digits and nothing else, so that a
/// sign is an error.
pub fn parse_hex(text: &str) -> (r: Result<u64, NumberError>)
    ensures
        r == parse_digits(text@, 16),
{
    parse_u64(text, 16, false)
}

/// Appends the decimal digits of `n` to `out`.
pub fn write_decimal(out: &mut String, n: u64)
    ensures
        final(out)@ == old(out)@ + digits_of(n as nat, 10),
{
    write_u64(out, n, 10)
}

/// Appends the hexadecimal digits of `n` to `out`.
pub fn write_hex(out: &mut String, n: u64)
    ensures
        final(out)@ == old(out)@ + digits_of(n as nat, 16),
{
    write_u64(out, n, 16)
}

} // verus!
