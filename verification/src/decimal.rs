//! Decimal text of numbers, as the console reads it.
use vstd::prelude::*;
use vstd::string::StringExecFns;

verus! {

/// The character that stands for the digit `d`.
pub open spec fn digit_char(d: int) -> char {
    if d == 0 {
        '0'
    } else if d == 1 {
        '1'
    } else if d == 2 {
        '2'
    } else if d == 3 {
        '3'
    } else if d == 4 {
        '4'
    } else if d == 5 {
        '5'
    } else if d == 6 {
        '6'
    } else if d == 7 {
        '7'
    } else if d == 8 {
        '8'
    } else {
        '9'
    }
}

/// The decimal digits of `n`, most significant first, without leading zeros; "0" for zero.
pub open spec fn digits(n: nat) -> Seq<char>
    decreases n,
{
    if n < 10 {
        seq![digit_char(n as int)]
    } else {
        digits(n / 10).push(digit_char((n % 10) as int))
    }
}

/// The last `width` decimal digits of `n`, with zeros in front where `n` has fewer.
pub open spec fn padded_digits(n: nat, width: nat) -> Seq<char>
    decreases width,
{
    if width == 0 {
        Seq::<char>::empty()
    } else {
        padded_digits(n / 10, (width - 1) as nat).push(digit_char((n % 10) as int))
    }
}

/// The digits of `n`, with one zero in front where `n` has a single digit.
pub open spec fn two_digits(n: nat) -> Seq<char> {
    if n < 10 {
        seq!['0'].add(digits(n))
    } else {
        digits(n)
    }
}

/// Whether `c` is a character that can stand in a line of a command: a printable one of
/// ASCII, the space among them.
pub open spec fn is_plain_char(c: char) -> bool {
    ' ' <= c <= '~'
}

/// Whether `s` holds nothing but printable characters of ASCII, and so no line break.
pub open spec fn is_plain(s: Seq<char>) -> bool {
    forall|i: int| 0 <= i < s.len() ==> is_plain_char(#[trigger] s[i])
}

/// Two plain texts, one behind the other, are a plain text.
pub proof fn lemma_plain_add(a: Seq<char>, b: Seq<char>)
    requires
        is_plain(a),
        is_plain(b),
    ensures
        is_plain(a + b),
{
    assert forall|i: int| 0 <= i < (a + b).len() implies is_plain_char(#[trigger] (a + b)[i]) by {
        if i < a.len() {
            assert((a + b)[i] == a[i]);
        } else {
            assert((a + b)[i] == b[i - a.len()]);
        }
    }
}

/// The digits of a number are a plain text.
pub proof fn lemma_digits_plain(n: nat)
    ensures
        is_plain(digits(n)),
    decreases n,
{
    if n >= 10 {
        lemma_digits_plain(n / 10);
        assert forall|i: int| 0 <= i < digits(n).len() implies is_plain_char(
            #[trigger] digits(n)[i],
        ) by {
            if i < digits(n).len() - 1 {
                assert(digits(n)[i] == digits(n / 10)[i]);
            }
        }
    }
}

/// Padded digits are a plain text, as long as the padding asks for.
pub proof fn lemma_padded_digits_plain(n: nat, width: nat)
    ensures
        is_plain(padded_digits(n, width)),
        padded_digits(n, width).len() == width,
    decreases width,
{
    if width > 0 {
        let shorter = padded_digits(n / 10, (width - 1) as nat);
        lemma_padded_digits_plain(n / 10, (width - 1) as nat);
        assert forall|i: int| 0 <= i < padded_digits(n, width).len() implies is_plain_char(
            #[trigger] padded_digits(n, width)[i],
        ) by {
            if i < width - 1 {
                assert(padded_digits(n, width)[i] == shorter[i]);
            }
        }
    }
}

/// The digits of a number in at least two places are a plain text.
pub proof fn lemma_two_digits_plain(n: nat)
    ensures
        is_plain(two_digits(n)),
{
    lemma_digits_plain(n);
    if n < 10 {
        lemma_plain_add(seq!['0'], digits(n));
    }
}

/// Different digits have different characters.
pub proof fn lemma_digit_char_injective(x: int, y: int)
    requires
        0 <= x < 10,
        0 <= y < 10,
        digit_char(x) == digit_char(y),
    ensures
        x == y,
{
}

/// A number always has at least one digit.
pub proof fn lemma_digits_len(n: nat)
    ensures
        digits(n).len() >= 1,
        n >= 10 ==> digits(n).len() >= 2,
    decreases n,
{
    if n >= 10 {
        lemma_digits_len(n / 10);
    }
}

/// Only zero begins with the digit zero.
pub proof fn lemma_digits_first(n: nat)
    ensures
        n >= 1 ==> digits(n)[0] != '0',
    decreases n,
{
    if n >= 10 {
        lemma_digits_len(n / 10);
        lemma_digits_first(n / 10);
    }
}

/// Different numbers have different digits.
pub proof fn lemma_digits_injective(a: nat, b: nat)
    requires
        digits(a) == digits(b),
    ensures
        a == b,
    decreases a,
{
    lemma_digits_len(a);
    lemma_digits_len(b);
    if a < 10 && b < 10 {
        assert(digits(a)[0] == digit_char(a as int));
        lemma_digit_char_injective(a as int, b as int);
    } else if a >= 10 && b >= 10 {
        let da = digits(a / 10);
        let db = digits(b / 10);
        assert(digits(a).last() == digit_char((a % 10) as int));
        assert(digits(a).drop_last() =~= da);
        assert(digits(b).drop_last() =~= db);
        lemma_digits_injective(a / 10, b / 10);
        lemma_digit_char_injective((a % 10) as int, (b % 10) as int);
    }
}

/// Different numbers stay different when a single digit gets its zero in front.
pub proof fn lemma_two_digits_injective(a: nat, b: nat)
    requires
        two_digits(a) == two_digits(b),
    ensures
        a == b,
{
    lemma_digits_len(a);
    lemma_digits_len(b);
    if a < 10 && b < 10 {
        assert(two_digits(a)[1] == digit_char(a as int));
        lemma_digit_char_injective(a as int, b as int);
    } else if a >= 10 && b >= 10 {
        lemma_digits_injective(a, b);
    } else if a < 10 {
        lemma_digits_first(b);
    } else {
        lemma_digits_first(a);
    }
}

/// Whether `c` is one of the 128 characters of ASCII.
pub open spec fn is_ascii_char(c: char) -> bool {
    '\0' <= c <= '\u{7f}'
}

/// Whether `c` is one of the ten digits.
pub open spec fn is_digit(c: char) -> bool {
    '0' <= c <= '9'
}

/// The number that a series of digits stands for; leading zeros do not count.
pub open spec fn digits_value(s: Seq<char>) -> int
    decreases s.len(),
{
    if s.len() == 0 {
        0
    } else {
        digits_value(s.drop_last()) * 10 + (s.last() as int - '0' as int)
    }
}

/// Whether `s` holds digits only.
pub open spec fn all_digits(s: Seq<char>) -> bool {
    forall|i: int| 0 <= i < s.len() ==> is_digit(#[trigger] s[i])
}

/// Whether `s` begins with a sign, plus or minus.
pub open spec fn has_sign(s: Seq<char>) -> bool {
    s.len() > 0 && (s[0] == '-' || s[0] == '+')
}

/// What is left of `s` without its sign.
pub open spec fn unsigned_part(s: Seq<char>) -> Seq<char> {
    if has_sign(s) {
        s.skip(1)
    } else {
        s
    }
}

/// The number that `s` would stand for if it had the right form and any size were allowed.
pub open spec fn signed_value(s: Seq<char>) -> int {
    if has_sign(s) && s[0] == '-' {
        -digits_value(unsigned_part(s))
    } else {
        digits_value(unsigned_part(s))
    }
}

/// The number that `s` stands for: an optional sign, plus or minus, and then one digit or
/// more, and nothing else. `None` where `s` is not of this form or the number is too large or
/// too small for the type.
pub open spec fn parsed_i32(s: Seq<char>) -> Option<i32> {
    if unsigned_part(s).len() > 0 && all_digits(unsigned_part(s)) && i32::MIN <= signed_value(s)
        <= i32::MAX {
        Some(signed_value(s) as i32)
    } else {
        None
    }
}

/// Further digits never make a number smaller.
pub proof fn lemma_digits_value_grows(s: Seq<char>, upto: int)
    requires
        0 <= upto <= s.len(),
        all_digits(s),
    ensures
        0 <= digits_value(s.take(upto)) <= digits_value(s),
    decreases s.len() - upto,
{
    if upto == s.len() {
        assert(s.take(upto) =~= s);
        lemma_digits_value_positive(s);
    } else {
        lemma_digits_value_grows(s, upto + 1);
        lemma_digits_value_positive(s.take(upto));
        assert(s.take(upto + 1).drop_last() =~= s.take(upto));
    }
}

/// A series of digits stands for no number below zero.
pub proof fn lemma_digits_value_positive(s: Seq<char>)
    requires
        all_digits(s),
    ensures
        0 <= digits_value(s),
    decreases s.len(),
{
    if s.len() > 0 {
        lemma_digits_value_positive(s.drop_last());
    }
}

/// The character of a digit is a digit, and stands as many places behind the zero.
pub proof fn lemma_digit_char_value(d: int)
    requires
        0 <= d < 10,
    ensures
        is_digit(digit_char(d)),
        digit_char(d) as int - '0' as int == d,
{
}

/// The digits of a number are digits, and stand for that number.
pub proof fn lemma_digits_value_of_digits(n: nat)
    ensures
        all_digits(digits(n)),
        digits_value(digits(n)) == n,
    decreases n,
{
    lemma_digit_char_value((n % 10) as int);
    if n < 10 {
        assert(digits_value(digits(n).drop_last()) == 0);
    } else {
        lemma_digits_value_of_digits(n / 10);
        assert(digits(n).drop_last() =~= digits(n / 10));
        assert forall|i: int| 0 <= i < digits(n).len() implies is_digit(#[trigger] digits(n)[i]) by {
            if i < digits(n).len() - 1 {
                assert(digits(n)[i] == digits(n / 10)[i]);
            }
        }
    }
}

/// Reading the text of a number gives the number back.
pub proof fn lemma_parse_reads_what_was_written(n: nat)
    requires
        n <= i32::MAX,
    ensures
        parsed_i32(digits(n)) == Some(n as i32),
{
    lemma_digits_value_of_digits(n);
    lemma_digits_len(n);
}

/// Reads a number from its decimal text.
pub fn parse_i32(text: &str) -> (number: Option<i32>)
    ensures
        number == parsed_i32(text@),
{
    broadcast use vstd::string::is_ascii_spec_bytes;

    if !text.is_ascii() {
        proof {
            let bad = choose|i: int|
                0 <= i < text@.len() && !is_ascii_char(#[trigger] text@[i]);
            if has_sign(text@) {
                assert(unsigned_part(text@)[bad - 1] == text@[bad]);
            }
        }
        return None;
    }
    proof {
        vstd::string::is_ascii_spec_bytes(text);
    }
    let length: usize = text.as_bytes().len();
    if length == 0 {
        return None;
    }
    let first: u8 = text.get_ascii(0);
    let negative: bool = first == 45;
    let signed: bool = first == 45 || first == 43;
    let start: usize = if signed {
        1
    } else {
        0
    };
    let ghost body = unsigned_part(text@);
    if start == length {
        return None;
    }
    let mut value: i64 = 0;
    let mut i: usize = start;
    while i < length
        invariant
            text.is_ascii(),
            length == text@.len(),
            start <= i <= length,
            start == if signed {
                1usize
            } else {
                0usize
            },
            signed == has_sign(text@),
            body == unsigned_part(text@),
            forall|k: int| 0 <= k < text@.len() ==> is_ascii_char(#[trigger] text@[k]),
            forall|k: int| 0 <= k < i - start ==> is_digit(#[trigger] body[k]),
            value == digits_value(body.take(i - start)),
            0 <= value <= 0x8000_0000,
        decreases length - i,
    {
        let byte: u8 = text.get_ascii(i);
        assert(body[i - start] == text@[i as int]);
        if byte < 48 || byte > 57 {
            return None;
        }
        let ghost earlier = body.take(i - start);
        let ghost longer = body.take(i - start + 1);
        assert(longer.drop_last() =~= earlier);
        value = value * 10 + (byte - 48) as i64;
        if value > 0x8000_0000 {
            proof {
                if all_digits(body) {
                    lemma_digits_value_grows(body, i - start + 1);
                }
            }
            return None;
        }
        i += 1;
    }
    assert(body.take(i - start) =~= body);
    if negative {
        Some((-value) as i32)
    } else if value > 0x7fff_ffff {
        None
    } else {
        Some(value as i32)
    }
}

/// The text of a single digit.
pub fn digit_str(d: u8) -> (s: &'static str)
    requires
        d < 10,
    ensures
        s@ == seq![digit_char(d as int)],
{
    proof {
        reveal_strlit("0");
        reveal_strlit("1");
        reveal_strlit("2");
        reveal_strlit("3");
        reveal_strlit("4");
        reveal_strlit("5");
        reveal_strlit("6");
        reveal_strlit("7");
        reveal_strlit("8");
        reveal_strlit("9");
    }
    let s: &'static str = match d {
        0 => "0",
        1 => "1",
        2 => "2",
        3 => "3",
        4 => "4",
        5 => "5",
        6 => "6",
        7 => "7",
        8 => "8",
        _ => "9",
    };
    s
}

/// The decimal text of `n`.
pub fn number_text(n: u64) -> (s: String)
    ensures
        s@ == digits(n as nat),
    decreases n,
{
    if n < 10 {
        String::from_str(digit_str(n as u8))
    } else {
        let mut s = number_text(n / 10);
        s.append(digit_str((n % 10) as u8));
        s
    }
}

/// The last `width` digits of `n`, padded with zeros in front.
pub fn padded_text(n: u64, width: u8) -> (s: String)
    ensures
        s@ == padded_digits(n as nat, width as nat),
    decreases width,
{
    if width == 0 {
        String::new()
    } else {
        let mut s = padded_text(n / 10, width - 1);
        s.append(digit_str((n % 10) as u8));
        s
    }
}

/// The text of `n` in at least two digits.
pub fn two_digit_text(n: u64) -> (s: String)
    ensures
        s@ == two_digits(n as nat),
{
    if n < 10 {
        proof {
            reveal_strlit("0");
        }
        let mut s = String::from_str("0");
        s.append(digit_str(n as u8));
        s
    } else {
        number_text(n)
    }
}

} // verus!
