//! Reading and writing unsigned numbers as text, in radix 10 and 16.

use vstd::prelude::*;
use vstd::string::*;
use crate::text::chars_of;

verus! {

/// What the digit `c` is worth in `radix`, for a radix up to 16. Letters of
/// either case count as the digits from ten on.
pub open spec fn digit_of(c: char, radix: int) -> Option<int> {
    let u = c as u32 as int;
    let d = if 0x30 <= u <= 0x39 {
        u - 0x30
    } else if 0x61 <= u <= 0x66 {
        u - 0x61 + 10
    } else if 0x41 <= u <= 0x46 {
        u - 0x41 + 10
    } else {
        radix
    };
    if d < radix {
        Some(d)
    } else {
        None
    }
}

/// The number that the digits of `s` write in `radix`, most significant
/// first; `None` where one of them is no digit of that radix.
pub open spec fn digits_value(s: Seq<char>, radix: int) -> Option<int>
    decreases s.len(),
{
    if s.len() == 0 {
        Some(0)
    } else {
        match (digits_value(s.drop_last(), radix), digit_of(s.last(), radix)) {
            (Some(v), Some(d)) => Some(v * radix + d),
            _ => None,
        }
    }
}

/// `s` without one leading `+`.
pub open spec fn unsigned_digits(s: Seq<char>) -> Seq<char> {
    if s.len() > 0 && s[0] == '+' {
        s.skip(1)
    } else {
        s
    }
}

/// The unsigned number that `s` writes in `radix`: an optional `+`, then at
/// least one digit and nothing else, worth no more than `max`.
pub open spec fn parse_unsigned(s: Seq<char>, radix: int, max: int) -> Option<int> {
    let digits = unsigned_digits(s);
    if digits.len() == 0 {
        None
    } else {
        match digits_value(digits, radix) {
            Some(v) => if v <= max {
                Some(v)
            } else {
                None
            },
            None => None,
        }
    }
}

/// The digits that are read so far bound the whole: a prefix of readable
/// digits is readable and worth no more.
pub proof fn lemma_digits_prefix(s: Seq<char>, radix: int, k: int)
    requires
        1 <= radix <= 16,
        0 <= k <= s.len(),
    ensures
        digits_value(s, radix) matches Some(v) ==> (digits_value(s.take(k), radix) matches Some(w)
            && 0 <= w <= v),
    decreases s.len(),
{
    if k == s.len() {
        assert(s.take(k) =~= s);
        lemma_digits_nonnegative(s, radix);
    } else {
        assert(s.drop_last().take(k) =~= s.take(k));
        lemma_digits_prefix(s.drop_last(), radix, k);
        if digits_value(s, radix) is Some {
            let v = digits_value(s.drop_last(), radix)->0;
            let w = digits_value(s.take(k), radix)->0;
            let d = digit_of(s.last(), radix)->0;
            assert(v * radix + d >= w) by (nonlinear_arith)
                requires
                    0 <= w <= v,
                    radix >= 1,
                    d >= 0,
            ;
        }
    }
}

/// Digits write no negative number.
pub proof fn lemma_digits_nonnegative(s: Seq<char>, radix: int)
    requires
        1 <= radix <= 16,
    ensures
        digits_value(s, radix) matches Some(v) ==> v >= 0,
    decreases s.len(),
{
    if s.len() > 0 {
        lemma_digits_nonnegative(s.drop_last(), radix);
        if digits_value(s, radix) is Some {
            let v = digits_value(s.drop_last(), radix)->0;
            let d = digit_of(s.last(), radix)->0;
            assert(v * radix + d >= 0) by (nonlinear_arith)
                requires
                    0 <= v,
                    radix >= 1,
                    d >= 0,
            ;
        }
    }
}

/// The radixes in which numbers are read.
#[derive(Clone, Copy, Debug, PartialEq, Eq, Structural)]
pub enum Radix {
    Decimal,
    Hexadecimal,
}

impl Radix {
    /// The number of digits of the radix.
    pub open spec fn base(self) -> int {
        match self {
            Radix::Decimal => 10,
            Radix::Hexadecimal => 16,
        }
    }

    /// The number of digits of the radix.
    pub fn digits(self) -> (r: u32)
        ensures
            r == self.base(),
    {
        match self {
            Radix::Decimal => 10,
            Radix::Hexadecimal => 16,
        }
    }
}

/// What the digit `c` is worth in `radix`.
pub fn digit_in(c: char, radix: Radix) -> (r: Option<u32>)
    ensures
        match r {
            Some(d) => digit_of(c, radix.base()) == Some(d as int),
            None => digit_of(c, radix.base()) is None,
        },
{
    let radix: u32 = radix.digits();
    let u: u32 = c as u32;
    let d: u32 = if 0x30 <= u && u <= 0x39 {
        u - 0x30
    } else if 0x61 <= u && u <= 0x66 {
        u - 0x61 + 10
    } else if 0x41 <= u && u <= 0x46 {
        u - 0x41 + 10
    } else {
        radix
    };
    if d < radix {
        Some(d)
    } else {
        None
    }
}

/// Reads an unsigned number in `radix`, worth no more than `max`, from the
/// text of `s`.
pub fn parse_unsigned_text(s: &str, radix: Radix, max: u128) -> (r: Option<u128>)
    ensures
        match r {
            Some(v) => parse_unsigned(s@, radix.base(), max as int) == Some(v as int),
            None => parse_unsigned(s@, radix.base(), max as int) is None,
        },
{
    let chars = chars_of(s);
    let n = chars.len();
    let start: usize = if n > 0 && chars[0] == '+' {
        1
    } else {
        0
    };
    if start == n {
        return None;
    }
    let ghost digits = unsigned_digits(s@);
    let wide: u128 = radix.digits() as u128;
    let limit: u128 = max / wide;
    let mut acc: u128 = 0;
    let mut i: usize = start;
    proof {
        assert(digits =~= s@.subrange(start as int, n as int));
        assert(digits.take(0) =~= Seq::<char>::empty());
    }
    while i < n
        invariant
            chars@ == s@,
            n == chars.len(),
            start <= i <= n,
            wide == radix.base(),
            limit == max / wide,
            digits == s@.subrange(start as int, n as int),
            digits == unsigned_digits(s@),
            start < n,
            digits_value(digits.take(i - start), radix.base()) == Some(acc as int),
            acc <= max,
        decreases n - i,
    {
        let ghost before = digits.take(i - start);
        let ghost upto = digits.take(i - start + 1);
        proof {
            assert(upto.drop_last() =~= before);
            assert(upto.last() == s@[i as int]);
            lemma_digits_prefix(digits, radix.base(), i - start + 1);
        }
        match digit_in(chars[i], radix) {
            None => {
                assert(digits_value(upto, radix.base()) is None);
                return None;
            },
            Some(d) => {
                assert(digits_value(upto, radix.base()) == Some(acc * radix.base() + d));
                if acc > limit {
                    proof {
                        assert(acc * wide + d > max) by (nonlinear_arith)
                            requires
                                acc >= max / wide + 1,
                                wide >= 1,
                                d >= 0,
                        ;
                    }
                    return None;
                }
                proof {
                    assert(acc * wide <= max) by (nonlinear_arith)
                        requires
                            0 <= acc <= max / wide,
                            wide >= 1,
                            max >= 0,
                    ;
                }
                let scaled: u128 = acc * wide;
                if d as u128 > max - scaled {
                    return None;
                }
                acc = scaled + d as u128;
            },
        }
        i = i + 1;
    }
    proof {
        assert(digits.take(n - start) =~= digits);
    }
    Some(acc)
}

/// The character that writes the digit `d`, in lower case.
pub open spec fn digit_char(d: int) -> char {
    if d == 0 {
        '0'
    } else if d == 1 {
        '1'
    } else if d == 2 {
        '2'
    } else if d == 3 {
        '3'
    } else if d == 4 {
        '4'
    } else if d == 5 {
        '5'
    } else if d == 6 {
        '6'
    } else if d == 7 {
        '7'
    } else if d == 8 {
        '8'
    } else if d == 9 {
        '9'
    } else if d == 10 {
        'a'
    } else if d == 11 {
        'b'
    } else if d == 12 {
        'c'
    } else if d == 13 {
        'd'
    } else if d == 14 {
        'e'
    } else {
        'f'
    }
}

/// Whether `c` is a digit of radix 16 in lower case.
pub open spec fn is_lower_hex_digit(c: char) -> bool {
    let u = c as u32;
    0x30 <= u <= 0x39 || 0x61 <= u <= 0x66
}

/// Whether `s` is `width` digits of radix 16 in lower case.
pub open spec fn is_lower_hex(s: Seq<char>, width: nat) -> bool {
    s.len() == width && forall|i: int| 0 <= i < s.len() ==> is_lower_hex_digit(#[trigger] s[i])
}

/// Whether `s` is `width` digits of radix 16, of either case, and nothing
/// else: no sign, no space.
pub open spec fn is_hex_digits(s: Seq<char>, width: nat) -> bool {
    s.len() == width && forall|i: int| 0 <= i < s.len() ==> digit_of(#[trigger] s[i], 16) is Some
}

/// Whether the text of `s` is `width` digits of radix 16 and nothing else.
pub fn hex_digits_text(s: &str, width: usize) -> (r: bool)
    ensures
        r == is_hex_digits(s@, width as nat),
{
    let chars = chars_of(s);
    if chars.len() != width {
        return false;
    }
    let mut i: usize = 0;
    while i < chars.len()
        invariant
            chars@ == s@,
            0 <= i <= chars.len(),
            forall|j: int| 0 <= j < i ==> digit_of(#[trigger] s@[j], 16) is Some,
        decreases chars.len() - i,
    {
        if digit_in(chars[i], Radix::Hexadecimal).is_none() {
            return false;
        }
        i = i + 1;
    }
    true
}

/// `v` in radix 16 and lower case, as its last `width` digits, padded with
/// zeros in front.
pub open spec fn lower_hex(v: nat, width: nat) -> Seq<char>
    decreases width,
{
    if width == 0 {
        Seq::<char>::empty()
    } else {
        lower_hex(v / 16, (width - 1) as nat).push(digit_char((v % 16) as int))
    }
}

/// `v` in radix 10, without leading zeros.
pub open spec fn decimal(v: nat) -> Seq<char>
    decreases v,
{
    if v < 10 {
        seq![digit_char(v as int)]
    } else {
        decimal(v / 10).push(digit_char((v % 10) as int))
    }
}

/// `v` in radix 10, with a `-` in front where it is negative.
pub open spec fn signed_decimal(v: int) -> Seq<char> {
    if v < 0 {
        seq!['-'] + decimal((-v) as nat)
    } else {
        decimal(v as nat)
    }
}

/// 16 to the power `width`.
pub open spec fn pow16(width: nat) -> nat
    decreases width,
{
    if width == 0 {
        1
    } else {
        16 * pow16((width - 1) as nat)
    }
}

/// The text of one digit.
fn digit_text(d: u8) -> (r: &'static str)
    requires
        d < 16,
    ensures
        r@ == seq![digit_char(d as int)],
{
    proof {
        reveal_strlit("0");
        reveal_strlit("1");
        reveal_strlit("2");
        reveal_strlit("3");
        reveal_strlit("4");
        reveal_strlit("5");
        reveal_strlit("6");
        reveal_strlit("7");
        reveal_strlit("8");
        reveal_strlit("9");
        reveal_strlit("a");
        reveal_strlit("b");
        reveal_strlit("c");
        reveal_strlit("d");
        reveal_strlit("e");
        reveal_strlit("f");
    }
    let r = if d == 0 {
        "0"
    } else if d == 1 {
        "1"
    } else if d == 2 {
        "2"
    } else if d == 3 {
        "3"
    } else if d == 4 {
        "4"
    } else if d == 5 {
        "5"
    } else if d == 6 {
        "6"
    } else if d == 7 {
        "7"
    } else if d == 8 {
        "8"
    } else if d == 9 {
        "9"
    } else if d == 10 {
        "a"
    } else if d == 11 {
        "b"
    } else if d == 12 {
        "c"
    } else if d == 13 {
        "d"
    } else if d == 14 {
        "e"
    } else {
        "f"
    };
    assert(r@ =~= seq![digit_char(d as int)]);
    r
}

/// Appends to `out` the last `width` digits of `v` in radix 16.
pub fn push_lower_hex(out: &mut String, v: u128, width: u32)
    ensures
        final(out)@ == old(out)@ + lower_hex(v as nat, width as nat),
    decreases width,
{
    if width > 0 {
        push_lower_hex(out, v / 16, width - 1);
        out.append(digit_text((v % 16) as u8));
        assert(out@ =~= old(out)@ + lower_hex(v as nat, width as nat));
    } else {
        assert(out@ =~= old(out)@ + lower_hex(v as nat, width as nat));
    }
}

/// Appends to `out` the digits of `v` in radix 10.
pub fn push_decimal(out: &mut String, v: u64)
    ensures
        final(out)@ == old(out)@ + decimal(v as nat),
    decreases v,
{
    if v >= 10 {
        push_decimal(out, v / 10);
    }
    out.append(digit_text((v % 10) as u8));
    assert(out@ =~= old(out)@ + decimal(v as nat));
}

/// `v` in radix 10, with a `-` in front where it is negative.
pub fn signed_decimal_text(v: i32) -> (r: String)
    ensures
        r@ == signed_decimal(v as int),
{
    let mut out = String::new();
    if v < 0 {
        proof {
            reveal_strlit("-");
        }
        out.append("-");
        let magnitude: i64 = -(v as i64);
        push_decimal(&mut out, magnitude as u64);
        assert(out@ =~= signed_decimal(v as int));
    } else {
        push_decimal(&mut out, v as u64);
        assert(out@ =~= signed_decimal(v as int));
    }
    out
}

/// Each digit reads back as what it writes.
pub proof fn lemma_digit_char(d: int)
    requires
        0 <= d < 16,
    ensures
        digit_of(digit_char(d), 16) == Some(d),
        d < 10 ==> digit_of(digit_char(d), 10) == Some(d),
        is_lower_hex_digit(digit_char(d)),
        digit_char(d) != '-',
        digit_char(d) != '+',
{
}

/// A digit of radix 16 in lower case is the one that writes its worth.
pub proof fn lemma_digit_of_lower(c: char)
    requires
        is_lower_hex_digit(c),
    ensures
        digit_of(c, 16) matches Some(d) && 0 <= d < 16 && digit_char(d) == c,
{
}

/// `width` digits of radix 16 write a number that fits the width, and they
/// are read as they stand: there is no sign to take off.
pub proof fn lemma_hex_digits_value(s: Seq<char>, width: nat)
    requires
        is_hex_digits(s, width),
    ensures
        digits_value(s, 16) matches Some(v) && 0 <= v < pow16(width),
        unsigned_digits(s) == s,
    decreases width,
{
    if width > 0 {
        let head = s.drop_last();
        assert(is_hex_digits(head, (width - 1) as nat)) by {
            assert forall|i: int| 0 <= i < head.len() implies digit_of(#[trigger] head[i], 16)
                is Some by {
                assert(head[i] == s[i]);
            }
        }
        lemma_hex_digits_value(head, (width - 1) as nat);
        assert(digit_of(s.last(), 16) is Some);
        assert(digit_of(s[0], 16) is Some);
    }
}

/// Lower-case digits of radix 16 are digits of radix 16.
pub proof fn lemma_lower_hex_is_hex(s: Seq<char>, width: nat)
    requires
        is_lower_hex(s, width),
    ensures
        is_hex_digits(s, width),
{
    assert forall|i: int| 0 <= i < s.len() implies digit_of(#[trigger] s[i], 16) is Some by {
        lemma_digit_of_lower(s[i]);
    }
}

/// What `lower_hex` writes is as wide as asked, in lower-case digits, and
/// reads back as the number where the number fits the width.
pub proof fn lemma_lower_hex(v: nat, width: nat)
    ensures
        is_lower_hex(lower_hex(v, width), width),
        v < pow16(width) ==> digits_value(lower_hex(v, width), 16) == Some(v as int),
    decreases width,
{
    if width > 0 {
        let w = (width - 1) as nat;
        lemma_lower_hex(v / 16, w);
        lemma_digit_char((v % 16) as int);
        let s = lower_hex(v, width);
        assert(s.drop_last() =~= lower_hex(v / 16, w));
        assert(s.last() == digit_char((v % 16) as int));
        assert forall|i: int| 0 <= i < s.len() implies is_lower_hex_digit(#[trigger] s[i]) by {
            if i < s.len() - 1 {
                assert(s[i] == lower_hex(v / 16, w)[i]);
            }
        }
    }
}

/// `width` lower-case digits of radix 16 read as a number that fits the
/// width and that `lower_hex` writes as the same digits.
pub proof fn lemma_lower_hex_canonical(s: Seq<char>, width: nat)
    requires
        is_lower_hex(s, width),
    ensures
        digits_value(s, 16) matches Some(v) && 0 <= v < pow16(width) && lower_hex(v as nat, width)
            == s,
    decreases width,
{
    if width > 0 {
        let w = (width - 1) as nat;
        let head = s.drop_last();
        assert(is_lower_hex(head, w));
        lemma_lower_hex_canonical(head, w);
        lemma_digit_of_lower(s.last());
        let hv = digits_value(head, 16)->0;
        let d = digit_of(s.last(), 16)->0;
        let v = hv * 16 + d;
        assert(v / 16 == hv && v % 16 == d);
        assert(lower_hex(v as nat, width) =~= s);
    } else {
        assert(lower_hex(0, 0) =~= s);
    }
}

} // verus!
