use vstd::prelude::*;
use vstd::string::StrSliceExecFns;

verus! {

/// The decimal digits of `n`, as ASCII bytes, most significant first.
pub open spec fn decimal_of(n: nat) -> Seq<u8>
    decreases n,
{
    if n < 10 {
        seq![(0x30 + n) as u8]
    } else {
        decimal_of(n / 10).push((0x30 + n % 10) as u8)
    }
}

/// The decimal digit character for `d` (meaningful when `d < 10`).
pub open spec fn digit_char(d: nat) -> char {
    if d == 0 {
        '0'
    } else if d == 1 {
        '1'
    } else if d == 2 {
        '2'
    } else if d == 3 {
        '3'
    } else if d == 4 {
        '4'
    } else if d == 5 {
        '5'
    } else if d == 6 {
        '6'
    } else if d == 7 {
        '7'
    } else if d == 8 {
        '8'
    } else {
        '9'
    }
}

/// The decimal digits of `n` as characters, most significant first.
pub open spec fn decimal_chars(n: nat) -> Seq<char>
    decreases n,
{
    if n < 10 {
        seq![digit_char(n)]
    } else {
        decimal_chars(n / 10).push(digit_char(n % 10))
    }
}

/// `x` in decimal, with a leading `-` when negative.
pub open spec fn signed_decimal_chars(x: int) -> Seq<char> {
    if x < 0 {
        seq!['-'] + decimal_chars((-x) as nat)
    } else {
        decimal_chars(x as nat)
    }
}

/// Decimal digits are never a `-`, and there is at least one.
pub proof fn lemma_decimal_chars_no_dash(n: nat)
    ensures
        decimal_chars(n).len() >= 1,
        forall|i: int| 0 <= i < decimal_chars(n).len() ==> #[trigger] decimal_chars(n)[i] != '-',
    decreases n,
{
    if n >= 10 {
        lemma_decimal_chars_no_dash(n / 10);
    }
}

/// Different digits have different characters.
proof fn lemma_digit_char_injective(x: nat, y: nat)
    requires
        x < 10,
        y < 10,
        digit_char(x) == digit_char(y),
    ensures
        x == y,
{
}

/// Different numbers have different decimal forms.
pub proof fn lemma_decimal_chars_injective(a: nat, b: nat)
    requires
        decimal_chars(a) == decimal_chars(b),
    ensures
        a == b,
    decreases a,
{
    lemma_decimal_chars_no_dash(a);
    lemma_decimal_chars_no_dash(b);
    if a < 10 && b < 10 {
        assert(decimal_chars(a) == seq![digit_char(a)]);
        assert(decimal_chars(b) == seq![digit_char(b)]);
        assert(decimal_chars(a)[0] == digit_char(a));
        assert(decimal_chars(b)[0] == digit_char(b));
        lemma_digit_char_injective(a, b);
    } else if a < 10 {
        lemma_decimal_chars_no_dash(b / 10);
        assert(decimal_chars(b).len() >= 2);
    } else if b < 10 {
        lemma_decimal_chars_no_dash(a / 10);
        assert(decimal_chars(a).len() >= 2);
    } else {
        assert(decimal_chars(a / 10) =~= decimal_chars(a).drop_last());
        assert(decimal_chars(b / 10) =~= decimal_chars(b).drop_last());
        assert(decimal_chars(a).last() == digit_char(a % 10));
        assert(decimal_chars(b).last() == digit_char(b % 10));
        lemma_decimal_chars_injective(a / 10, b / 10);
        lemma_digit_char_injective(a % 10, b % 10);
    }
}

/// The one-character text of digit `d`.
fn digit_str(d: u64) -> (s: &'static str)
    requires
        d < 10,
    ensures
        s@ == seq![digit_char(d as nat)],
{
    if d == 0 {
        proof { reveal_strlit("0"); }
        "0"
    } else if d == 1 {
        proof { reveal_strlit("1"); }
        "1"
    } else if d == 2 {
        proof { reveal_strlit("2"); }
        "2"
    } else if d == 3 {
        proof { reveal_strlit("3"); }
        "3"
    } else if d == 4 {
        proof { reveal_strlit("4"); }
        "4"
    } else if d == 5 {
        proof { reveal_strlit("5"); }
        "5"
    } else if d == 6 {
        proof { reveal_strlit("6"); }
        "6"
    } else if d == 7 {
        proof { reveal_strlit("7"); }
        "7"
    } else if d == 8 {
        proof { reveal_strlit("8"); }
        "8"
    } else {
        proof { reveal_strlit("9"); }
        "9"
    }
}

/// `n` written in decimal.
pub fn decimal_string(n: u64) -> (s: String)
    ensures
        s@ == decimal_chars(n as nat),
    decreases n,
{
    if n < 10 {
        String::from_str(digit_str(n))
    } else {
        let mut s = decimal_string(n / 10);
        s.append(digit_str(n % 10));
        s
    }
}

/// `x` written in decimal, with a leading `-` when negative.
pub fn signed_decimal_string(x: i64) -> (s: String)
    ensures
        s@ == signed_decimal_chars(x as int),
{
    if x < 0 {
        let magnitude: u64 = if x == i64::MIN {
            9223372036854775808u64
        } else {
            (-x) as u64
        };
        proof {
            reveal_strlit("-");
        }
        let mut s = String::from_str("-");
        let digits = decimal_string(magnitude);
        s.append(digits.as_str());
        s
    } else {
        decimal_string(x as u64)
    }
}

} // verus!
