//! Verified text building: decimal rendering of counters and deltas, the
//! `H:MM:SS` clock form, and first-line extraction.  Every message the
//! engine hands to its callers is assembled from these pieces, so each
//! message's exact character sequence is stated in a contract.

use vstd::prelude::*;
use vstd::string::StringExecFns;

verus! {

/// The decimal digit character for `d` in 0..10.
pub open spec fn digit_char(d: int) -> char {
    if d == 0 {
        '0'
    } else if d == 1 {
        '1'
    } else if d == 2 {
        '2'
    } else if d == 3 {
        '3'
    } else if d == 4 {
        '4'
    } else if d == 5 {
        '5'
    } else if d == 6 {
        '6'
    } else if d == 7 {
        '7'
    } else if d == 8 {
        '8'
    } else {
        '9'
    }
}

/// Decimal rendering of a non-negative number, without leading zeros
/// (a lone zero for 0).
pub open spec fn dec_str(n: nat) -> Seq<char>
    decreases n,
{
    if n < 10 {
        seq![digit_char(n as int)]
    } else {
        dec_str(n / 10) + seq![digit_char((n % 10) as int)]
    }
}

/// Decimal rendering of an integer, with a leading `-` when negative.
pub open spec fn signed_str(v: int) -> Seq<char> {
    if v < 0 {
        seq!['-'] + dec_str((-v) as nat)
    } else {
        dec_str(v as nat)
    }
}

/// Decimal rendering of a delta: non-negative values carry a leading `+`.
pub open spec fn delta_str(v: int) -> Seq<char> {
    if v >= 0 {
        seq!['+'] + dec_str(v as nat)
    } else {
        signed_str(v)
    }
}

/// Decimal rendering padded to at least two digits with a leading zero.
pub open spec fn two_digit_str(n: nat) -> Seq<char> {
    if n < 10 {
        seq!['0'] + dec_str(n)
    } else {
        dec_str(n)
    }
}

/// A duration in whole seconds rendered as `H:MM:SS`.
pub open spec fn clock_str(total: nat) -> Seq<char> {
    dec_str(total / 3600) + seq![':'] + two_digit_str((total % 3600) / 60) + seq![':']
        + two_digit_str(total % 60)
}

/// The Unicode white-space code points — the characters that trimming a
/// text would remove.
pub open spec fn is_space_char(c: char) -> bool {
    let n = c as u32;
    ||| n == 0x20
    ||| 0x09 <= n <= 0x0D
    ||| n == 0x85
    ||| n == 0xA0
    ||| n == 0x1680
    ||| 0x2000 <= n <= 0x200A
    ||| n == 0x2028
    ||| n == 0x2029
    ||| n == 0x202F
    ||| n == 0x205F
    ||| n == 0x3000
}

/// The text holds nothing but white space (an empty text is blank) —
/// exactly the names that trimming would leave empty.
pub open spec fn is_blank(s: Seq<char>) -> bool {
    forall|i: int| 0 <= i < s.len() ==> is_space_char(#[trigger] s[i])
}

fn char_is_space(c: char) -> (b: bool)
    ensures
        b == is_space_char(c),
{
    let n = c as u32;
    n == 0x20 || (0x09 <= n && n <= 0x0D) || n == 0x85 || n == 0xA0 || n == 0x1680 || (0x2000 <= n
        && n <= 0x200A) || n == 0x2028 || n == 0x2029 || n == 0x202F || n == 0x205F || n == 0x3000
}

/// Whether the text holds nothing but white space.
pub fn is_blank_str(s: &str) -> (b: bool)
    ensures
        b == is_blank(s@),
{
    let len = s.unicode_len();
    let mut i: usize = 0;
    while i < len && char_is_space(s.get_char(i))
        invariant
            i <= len,
            len == s@.len(),
            forall|j: int| 0 <= j < i ==> is_space_char(#[trigger] s@[j]),
        decreases len - i,
    {
        i += 1;
    }
    i == len
}

/// Number of characters before the first line break (the whole length when
/// there is none).
pub open spec fn first_line_len(s: Seq<char>) -> int
    decreases s.len(),
{
    if s.len() == 0 {
        0
    } else if s[0] == '\n' {
        0
    } else {
        1 + first_line_len(s.drop_first())
    }
}

/// The part of `s` before its first line break.
pub open spec fn first_line(s: Seq<char>) -> Seq<char> {
    s.take(first_line_len(s))
}

proof fn lemma_first_line_len_at(s: Seq<char>, i: int)
    requires
        0 <= i <= s.len(),
        forall|j: int| 0 <= j < i ==> s[j] != '\n',
        i == s.len() || s[i] == '\n',
    ensures
        first_line_len(s) == i,
    decreases i,
{
    if i == 0 {
    } else {
        assert(s[0] != '\n');
        lemma_first_line_len_at(s.drop_first(), i - 1);
    }
}

fn push_digit(s: &mut String, d: u64)
    requires
        d < 10,
    ensures
        final(s)@ == old(s)@ + seq![digit_char(d as int)],
{
    if d == 0 {
        s.append("0");
        proof {
            reveal_strlit("0");
            assert("0"@ =~= seq![digit_char(0)]);
        }
    } else if d == 1 {
        s.append("1");
        proof {
            reveal_strlit("1");
            assert("1"@ =~= seq![digit_char(1)]);
        }
    } else if d == 2 {
        s.append("2");
        proof {
            reveal_strlit("2");
            assert("2"@ =~= seq![digit_char(2)]);
        }
    } else if d == 3 {
        s.append("3");
        proof {
            reveal_strlit("3");
            assert("3"@ =~= seq![digit_char(3)]);
        }
    } else if d == 4 {
        s.append("4");
        proof {
            reveal_strlit("4");
            assert("4"@ =~= seq![digit_char(4)]);
        }
    } else if d == 5 {
        s.append("5");
        proof {
            reveal_strlit("5");
            assert("5"@ =~= seq![digit_char(5)]);
        }
    } else if d == 6 {
        s.append("6");
        proof {
            reveal_strlit("6");
            assert("6"@ =~= seq![digit_char(6)]);
        }
    } else if d == 7 {
        s.append("7");
        proof {
            reveal_strlit("7");
            assert("7"@ =~= seq![digit_char(7)]);
        }
    } else if d == 8 {
        s.append("8");
        proof {
            reveal_strlit("8");
            assert("8"@ =~= seq![digit_char(8)]);
        }
    } else {
        s.append("9");
        proof {
            reveal_strlit("9");
            assert("9"@ =~= seq![digit_char(9)]);
        }
    }
}

/// Appends the decimal rendering of `n` to `s`.
pub fn push_u64_decimal(s: &mut String, n: u64)
    ensures
        final(s)@ == old(s)@ + dec_str(n as nat),
    decreases n,
{
    if n >= 10 {
        push_u64_decimal(s, n / 10);
        push_digit(s, n % 10);
        proof {
            assert(final(s)@ =~= old(s)@ + dec_str(n as nat));
        }
    } else {
        push_digit(s, n);
    }
}

/// Appends the signed decimal rendering of `v` to `s`.
pub fn push_i32_signed(s: &mut String, v: i32)
    ensures
        final(s)@ == old(s)@ + signed_str(v as int),
{
    if v < 0 {
        s.append("-");
        let m: u64 = (-(v as i64)) as u64;
        push_u64_decimal(s, m);
        proof {
            reveal_strlit("-");
            assert("-"@ =~= seq!['-']);
            assert(final(s)@ =~= old(s)@ + signed_str(v as int));
        }
    } else {
        push_u64_decimal(s, v as u64);
    }
}

/// A skill or stress delta rendered as the engine reports it: `+3`, `-4`.
pub fn format_delta(value: i32) -> (s: String)
    ensures
        s@ == delta_str(value as int),
{
    let mut s = String::new();
    if value >= 0 {
        s.append("+");
        push_u64_decimal(&mut s, value as u64);
        proof {
            reveal_strlit("+");
            assert("+"@ =~= seq!['+']);
            assert(s@ =~= delta_str(value as int));
        }
    } else {
        push_i32_signed(&mut s, value);
    }
    s
}

fn push_two_digit(s: &mut String, n: u64)
    ensures
        final(s)@ == old(s)@ + two_digit_str(n as nat),
{
    if n < 10 {
        s.append("0");
        proof {
            reveal_strlit("0");
            assert("0"@ =~= seq!['0']);
        }
    }
    push_u64_decimal(s, n);
    proof {
        assert(final(s)@ =~= old(s)@ + two_digit_str(n as nat));
    }
}

/// Renders a duration of whole seconds as `H:MM:SS`.
pub fn format_clock(total_seconds: u64) -> (s: String)
    ensures
        s@ == clock_str(total_seconds as nat),
{
    let hours = total_seconds / 3600;
    let minutes = (total_seconds % 3600) / 60;
    let secs = total_seconds % 60;
    let mut s = String::new();
    push_u64_decimal(&mut s, hours);
    s.append(":");
    push_two_digit(&mut s, minutes);
    s.append(":");
    push_two_digit(&mut s, secs);
    proof {
        reveal_strlit(":");
        assert(":"@ =~= seq![':']);
        assert(s@ =~= clock_str(total_seconds as nat));
    }
    s
}

/// The part of `s` before its first line break, as a fresh string.
pub fn first_line_of(s: &String) -> (r: String)
    ensures
        r@ == first_line(s@),
{
    let len = s.as_str().unicode_len();
    let mut i: usize = 0;
    while i < len && s.as_str().get_char(i) != '\n'
        invariant
            i <= len,
            len == s@.len(),
            forall|j: int| 0 <= j < i ==> s@[j] != '\n',
        decreases len - i,
    {
        i += 1;
    }
    proof {
        lemma_first_line_len_at(s@, i as int);
    }
    let part = s.as_str().substring_char(0, i);
    String::from_str(part)
}

} // verus!
