//! The diagnostic line that accompanies a result.

use crate::marshal::foreign_bytes;
use vstd::prelude::*;
use vstd::string::StringExecFns;
use vstd::utf8::{encode_utf8, is_ascii_chars, is_ascii_chars_encode_utf8};

verus! {

/// The character of a decimal digit.
pub open spec fn digit(d: nat) -> char
    recommends
        d < 10,
{
    if d == 0 {
        '0'
    } else if d == 1 {
        '1'
    } else if d == 2 {
        '2'
    } else if d == 3 {
        '3'
    } else if d == 4 {
        '4'
    } else if d == 5 {
        '5'
    } else if d == 6 {
        '6'
    } else if d == 7 {
        '7'
    } else if d == 8 {
        '8'
    } else {
        '9'
    }
}

/// The decimal numeral of `n`, without leading zeros.
pub open spec fn decimal(n: nat) -> Seq<char>
    decreases n,
{
    if n < 10 {
        seq![digit(n)]
    } else {
        decimal(n / 10).push(digit(n % 10))
    }
}

/// The diagnostic line: the raw inputs of a play, each after its name.
/// `acc` is the accuracy as the caller wrote it.
pub open spec fn debug_line(mods: nat, combo: nat, miss: nat, acc: Seq<char>, max_combo: nat) -> Seq<
    char,
> {
    "mods "@ + decimal(mods) + " combo "@ + decimal(combo) + " miss "@ + decimal(miss) + " acc "@
        + acc + " max_combo "@ + decimal(max_combo)
}

fn digit_str(d: u64) -> (r: &'static str)
    requires
        d < 10,
    ensures
        r@ == seq![digit(d as nat)],
{
    proof {
        reveal_strlit("0");
        reveal_strlit("1");
        reveal_strlit("2");
        reveal_strlit("3");
        reveal_strlit("4");
        reveal_strlit("5");
        reveal_strlit("6");
        reveal_strlit("7");
        reveal_strlit("8");
        reveal_strlit("9");
    }
    let r = if d == 0 {
        "0"
    } else if d == 1 {
        "1"
    } else if d == 2 {
        "2"
    } else if d == 3 {
        "3"
    } else if d == 4 {
        "4"
    } else if d == 5 {
        "5"
    } else if d == 6 {
        "6"
    } else if d == 7 {
        "7"
    } else if d == 8 {
        "8"
    } else {
        "9"
    };
    assert(r@ =~= seq![digit(d as nat)]);
    r
}

/// Appends the decimal numeral of `n` to `out`.
pub fn push_decimal(out: &mut String, n: u64)
    ensures
        final(out)@ == old(out)@ + decimal(n as nat),
    decreases n,
{
    if n >= 10 {
        push_decimal(out, n / 10);
    }
    out.append(digit_str(n % 10));
    proof {
        let d = seq![digit((n % 10) as nat)];
        if n >= 10 {
            assert(old(out)@ + decimal((n / 10) as nat) + d =~= old(out)@ + decimal(
                (n / 10) as nat,
            ).push(digit((n % 10) as nat)));
        }
    }
}

/// Writes the diagnostic line for a play.
pub fn debug_text(mods: u32, combo: usize, miss: usize, acc: &str, max_combo: usize) -> (r: String)
    ensures
        r@ == debug_line(mods as nat, combo as nat, miss as nat, acc@, max_combo as nat),
{
    let mut out = String::new();
    out.append("mods ");
    push_decimal(&mut out, mods as u64);
    out.append(" combo ");
    push_decimal(&mut out, combo as u64);
    out.append(" miss ");
    push_decimal(&mut out, miss as u64);
    out.append(" acc ");
    out.append(acc);
    out.append(" max_combo ");
    push_decimal(&mut out, max_combo as u64);
    proof {
        assert(out@ =~= debug_line(mods as nat, combo as nat, miss as nat, acc@, max_combo as nat));
    }
    out
}

/// Text of ASCII characters other than NUL.
spec fn plain(text: Seq<char>) -> bool {
    forall|i: int| 0 <= i < text.len() ==> '\u{1}' <= #[trigger] text[i] <= '\u{7f}'
}

/// The UTF-8 bytes of a text are those of its two halves, one after the
/// other.
proof fn lemma_encoding_of_concatenation(a: Seq<char>, b: Seq<char>)
    ensures
        encode_utf8(a + b) == encode_utf8(a) + encode_utf8(b),
    decreases a.len(),
{
    if a.len() == 0 {
        assert(a + b =~= b);
        assert(encode_utf8(a) + encode_utf8(b) =~= encode_utf8(b));
    } else {
        assert((a + b).drop_first() =~= a.drop_first() + b);
        lemma_encoding_of_concatenation(a.drop_first(), b);
        assert(encode_utf8(a + b) =~= encode_utf8(a) + encode_utf8(b));
    }
}

/// The UTF-8 bytes of a plain text hold no NUL.
proof fn lemma_plain_text_has_no_nul(text: Seq<char>)
    requires
        plain(text),
    ensures
        !encode_utf8(text).contains(0u8),
{
    assert(is_ascii_chars(text));
    is_ascii_chars_encode_utf8(text);
    let bytes = encode_utf8(text);
    if bytes.contains(0u8) {
        let i = choose|i: int| 0 <= i < bytes.len() && bytes[i] == 0u8;
        assert(text[i] as u8 == bytes[i]);
    }
}

/// A decimal numeral is plain text.
proof fn lemma_decimal_is_plain(n: nat)
    ensures
        plain(decimal(n)),
    decreases n,
{
    if n >= 10 {
        lemma_decimal_is_plain(n / 10);
    }
}

proof fn lemma_nul_in_concatenation(a: Seq<char>, b: Seq<char>)
    ensures
        encode_utf8(a + b).contains(0u8) <==> encode_utf8(a).contains(0u8) || encode_utf8(
            b,
        ).contains(0u8),
{
    lemma_encoding_of_concatenation(a, b);
    let x = encode_utf8(a);
    let y = encode_utf8(b);
    if (x + y).contains(0u8) {
        let i = choose|i: int| 0 <= i < (x + y).len() && (x + y)[i] == 0u8;
        if i < x.len() {
            assert(x[i] == 0u8);
        } else {
            assert(y[i - x.len()] == 0u8);
        }
    }
    if x.contains(0u8) {
        let i = choose|i: int| 0 <= i < x.len() && x[i] == 0u8;
        assert((x + y)[i] == 0u8);
    }
    if y.contains(0u8) {
        let i = choose|i: int| 0 <= i < y.len() && y[i] == 0u8;
        assert((x + y)[i + x.len()] == 0u8);
    }
}

/// The diagnostic line has a foreign form exactly when the accuracy text has
/// one: nothing else in the line can hold a NUL.
pub proof fn debug_line_foreign_form(
    mods: nat,
    combo: nat,
    miss: nat,
    acc: Seq<char>,
    max_combo: nat,
)
    ensures
        foreign_bytes(debug_line(mods, combo, miss, acc, max_combo)) is Some <==> foreign_bytes(
            acc,
        ) is Some,
{
    reveal_strlit("mods ");
    reveal_strlit(" combo ");
    reveal_strlit(" miss ");
    reveal_strlit(" acc ");
    reveal_strlit(" max_combo ");
    let s1 = "mods "@;
    let s2 = s1 + decimal(mods);
    let s3 = s2 + " combo "@;
    let s4 = s3 + decimal(combo);
    let s5 = s4 + " miss "@;
    let s6 = s5 + decimal(miss);
    let s7 = s6 + " acc "@;
    let s8 = s7 + acc;
    let s9 = s8 + " max_combo "@;
    let s10 = s9 + decimal(max_combo);
    assert(plain("mods "@));
    assert(plain(" combo "@));
    assert(plain(" miss "@));
    assert(plain(" acc "@));
    assert(plain(" max_combo "@));
    lemma_decimal_is_plain(mods);
    lemma_decimal_is_plain(combo);
    lemma_decimal_is_plain(miss);
    lemma_decimal_is_plain(max_combo);
    lemma_plain_text_has_no_nul("mods "@);
    lemma_plain_text_has_no_nul(" combo "@);
    lemma_plain_text_has_no_nul(" miss "@);
    lemma_plain_text_has_no_nul(" acc "@);
    lemma_plain_text_has_no_nul(" max_combo "@);
    lemma_plain_text_has_no_nul(decimal(mods));
    lemma_plain_text_has_no_nul(decimal(combo));
    lemma_plain_text_has_no_nul(decimal(miss));
    lemma_plain_text_has_no_nul(decimal(max_combo));
    lemma_nul_in_concatenation(s1, decimal(mods));
    lemma_nul_in_concatenation(s2, " combo "@);
    lemma_nul_in_concatenation(s3, decimal(combo));
    lemma_nul_in_concatenation(s4, " miss "@);
    lemma_nul_in_concatenation(s5, decimal(miss));
    lemma_nul_in_concatenation(s6, " acc "@);
    lemma_nul_in_concatenation(s7, acc);
    lemma_nul_in_concatenation(s8, " max_combo "@);
    lemma_nul_in_concatenation(s9, decimal(max_combo));
    assert(s10 == debug_line(mods, combo, miss, acc, max_combo));
}

} // verus!
