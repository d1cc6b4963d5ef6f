//! Serialization of fixed-point words into the display tool's argument
//! format.
//!
//! Each 64-bit word is split with explicit shifts into its low and then
//! its high 32 bits (never by reinterpreting memory, so the layout does
//! not depend on the machine's byte order), and the resulting eighteen
//! values are written as unsigned decimal tokens joined by commas.

use vstd::prelude::*;
use vstd::string::StringExecFns;

verus! {

/// The low 32 bits of a word.
pub open spec fn low_half(w: u64) -> u32 {
    (w as int % 0x1_0000_0000) as u32
}

/// The high 32 bits of a word.
pub open spec fn high_half(w: u64) -> u32 {
    (w as int / 0x1_0000_0000) as u32
}

/// The token values of a word sequence: for each word its low half,
/// then its high half.
pub open spec fn spec_tokens(words: Seq<u64>) -> Seq<u32> {
    Seq::new(
        2 * words.len(),
        |i: int|
            if i % 2 == 0 {
                low_half(words[i / 2])
            } else {
                high_half(words[i / 2])
            },
    )
}

/// The decimal digit character for `d`.
pub open spec fn digit_char(d: int) -> char {
    if d == 0 {
        '0'
    } else if d == 1 {
        '1'
    } else if d == 2 {
        '2'
    } else if d == 3 {
        '3'
    } else if d == 4 {
        '4'
    } else if d == 5 {
        '5'
    } else if d == 6 {
        '6'
    } else if d == 7 {
        '7'
    } else if d == 8 {
        '8'
    } else {
        '9'
    }
}

/// The usual decimal rendering of a non-negative integer: no leading
/// zeros, except that zero itself is `"0"`.
pub open spec fn dec_str(n: int) -> Seq<char>
    decreases n,
{
    if n < 10 {
        seq![digit_char(n)]
    } else {
        dec_str(n / 10).push(digit_char(n % 10))
    }
}

/// Token values joined by single commas, in order.
pub open spec fn join_tokens(toks: Seq<u32>) -> Seq<char>
    decreases toks.len(),
{
    if toks.len() == 0 {
        Seq::empty()
    } else if toks.len() == 1 {
        dec_str(toks[0] as int)
    } else {
        join_tokens(toks.drop_last()).push(',') + dec_str(toks.last() as int)
    }
}

/// The full argument string for a word sequence.
pub open spec fn spec_arg_string(words: Seq<u64>) -> Seq<char> {
    join_tokens(spec_tokens(words))
}

/// Splitting by shift and mask is splitting by division and remainder.
proof fn lemma_split_bits(w: u64)
    ensures
        (w & 0xFFFF_FFFFu64) as int == w as int % 0x1_0000_0000,
        (w >> 32u64) as int == w as int / 0x1_0000_0000,
        w & 0xFFFF_FFFFu64 <= 0xFFFF_FFFFu64,
        w >> 32u64 <= 0xFFFF_FFFFu64,
{
    assert((w & 0xFFFF_FFFFu64) == w % 0x1_0000_0000u64) by (bit_vector);
    assert((w >> 32u64) == w / 0x1_0000_0000u64) by (bit_vector);
    assert(w & 0xFFFF_FFFFu64 <= 0xFFFF_FFFFu64) by (bit_vector);
    assert(w >> 32u64 <= 0xFFFF_FFFFu64) by (bit_vector);
}

/// Splits each word into its low and high 32-bit halves, low first,
/// with explicit bit shifts.
pub fn split_words(words: &Vec<u64>) -> (toks: Vec<u32>)
    ensures
        toks@ == spec_tokens(words@),
{
    let mut toks: Vec<u32> = Vec::new();
    let mut i: usize = 0;
    while i < words.len()
        invariant
            i <= words@.len(),
            toks@.len() == 2 * i,
            forall|j: int| 0 <= j < 2 * i ==> toks@[j] == spec_tokens(words@)[j],
        decreases words@.len() - i,
    {
        let w = words[i];
        proof {
            lemma_split_bits(w);
        }
        let low: u32 = (w & 0xFFFF_FFFF) as u32;
        let high: u32 = (w >> 32) as u32;
        toks.push(low);
        toks.push(high);
        i = i + 1;
    }
    proof {
        assert(toks@ =~= spec_tokens(words@));
    }
    toks
}

/// The one-character string for a decimal digit.
fn digit_str(d: u32) -> (s: &'static str)
    requires
        d < 10,
    ensures
        s@ == seq![digit_char(d as int)],
{
    proof {
        reveal_strlit("0");
        reveal_strlit("1");
        reveal_strlit("2");
        reveal_strlit("3");
        reveal_strlit("4");
        reveal_strlit("5");
        reveal_strlit("6");
        reveal_strlit("7");
        reveal_strlit("8");
        reveal_strlit("9");
    }
    let s = match d {
        0 => "0",
        1 => "1",
        2 => "2",
        3 => "3",
        4 => "4",
        5 => "5",
        6 => "6",
        7 => "7",
        8 => "8",
        _ => "9",
    };
    proof {
        assert(s@ =~= seq![digit_char(d as int)]);
    }
    s
}

/// Renders a token as an unsigned decimal string.
pub fn u32_to_dec(n: u32) -> (s: String)
    ensures
        s@ == dec_str(n as int),
    decreases n,
{
    if n < 10 {
        let s = digit_str(n).to_owned();
        proof {
            assert(s@ =~= dec_str(n as int));
        }
        s
    } else {
        let mut s = u32_to_dec(n / 10);
        s.append(digit_str(n % 10));
        proof {
            assert(s@ =~= dec_str(n as int));
        }
        s
    }
}

/// Serializes nine fixed-point words into the argument string: eighteen
/// unsigned 32-bit decimal tokens (each word's low half, then its high
/// half) joined by commas.
pub fn to_argument_string(words: &Vec<u64>) -> (s: String)
    requires
        words@.len() == 9,
    ensures
        s@ == spec_arg_string(words@),
{
    let toks = split_words(words);
    let mut s = String::new();
    let mut i: usize = 0;
    while i < toks.len()
        invariant
            toks@ == spec_tokens(words@),
            toks@.len() == 18,
            i <= 18,
            s@ == join_tokens(toks@.take(i as int)),
        decreases toks@.len() - i,
    {
        if i > 0 {
            proof {
                reveal_strlit(",");
            }
            s.append(",");
        }
        let t = u32_to_dec(toks[i]);
        s.append(t.as_str());
        proof {
            let pre = toks@.take(i as int);
            let now = toks@.take(i as int + 1);
            assert(now.drop_last() =~= pre);
            assert(now.last() == toks@[i as int]);
            assert(s@ =~= join_tokens(now));
        }
        i = i + 1;
    }
    proof {
        assert(toks@.take(18int) =~= toks@);
    }
    s
}

} // verus!
