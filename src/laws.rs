use vstd::prelude::*;

use crate::opcode::word_of;
use crate::parser::{decode_all, decode_word, word_at};
use crate::token::{addr_text, byte_text, dec_text, digit_char, hex_text, reg_text, word_text};

verus! {

/// Decoding is a function of the buffer's contents: equal buffers give equal
/// token sequences.
pub proof fn lemma_decode_deterministic(a: Seq<u8>, b: Seq<u8>)
    requires
        a == b,
    ensures
        decode_all(a) == decode_all(b),
{
}

/// The `i`-th token depends on the `i`-th pair of bytes alone: two buffers
/// that agree on that pair agree on that token.
pub proof fn lemma_token_depends_on_its_pair(a: Seq<u8>, b: Seq<u8>, i: int)
    requires
        0 <= i,
        2 * i + 1 < a.len(),
        2 * i + 1 < b.len(),
        a[2 * i] == b[2 * i],
        a[2 * i + 1] == b[2 * i + 1],
    ensures
        decode_all(a)[i] == decode_all(b)[i],
        decode_all(a)[i] == decode_word(word_of(a[2 * i], a[2 * i + 1])),
{
}

/// A buffer of length `2N` or `2N + 1` gives exactly `N` tokens, the `i`-th
/// decoded from bytes `2i` and `2i + 1`; an empty buffer gives none.
pub proof fn lemma_decode_length(bytes: Seq<u8>)
    ensures
        decode_all(bytes).len() == bytes.len() / 2,
        bytes.len() == 0 ==> decode_all(bytes) == Seq::<crate::token::Token>::empty(),
        forall|i: int|
            0 <= i < bytes.len() / 2 ==> #[trigger] decode_all(bytes)[i] == decode_word(
                word_at(bytes, i),
            ),
{
    if bytes.len() == 0 {
        assert(decode_all(bytes) =~= Seq::<crate::token::Token>::empty());
    }
}

/// A trailing odd byte contributes nothing: appending one byte to a buffer of
/// even length leaves its tokens unchanged.
pub proof fn lemma_trailing_byte_dropped(bytes: Seq<u8>, last: u8)
    requires
        bytes.len() % 2 == 0,
    ensures
        decode_all(bytes.push(last)) == decode_all(bytes),
{
    assert(decode_all(bytes.push(last)) =~= decode_all(bytes));
}

/// Decoding a concatenation of whole words decodes each part in turn.
pub proof fn lemma_decode_append(a: Seq<u8>, b: Seq<u8>)
    requires
        a.len() % 2 == 0,
    ensures
        decode_all(a + b) == decode_all(a) + decode_all(b),
{
    let ab = a + b;
    assert forall|i: int| 0 <= i < decode_all(ab).len() implies #[trigger] decode_all(ab)[i] == (
    decode_all(a) + decode_all(b))[i] by {
        if i < a.len() / 2 {
            assert(ab[2 * i] == a[2 * i]);
            assert(ab[2 * i + 1] == a[2 * i + 1]);
        } else {
            let j = i - a.len() / 2;
            assert(ab[2 * i] == b[2 * j]);
            assert(ab[2 * i + 1] == b[2 * j + 1]);
        }
    }
    assert(decode_all(ab) =~= decode_all(a) + decode_all(b));
}

/// A decimal digit.
pub open spec fn is_dec_digit(c: char) -> bool {
    '0' <= c <= '9'
}

/// A lowercase hexadecimal digit.
pub open spec fn is_hex_digit(c: char) -> bool {
    ('0' <= c <= '9') || ('a' <= c <= 'f')
}

/// A decimal number is written with at least one digit, all decimal, and
/// without a leading zero unless it is zero itself.
pub proof fn lemma_dec_text_grammar(n: nat)
    ensures
        dec_text(n).len() >= 1,
        forall|k: int| 0 <= k < dec_text(n).len() ==> is_dec_digit(#[trigger] dec_text(n)[k]),
        n > 0 ==> dec_text(n)[0] != '0',
    decreases n,
{
    reveal_strlit("0123456789abcdef");
    if n >= 10 {
        lemma_dec_text_grammar(n / 10);
        let p = dec_text(n / 10);
        assert(dec_text(n) == p.push(digit_char(n % 10)));
        assert forall|k: int| 0 <= k < dec_text(n).len() implies is_dec_digit(
            #[trigger] dec_text(n)[k],
        ) by {
            if k < p.len() {
                assert(dec_text(n)[k] == p[k]);
            }
        }
    }
}

/// The operand grammar of rendered lines: a register of index 0 to 15 is `V`
/// and one or two decimal digits; a byte is `0x` and exactly two lowercase
/// hexadecimal digits; an address is `$` and its decimal digits; a raw word
/// starts with `0x`.
pub proof fn lemma_operand_grammar(v: u8, b: u8, a: u16, w: u16)
    ensures
        v < 16 ==> 2 <= reg_text(v).len() <= 3,
        reg_text(v)[0] == 'V',
        forall|k: int| 1 <= k < reg_text(v).len() ==> is_dec_digit(#[trigger] reg_text(v)[k]),
        byte_text(b).len() == 4,
        byte_text(b)[0] == '0' && byte_text(b)[1] == 'x',
        is_hex_digit(byte_text(b)[2]) && is_hex_digit(byte_text(b)[3]),
        addr_text(a)[0] == '$',
        addr_text(a).len() >= 2,
        forall|k: int| 1 <= k < addr_text(a).len() ==> is_dec_digit(#[trigger] addr_text(a)[k]),
        word_text(w).len() >= 3,
        word_text(w)[0] == '0' && word_text(w)[1] == 'x',
{
    reveal_strlit("0123456789abcdef");
    reveal_strlit("0x");
    lemma_dec_text_grammar(v as nat);
    lemma_dec_text_grammar(a as nat);
    let dv = dec_text(v as nat);
    let da = dec_text(a as nat);
    assert forall|k: int| 1 <= k < reg_text(v).len() implies is_dec_digit(
        #[trigger] reg_text(v)[k],
    ) by {
        assert(reg_text(v)[k] == dv[k - 1]);
    }
    assert forall|k: int| 1 <= k < addr_text(a).len() implies is_dec_digit(
        #[trigger] addr_text(a)[k],
    ) by {
        assert(addr_text(a)[k] == da[k - 1]);
    }
    if v < 16 {
        if v >= 10 {
            reveal_with_fuel(dec_text, 2);
        }
    }
    lemma_hex_text_nonempty(w as nat);
}

proof fn lemma_hex_text_nonempty(n: nat)
    ensures
        hex_text(n).len() >= 1,
    decreases n,
{
    if n >= 16 {
        lemma_hex_text_nonempty(n / 16);
    }
}

} // verus!
