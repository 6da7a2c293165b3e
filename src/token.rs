use vstd::prelude::*;
use vstd::string::StrSliceExecFns;
use vstd::string::StringExecFns;

verus! {

/// One decoded instruction of the base instruction set, or a word that names
/// no instruction (`DATA`, which keeps the raw word).
///
/// Register operands are register indices, `Byte` operands immediate bytes,
/// `Addr`/`NNN` operands 12-bit addresses, and the third operand of `DRW` the
/// sprite height.
#[allow(non_camel_case_types)]
#[derive(Clone, Copy, Debug, PartialEq, Eq, Structural, PartialOrd, Ord)]
pub enum Token {
    CLS,
    RET,
    JP_NNN(u16),
    CALL_Addr(u16),
    SE_Vx_Byte(u8, u8),
    SNE_Vx_Byte(u8, u8),
    SE_Vx_Vy(u8, u8),
    LD_Vx_Byte(u8, u8),
    ADD_Vx_Byte(u8, u8),
    LD_Vx_Vy(u8, u8),
    OR_Vx_Vy(u8, u8),
    AND_Vx_Vy(u8, u8),
    XOR_Vx_Vy(u8, u8),
    ADD_Vx_Vy(u8, u8),
    SUB_Vx_Vy(u8, u8),
    SHR_Vx_Vy(u8, u8),
    SUBN_Vx_Vy(u8, u8),
    SHL_Vx_Vy(u8, u8),
    SNE_Vx_Vy(u8, u8),
    LD_I_Addr(u16),
    JP_V0_Addr(u16),
    RND_Vx_Byte(u8, u8),
    DRW_Vx_Vy_N(u8, u8, u8),
    SKP_Vx(u8),
    SKNP_Vx(u8),
    LD_Vx_Dt(u8),
    LD_Vx_K(u8),
    LD_Dt_Vx(u8),
    LD_St_Vx(u8),
    ADD_I_Vx(u8),
    LD_F_Vx(u8),
    LD_B_Vx(u8),
    LD_I_Vx(u8),
    LD_Vx_I(u8),
    DATA(u16),
}

/// The lowercase digit of value `d` (0 to 15).
pub open spec fn digit_char(d: nat) -> char {
    "0123456789abcdef"@[d as int]
}

/// `n` written in decimal, without leading zeros.
pub open spec fn dec_text(n: nat) -> Seq<char>
    decreases n,
{
    if n < 10 {
        seq![digit_char(n)]
    } else {
        dec_text(n / 10).push(digit_char(n % 10))
    }
}

/// `n` written in lowercase hexadecimal, without leading zeros.
pub open spec fn hex_text(n: nat) -> Seq<char>
    decreases n,
{
    if n < 16 {
        seq![digit_char(n)]
    } else {
        hex_text(n / 16).push(digit_char(n % 16))
    }
}

/// A register operand: `V` and the decimal index.
pub open spec fn reg_text(v: u8) -> Seq<char> {
    seq!['V'] + dec_text(v as nat)
}

/// A byte operand: `0x` and exactly two lowercase hexadecimal digits.
pub open spec fn byte_text(b: u8) -> Seq<char> {
    "0x"@ + seq![digit_char((b / 16) as nat), digit_char((b % 16) as nat)]
}

/// An address operand: `$` and the decimal address.
pub open spec fn addr_text(a: u16) -> Seq<char> {
    seq!['$'] + dec_text(a as nat)
}

/// A raw word: `0x` and its lowercase hexadecimal digits.
pub open spec fn word_text(w: u16) -> Seq<char> {
    "0x"@ + hex_text(w as nat)
}

/// A mnemonic followed by one operand.
pub open spec fn text1(m: Seq<char>, a: Seq<char>) -> Seq<char> {
    m + " "@ + a
}

/// A mnemonic followed by two operands.
pub open spec fn text2(m: Seq<char>, a: Seq<char>, b: Seq<char>) -> Seq<char> {
    m + " "@ + a + " "@ + b
}

/// The canonical text line of a token.
pub open spec fn token_text(t: Token) -> Seq<char> {
    match t {
        Token::CLS => "CLS"@,
        Token::RET => "RET"@,
        Token::JP_NNN(a) => text1("JP"@, addr_text(a)),
        Token::CALL_Addr(a) => text1("CALL"@, addr_text(a)),
        Token::SE_Vx_Byte(x, b) => text2("SE"@, reg_text(x), byte_text(b)),
        Token::SNE_Vx_Byte(x, b) => text2("SNE"@, reg_text(x), byte_text(b)),
        Token::SE_Vx_Vy(x, y) => text2("SE"@, reg_text(x), reg_text(y)),
        Token::LD_Vx_Byte(x, b) => text2("LD"@, reg_text(x), byte_text(b)),
        Token::ADD_Vx_Byte(x, b) => text2("ADD"@, reg_text(x), byte_text(b)),
        Token::LD_Vx_Vy(x, y) => text2("LD"@, reg_text(x), reg_text(y)),
        Token::OR_Vx_Vy(x, y) => text2("OR"@, reg_text(x), reg_text(y)),
        Token::AND_Vx_Vy(x, y) => text2("AND"@, reg_text(x), reg_text(y)),
        Token::XOR_Vx_Vy(x, y) => text2("XOR"@, reg_text(x), reg_text(y)),
        Token::ADD_Vx_Vy(x, y) => text2("ADD"@, reg_text(x), reg_text(y)),
        Token::SUB_Vx_Vy(x, y) => text2("SUB"@, reg_text(x), reg_text(y)),
        Token::SHR_Vx_Vy(x, y) => text2("SHR"@, reg_text(x), reg_text(y)),
        Token::SUBN_Vx_Vy(x, y) => text2("SUBN"@, reg_text(x), reg_text(y)),
        Token::SHL_Vx_Vy(x, y) => text2("SHL"@, reg_text(x), reg_text(y)),
        Token::SNE_Vx_Vy(x, y) => text2("SNE"@, reg_text(x), reg_text(y)),
        Token::LD_I_Addr(a) => text2("LD"@, "I"@, addr_text(a)),
        Token::JP_V0_Addr(a) => text2("JP"@, "V0"@, addr_text(a)),
        Token::RND_Vx_Byte(x, b) => text2("RND"@, reg_text(x), byte_text(b)),
        Token::DRW_Vx_Vy_N(x, y, n) => text1(text2("DRW"@, reg_text(x), reg_text(y)), byte_text(n)),
        Token::SKP_Vx(x) => text1("SKP"@, reg_text(x)),
        Token::SKNP_Vx(x) => text1("SKNP"@, reg_text(x)),
        Token::LD_Vx_Dt(x) => text2("LD"@, reg_text(x), "D"@),
        Token::LD_Vx_K(x) => text2("LD"@, reg_text(x), "K"@),
        Token::LD_Dt_Vx(x) => text2("LD"@, "D"@, reg_text(x)),
        Token::LD_St_Vx(x) => text2("LD"@, "S"@, reg_text(x)),
        Token::ADD_I_Vx(x) => text2("ADD"@, "I"@, reg_text(x)),
        Token::LD_F_Vx(x) => text2("LD"@, "F"@, reg_text(x)),
        Token::LD_B_Vx(x) => text2("LD"@, "B"@, reg_text(x)),
        Token::LD_I_Vx(x) => text2("LD"@, "I"@, reg_text(x)),
        Token::LD_Vx_I(x) => text2("LD"@, reg_text(x), "I"@),
        Token::DATA(w) => text1("DATA"@, word_text(w)),
    }
}

/// The one-character text of digit `d`.
fn digit_str(d: u8) -> (r: &'static str)
    requires
        d < 16,
    ensures
        r@ == seq![digit_char(d as nat)],
{
    let digits = "0123456789abcdef";
    proof {
        reveal_strlit("0123456789abcdef");
    }
    let r = digits.substring_char(d as usize, d as usize + 1);
    assert(r@ =~= seq![digit_char(d as nat)]);
    r
}

fn push_dec(s: &mut String, n: u16)
    ensures
        final(s)@ == old(s)@ + dec_text(n as nat),
    decreases n,
{
    if n >= 10 {
        push_dec(s, n / 10);
    }
    s.append(digit_str((n % 10) as u8));
    assert(final(s)@ =~= old(s)@ + dec_text(n as nat));
}

fn push_hex(s: &mut String, n: u16)
    ensures
        final(s)@ == old(s)@ + hex_text(n as nat),
    decreases n,
{
    if n >= 16 {
        push_hex(s, n / 16);
    }
    s.append(digit_str((n % 16) as u8));
    assert(final(s)@ =~= old(s)@ + hex_text(n as nat));
}

fn push_reg(s: &mut String, v: u8)
    ensures
        final(s)@ == old(s)@ + reg_text(v),
{
    s.append("V");
    proof {
        reveal_strlit("V");
    }
    push_dec(s, v as u16);
    assert(final(s)@ =~= old(s)@ + reg_text(v));
}

fn push_byte(s: &mut String, b: u8)
    ensures
        final(s)@ == old(s)@ + byte_text(b),
{
    s.append("0x");
    s.append(digit_str(b / 16));
    s.append(digit_str(b % 16));
    assert(final(s)@ =~= old(s)@ + byte_text(b));
}

fn push_addr(s: &mut String, a: u16)
    ensures
        final(s)@ == old(s)@ + addr_text(a),
{
    s.append("$");
    proof {
        reveal_strlit("$");
    }
    push_dec(s, a);
    assert(final(s)@ =~= old(s)@ + addr_text(a));
}

impl Token {
    /// The canonical text line of this token, e.g. `SE V1 0x3f`, `JP $2748`,
    /// `DATA 0x123`.
    pub fn render(&self) -> (r: String)
        ensures
            r@ == token_text(*self),
    {
        let mut s = String::new();
        match *self {
            Token::CLS => s.append("CLS"),
            Token::RET => s.append("RET"),
            Token::JP_NNN(a) => {
                s.append("JP");
                s.append(" ");
                push_addr(&mut s, a);
            },
            Token::CALL_Addr(a) => {
                s.append("CALL");
                s.append(" ");
                push_addr(&mut s, a);
            },
            Token::SE_Vx_Byte(x, b) => {
                s.append("SE");
                s.append(" ");
                push_reg(&mut s, x);
                s.append(" ");
                push_byte(&mut s, b);
            },
            Token::SNE_Vx_Byte(x, b) => {
                s.append("SNE");
                s.append(" ");
                push_reg(&mut s, x);
                s.append(" ");
                push_byte(&mut s, b);
            },
            Token::SE_Vx_Vy(x, y) => {
                s.append("SE");
                s.append(" ");
                push_reg(&mut s, x);
                s.append(" ");
                push_reg(&mut s, y);
            },
            Token::LD_Vx_Byte(x, b) => {
                s.append("LD");
                s.append(" ");
                push_reg(&mut s, x);
                s.append(" ");
                push_byte(&mut s, b);
            },
            Token::ADD_Vx_Byte(x, b) => {
                s.append("ADD");
                s.append(" ");
                push_reg(&mut s, x);
                s.append(" ");
                push_byte(&mut s, b);
            },
            Token::LD_Vx_Vy(x, y) => {
                s.append("LD");
                s.append(" ");
                push_reg(&mut s, x);
                s.append(" ");
                push_reg(&mut s, y);
            },
            Token::OR_Vx_Vy(x, y) => {
                s.append("OR");
                s.append(" ");
                push_reg(&mut s, x);
                s.append(" ");
                push_reg(&mut s, y);
            },
            Token::AND_Vx_Vy(x, y) => {
                s.append("AND");
                s.append(" ");
                push_reg(&mut s, x);
                s.append(" ");
                push_reg(&mut s, y);
            },
            Token::XOR_Vx_Vy(x, y) => {
                s.append("XOR");
                s.append(" ");
                push_reg(&mut s, x);
                s.append(" ");
                push_reg(&mut s, y);
            },
            Token::ADD_Vx_Vy(x, y) => {
                s.append("ADD");
                s.append(" ");
                push_reg(&mut s, x);
                s.append(" ");
                push_reg(&mut s, y);
            },
            Token::SUB_Vx_Vy(x, y) => {
                s.append("SUB");
                s.append(" ");
                push_reg(&mut s, x);
                s.append(" ");
                push_reg(&mut s, y);
            },
            Token::SHR_Vx_Vy(x, y) => {
                s.append("SHR");
                s.append(" ");
                push_reg(&mut s, x);
                s.append(" ");
                push_reg(&mut s, y);
            },
            Token::SUBN_Vx_Vy(x, y) => {
                s.append("SUBN");
                s.append(" ");
                push_reg(&mut s, x);
                s.append(" ");
                push_reg(&mut s, y);
            },
            Token::SHL_Vx_Vy(x, y) => {
                s.append("SHL");
                s.append(" ");
                push_reg(&mut s, x);
                s.append(" ");
                push_reg(&mut s, y);
            },
            Token::SNE_Vx_Vy(x, y) => {
                s.append("SNE");
                s.append(" ");
                push_reg(&mut s, x);
                s.append(" ");
                push_reg(&mut s, y);
            },
            Token::LD_I_Addr(a) => {
                s.append("LD");
                s.append(" ");
                s.append("I");
                s.append(" ");
                push_addr(&mut s, a);
            },
            Token::JP_V0_Addr(a) => {
                s.append("JP");
                s.append(" ");
                s.append("V0");
                s.append(" ");
                push_addr(&mut s, a);
            },
            Token::RND_Vx_Byte(x, b) => {
                s.append("RND");
                s.append(" ");
                push_reg(&mut s, x);
                s.append(" ");
                push_byte(&mut s, b);
            },
            Token::DRW_Vx_Vy_N(x, y, n) => {
                s.append("DRW");
                s.append(" ");
                push_reg(&mut s, x);
                s.append(" ");
                push_reg(&mut s, y);
                s.append(" ");
                push_byte(&mut s, n);
            },
            Token::SKP_Vx(x) => {
                s.append("SKP");
                s.append(" ");
                push_reg(&mut s, x);
            },
            Token::SKNP_Vx(x) => {
                s.append("SKNP");
                s.append(" ");
                push_reg(&mut s, x);
            },
            Token::LD_Vx_Dt(x) => {
                s.append("LD");
                s.append(" ");
                push_reg(&mut s, x);
                s.append(" ");
                s.append("D");
            },
            Token::LD_Vx_K(x) => {
                s.append("LD");
                s.append(" ");
                push_reg(&mut s, x);
                s.append(" ");
                s.append("K");
            },
            Token::LD_Dt_Vx(x) => {
                s.append("LD");
                s.append(" ");
                s.append("D");
                s.append(" ");
                push_reg(&mut s, x);
            },
            Token::LD_St_Vx(x) => {
                s.append("LD");
                s.append(" ");
                s.append("S");
                s.append(" ");
                push_reg(&mut s, x);
            },
            Token::ADD_I_Vx(x) => {
                s.append("ADD");
                s.append(" ");
                s.append("I");
                s.append(" ");
                push_reg(&mut s, x);
            },
            Token::LD_F_Vx(x) => {
                s.append("LD");
                s.append(" ");
                s.append("F");
                s.append(" ");
                push_reg(&mut s, x);
            },
            Token::LD_B_Vx(x) => {
                s.append("LD");
                s.append(" ");
                s.append("B");
                s.append(" ");
                push_reg(&mut s, x);
            },
            Token::LD_I_Vx(x) => {
                s.append("LD");
                s.append(" ");
                s.append("I");
                s.append(" ");
                push_reg(&mut s, x);
            },
            Token::LD_Vx_I(x) => {
                s.append("LD");
                s.append(" ");
                push_reg(&mut s, x);
                s.append(" ");
                s.append("I");
            },
            Token::DATA(w) => {
                s.append("DATA");
                s.append(" ");
                s.append("0x");
                push_hex(&mut s, w);
            },
        }
        assert(s@ =~= token_text(*self));
        s
    }
}

} // verus!
