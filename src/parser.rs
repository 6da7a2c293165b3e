use vstd::prelude::*;

use crate::opcode::{OpCode, word_of, family_of, x_of, y_of, n_of, kk_of, addr_of};
use crate::token::Token;

verus! {

/// The token of a word of family 0x8, chosen by its low nibble.
pub open spec fn decode_8(w: u16) -> Token {
    let x = x_of(w);
    let y = y_of(w);
    match n_of(w) {
        0x0u8 => Token::LD_Vx_Vy(x, y),
        0x1u8 => Token::OR_Vx_Vy(x, y),
        0x2u8 => Token::AND_Vx_Vy(x, y),
        0x3u8 => Token::XOR_Vx_Vy(x, y),
        0x4u8 => Token::ADD_Vx_Vy(x, y),
        0x5u8 => Token::SUB_Vx_Vy(x, y),
        0x6u8 => Token::SHR_Vx_Vy(x, y),
        0x7u8 => Token::SUBN_Vx_Vy(x, y),
        0xEu8 => Token::SHL_Vx_Vy(x, y),
        _ => Token::DATA(w),
    }
}

/// The token of a word of family 0xE, chosen by its low byte.
pub open spec fn decode_e(w: u16) -> Token {
    match kk_of(w) {
        0x9Eu8 => Token::SKP_Vx(x_of(w)),
        0xA1u8 => Token::SKNP_Vx(x_of(w)),
        _ => Token::DATA(w),
    }
}

/// The token of a word of family 0xF, chosen by its low byte.
pub open spec fn decode_f(w: u16) -> Token {
    let x = x_of(w);
    match kk_of(w) {
        0x07u8 => Token::LD_Vx_Dt(x),
        0x0Au8 => Token::LD_Vx_K(x),
        0x15u8 => Token::LD_Dt_Vx(x),
        0x18u8 => Token::LD_St_Vx(x),
        0x1Eu8 => Token::ADD_I_Vx(x),
        0x29u8 => Token::LD_F_Vx(x),
        0x33u8 => Token::LD_B_Vx(x),
        0x55u8 => Token::LD_I_Vx(x),
        0x65u8 => Token::LD_Vx_I(x),
        _ => Token::DATA(w),
    }
}

/// The token of one instruction word, chosen by its family (top nibble).
pub open spec fn decode_word(w: u16) -> Token {
    let x = x_of(w);
    let y = y_of(w);
    let kk = kk_of(w);
    let a = addr_of(w);
    match family_of(w) {
        0x0u8 => if w == 0x00E0 {
            Token::CLS
        } else if w == 0x00EE {
            Token::RET
        } else {
            Token::DATA(w)
        },
        0x1u8 => Token::JP_NNN(a),
        0x2u8 => Token::CALL_Addr(a),
        0x3u8 => Token::SE_Vx_Byte(x, kk),
        0x4u8 => Token::SNE_Vx_Byte(x, kk),
        0x5u8 => Token::SE_Vx_Vy(x, y),
        0x6u8 => Token::LD_Vx_Byte(x, kk),
        0x7u8 => Token::ADD_Vx_Byte(x, kk),
        0x8u8 => decode_8(w),
        0x9u8 => Token::SNE_Vx_Vy(x, y),
        0xAu8 => Token::LD_I_Addr(a),
        0xBu8 => Token::JP_V0_Addr(a),
        0xCu8 => Token::RND_Vx_Byte(x, kk),
        0xDu8 => Token::DRW_Vx_Vy_N(x, y, n_of(w)),
        0xEu8 => decode_e(w),
        _ => decode_f(w),
    }
}

/// The `i`-th instruction word of `bytes`: bytes `2i` (high) and `2i + 1` (low).
pub open spec fn word_at(bytes: Seq<u8>, i: int) -> u16 {
    word_of(bytes[2 * i], bytes[2 * i + 1])
}

/// The tokens of a whole buffer: one per consecutive pair of bytes, in order;
/// a trailing odd byte gives none.
pub open spec fn decode_all(bytes: Seq<u8>) -> Seq<Token> {
    Seq::new(bytes.len() / 2, |i: int| decode_word(word_at(bytes, i)))
}

/// A decoding session over one byte buffer: a cursor and the tokens read so far.
#[derive(Debug)]
pub struct Parser<'parser> {
    src: &'parser [u8],
    idx: usize,
    out: Vec<Token>,
}

impl<'parser> Parser<'parser> {
    /// The buffer being decoded.
    pub closed spec fn source(&self) -> Seq<u8> {
        self.src@
    }

    /// The offset of the next unread byte.
    pub closed spec fn position(&self) -> int {
        self.idx as int
    }

    /// The tokens decoded so far.
    pub closed spec fn decoded(&self) -> Seq<Token> {
        self.out@
    }

    /// The cursor stands on a pair boundary inside the buffer, and the tokens
    /// are exactly those of the pairs before it.
    pub closed spec fn wf(&self) -> bool {
        &&& self.idx % 2 == 0
        &&& self.idx <= self.src@.len()
        &&& self.out@ == decode_all(self.src@).take(self.idx as int / 2)
    }

    pub fn initialise(src: &'parser [u8]) -> (r: Self)
        ensures
            r.wf(),
            r.source() == src@,
            r.position() == 0,
            r.decoded() == Seq::<Token>::empty(),
    {
        let r = Self { src, idx: 0, out: Vec::new() };
        assert(r.out@ =~= decode_all(src@).take(0));
        r
    }

    /// Reads the next pair of bytes as a word, if two bytes remain.
    fn get_next_op(&mut self) -> (r: Option<OpCode>)
        requires
            old(self).wf(),
        ensures
            final(self).src == old(self).src,
            final(self).out == old(self).out,
            old(self).idx + 2 <= old(self).src@.len() ==> {
                &&& final(self).idx == old(self).idx + 2
                &&& r is Some
                &&& r->Some_0.spec_raw() == word_at(old(self).src@, old(self).idx as int / 2)
            },
            old(self).idx + 2 > old(self).src@.len() ==> {
                &&& final(self).idx == old(self).idx
                &&& r is None
            },
    {
        if self.src.len() - self.idx >= 2 {
            self.idx = self.idx + 2;
            return Some(OpCode::new_from_parts(self.src[self.idx - 2], self.src[self.idx - 1]));
        }
        None
    }

    /// Decodes the next pair of bytes, if two remain, and appends its token.
    pub fn parse_next_op(&mut self)
        requires
            old(self).wf(),
        ensures
            final(self).wf(),
            final(self).source() == old(self).source(),
            old(self).position() + 2 <= old(self).source().len() ==> {
                &&& final(self).position() == old(self).position() + 2
                &&& final(self).decoded() == old(self).decoded().push(
                    decode_word(word_at(old(self).source(), old(self).position() / 2)),
                )
            },
            old(self).position() + 2 > old(self).source().len() ==> *final(self) == *old(self),
    {
        if let Some(op) = self.get_next_op() {
            let t = Self::parse_op(&op);
            self.out.push(t);
            assert(self.out@ =~= decode_all(self.src@).take(self.idx as int / 2));
        }
    }

    /// The token of one word.
    pub fn parse_op(op: &OpCode) -> (r: Token)
        ensures
            r == decode_word(op.spec_raw()),
    {
        let x = op.x();
        let y = op.y();
        let kk = op.kk();
        let a = op.nnn();
        match op.family() {
            0x0 => if op.raw() == 0x00E0 {
                Token::CLS
            } else if op.raw() == 0x00EE {
                Token::RET
            } else {
                Token::DATA(op.raw())
            },
            0x1 => Token::JP_NNN(a),
            0x2 => Token::CALL_Addr(a),
            0x3 => Token::SE_Vx_Byte(x, kk),
            0x4 => Token::SNE_Vx_Byte(x, kk),
            0x5 => Token::SE_Vx_Vy(x, y),
            0x6 => Token::LD_Vx_Byte(x, kk),
            0x7 => Token::ADD_Vx_Byte(x, kk),
            0x8 => Self::ops_8(op),
            0x9 => Token::SNE_Vx_Vy(x, y),
            0xA => Token::LD_I_Addr(a),
            0xB => Token::JP_V0_Addr(a),
            0xC => Token::RND_Vx_Byte(x, kk),
            0xD => Token::DRW_Vx_Vy_N(x, y, op.n()),
            0xE => Self::ops_e(op),
            _ => Self::ops_f(op),
        }
    }

    /// The token of a word of family 0x8, by its low nibble.
    fn ops_8(op: &OpCode) -> (r: Token)
        ensures
            r == decode_8(op.spec_raw()),
    {
        let x = op.x();
        let y = op.y();
        match op.n() {
            0x0 => Token::LD_Vx_Vy(x, y),
            0x1 => Token::OR_Vx_Vy(x, y),
            0x2 => Token::AND_Vx_Vy(x, y),
            0x3 => Token::XOR_Vx_Vy(x, y),
            0x4 => Token::ADD_Vx_Vy(x, y),
            0x5 => Token::SUB_Vx_Vy(x, y),
            0x6 => Token::SHR_Vx_Vy(x, y),
            0x7 => Token::SUBN_Vx_Vy(x, y),
            0xE => Token::SHL_Vx_Vy(x, y),
            _ => Token::DATA(op.raw()),
        }
    }

    /// The token of a word of family 0xE, by its low byte.
    fn ops_e(op: &OpCode) -> (r: Token)
        ensures
            r == decode_e(op.spec_raw()),
    {
        match op.kk() {
            0x9E => Token::SKP_Vx(op.x()),
            0xA1 => Token::SKNP_Vx(op.x()),
            _ => Token::DATA(op.raw()),
        }
    }

    /// The token of a word of family 0xF, by its low byte.
    fn ops_f(op: &OpCode) -> (r: Token)
        ensures
            r == decode_f(op.spec_raw()),
    {
        let x = op.x();
        match op.kk() {
            0x07 => Token::LD_Vx_Dt(x),
            0x0A => Token::LD_Vx_K(x),
            0x15 => Token::LD_Dt_Vx(x),
            0x18 => Token::LD_St_Vx(x),
            0x1E => Token::ADD_I_Vx(x),
            0x29 => Token::LD_F_Vx(x),
            0x33 => Token::LD_B_Vx(x),
            0x55 => Token::LD_I_Vx(x),
            0x65 => Token::LD_Vx_I(x),
            _ => Token::DATA(op.raw()),
        }
    }

    /// Decodes the rest of the buffer and hands over all its tokens.
    pub fn parse(self) -> (r: Vec<Token>)
        requires
            self.wf(),
        ensures
            r@ == decode_all(self.source()),
    {
        let ghost bytes = self.src@;
        let mut p = self;
        while p.src.len() - p.idx >= 2
            invariant
                p.wf(),
                p.src@ == bytes,
            decreases p.src@.len() - p.idx,
        {
            p.parse_next_op();
        }
        assert(p.out@ =~= decode_all(bytes));
        p.out
    }

    /// The tokens decoded so far.
    pub fn tokens(&self) -> (r: &Vec<Token>)
        ensures
            r@ == self.decoded(),
    {
        &self.out
    }
}

} // verus!
