//! Decoding of CHIP-8 programs into symbolic instruction tokens.
//!
//! A program is a byte buffer read two bytes at a time; each pair forms one
//! big-endian instruction word ([`opcode::OpCode`]), which decodes to exactly
//! one [`token::Token`]. Words that name no instruction decode to
//! `Token::DATA`, so decoding never fails. [`parser::Parser`] runs a decoding
//! session over a buffer, and `Token::render` gives each token's text line.
use vstd::prelude::*;

pub mod opcode;
pub mod token;
pub mod parser;
pub mod laws;

verus! {

} // verus!
