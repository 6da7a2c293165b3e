use chip8_disasm::opcode::OpCode;
use chip8_disasm::parser::Parser;
use chip8_disasm::token::Token;

fn decode(w: u16) -> Token {
    Parser::parse_op(&OpCode::new(w))
}

#[test]
fn fields_of_parts() {
    let op = OpCode::new_from_parts(0xAB, 0xCD);
    assert_eq!(op.raw(), 0xABCD);
    assert_eq!(op.family(), 0xA);
    assert_eq!(op.x(), 0xB);
    assert_eq!(op.y(), 0xC);
    assert_eq!(op.n(), 0xD);
    assert_eq!(op.kk(), 0xCD);
    assert_eq!(op.nnn(), 0xBCD);
}

#[test]
fn fields_of_every_word() {
    for high in 0..=255u8 {
        for low in [0x00u8, 0x0F, 0x5A, 0xF0, 0xFF] {
            let op = OpCode::new_from_parts(high, low);
            let v = (high as u16) * 256 + low as u16;
            assert_eq!(op.raw(), v);
            assert_eq!(op.x() as u16, (v >> 8) & 0xF);
            assert_eq!(op.y() as u16, (v >> 4) & 0xF);
            assert_eq!(op.n() as u16, v & 0xF);
            assert_eq!(op.kk() as u16, v & 0xFF);
            assert_eq!(op.nnn(), v & 0xFFF);
        }
    }
}

#[test]
fn family_zero() {
    assert_eq!(decode(0x00E0), Token::CLS);
    assert_eq!(decode(0x00EE), Token::RET);
    assert_eq!(decode(0x0123), Token::DATA(0x0123));
    assert_eq!(decode(0x0000), Token::DATA(0x0000));
}

#[test]
fn single_shape_families() {
    assert_eq!(decode(0x1ABC), Token::JP_NNN(0xABC));
    assert_eq!(decode(0x2ABC), Token::CALL_Addr(0xABC));
    assert_eq!(decode(0x3A3F), Token::SE_Vx_Byte(10, 0x3F));
    assert_eq!(decode(0x4A3F), Token::SNE_Vx_Byte(10, 0x3F));
    assert_eq!(decode(0x5120), Token::SE_Vx_Vy(1, 2));
    assert_eq!(decode(0x6A3F), Token::LD_Vx_Byte(10, 0x3F));
    assert_eq!(decode(0x7A3F), Token::ADD_Vx_Byte(10, 0x3F));
    assert_eq!(decode(0x9120), Token::SNE_Vx_Vy(1, 2));
    assert_eq!(decode(0xA123), Token::LD_I_Addr(0x123));
    assert_eq!(decode(0xB123), Token::JP_V0_Addr(0x123));
    assert_eq!(decode(0xC1FF), Token::RND_Vx_Byte(1, 0xFF));
    assert_eq!(decode(0xD12F), Token::DRW_Vx_Vy_N(1, 2, 0xF));
}

#[test]
fn family_eight() {
    assert_eq!(decode(0x8120), Token::LD_Vx_Vy(1, 2));
    assert_eq!(decode(0x8121), Token::OR_Vx_Vy(1, 2));
    assert_eq!(decode(0x8122), Token::AND_Vx_Vy(1, 2));
    assert_eq!(decode(0x8123), Token::XOR_Vx_Vy(1, 2));
    assert_eq!(decode(0x8124), Token::ADD_Vx_Vy(1, 2));
    assert_eq!(decode(0x8125), Token::SUB_Vx_Vy(1, 2));
    assert_eq!(decode(0x8126), Token::SHR_Vx_Vy(1, 2));
    assert_eq!(decode(0x8127), Token::SUBN_Vx_Vy(1, 2));
    assert_eq!(decode(0x812E), Token::SHL_Vx_Vy(1, 2));
    assert_eq!(decode(0x812F), Token::DATA(0x812F));
    assert_eq!(decode(0x8128), Token::DATA(0x8128));
}

#[test]
fn family_e() {
    assert_eq!(decode(0xE39E), Token::SKP_Vx(3));
    assert_eq!(decode(0xE3A1), Token::SKNP_Vx(3));
    assert_eq!(decode(0xE3A2), Token::DATA(0xE3A2));
}

#[test]
fn family_f() {
    assert_eq!(decode(0xF107), Token::LD_Vx_Dt(1));
    assert_eq!(decode(0xF10A), Token::LD_Vx_K(1));
    assert_eq!(decode(0xF115), Token::LD_Dt_Vx(1));
    assert_eq!(decode(0xF118), Token::LD_St_Vx(1));
    assert_eq!(decode(0xF11E), Token::ADD_I_Vx(1));
    assert_eq!(decode(0xF129), Token::LD_F_Vx(1));
    assert_eq!(decode(0xF133), Token::LD_B_Vx(1));
    assert_eq!(decode(0xF155), Token::LD_I_Vx(1));
    assert_eq!(decode(0xF165), Token::LD_Vx_I(1));
    assert_eq!(decode(0xF1FF), Token::DATA(0xF1FF));
}

#[test]
fn empty_buffer() {
    let bytes: [u8; 0] = [];
    assert_eq!(Parser::initialise(&bytes).parse(), Vec::<Token>::new());
}

#[test]
fn even_buffer() {
    let bytes = [0x00u8, 0xE0, 0x1A, 0xBC, 0x81, 0x25];
    assert_eq!(
        Parser::initialise(&bytes).parse(),
        vec![Token::CLS, Token::JP_NNN(0xABC), Token::SUB_Vx_Vy(1, 2)]
    );
}

#[test]
fn odd_buffer_drops_last_byte() {
    let bytes = [0x00u8, 0xEE, 0x6A, 0x3F, 0xF1];
    assert_eq!(
        Parser::initialise(&bytes).parse(),
        vec![Token::RET, Token::LD_Vx_Byte(10, 0x3F)]
    );
    let one = [0x12u8];
    assert_eq!(Parser::initialise(&one).parse(), Vec::<Token>::new());
}

#[test]
fn step_by_step() {
    let bytes = [0xF1u8, 0x29, 0xF1, 0xFF, 0x00];
    let mut p = Parser::initialise(&bytes);
    assert!(p.tokens().is_empty());
    p.parse_next_op();
    assert_eq!(p.tokens(), &vec![Token::LD_F_Vx(1)]);
    p.parse_next_op();
    assert_eq!(p.tokens(), &vec![Token::LD_F_Vx(1), Token::DATA(0xF1FF)]);
    p.parse_next_op();
    assert_eq!(p.tokens().len(), 2);
    assert_eq!(p.parse(), vec![Token::LD_F_Vx(1), Token::DATA(0xF1FF)]);
}

#[test]
fn same_buffer_same_tokens() {
    let bytes = [0xD1u8, 0x25, 0x00, 0xE0, 0x81, 0x2F];
    let copy = bytes;
    assert_eq!(
        Parser::initialise(&bytes).parse(),
        Parser::initialise(&copy).parse()
    );
}
