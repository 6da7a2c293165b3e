use chip8_disasm::token::Token;

#[test]
fn render_without_operands() {
    assert_eq!(Token::CLS.render(), "CLS");
    assert_eq!(Token::RET.render(), "RET");
}

#[test]
fn render_addresses_in_decimal() {
    assert_eq!(Token::JP_NNN(0xABC).render(), "JP $2748");
    assert_eq!(Token::CALL_Addr(0).render(), "CALL $0");
    assert_eq!(Token::LD_I_Addr(0x123).render(), "LD I $291");
    assert_eq!(Token::JP_V0_Addr(4095).render(), "JP V0 $4095");
}

#[test]
fn render_bytes_as_two_hex_digits() {
    assert_eq!(Token::SE_Vx_Byte(1, 0x3F).render(), "SE V1 0x3f");
    assert_eq!(Token::SNE_Vx_Byte(15, 0).render(), "SNE V15 0x00");
    assert_eq!(Token::LD_Vx_Byte(10, 5).render(), "LD V10 0x05");
    assert_eq!(Token::ADD_Vx_Byte(2, 0xAB).render(), "ADD V2 0xab");
    assert_eq!(Token::RND_Vx_Byte(0, 0xFF).render(), "RND V0 0xff");
    assert_eq!(Token::DRW_Vx_Vy_N(1, 2, 5).render(), "DRW V1 V2 0x05");
}

#[test]
fn render_register_pairs() {
    assert_eq!(Token::SE_Vx_Vy(1, 2).render(), "SE V1 V2");
    assert_eq!(Token::LD_Vx_Vy(1, 2).render(), "LD V1 V2");
    assert_eq!(Token::OR_Vx_Vy(1, 2).render(), "OR V1 V2");
    assert_eq!(Token::AND_Vx_Vy(1, 2).render(), "AND V1 V2");
    assert_eq!(Token::XOR_Vx_Vy(1, 2).render(), "XOR V1 V2");
    assert_eq!(Token::ADD_Vx_Vy(1, 2).render(), "ADD V1 V2");
    assert_eq!(Token::SUB_Vx_Vy(1, 2).render(), "SUB V1 V2");
    assert_eq!(Token::SHR_Vx_Vy(1, 2).render(), "SHR V1 V2");
    assert_eq!(Token::SUBN_Vx_Vy(1, 2).render(), "SUBN V1 V2");
    assert_eq!(Token::SHL_Vx_Vy(1, 2).render(), "SHL V1 V2");
    assert_eq!(Token::SNE_Vx_Vy(11, 12).render(), "SNE V11 V12");
}

#[test]
fn render_single_register() {
    assert_eq!(Token::SKP_Vx(3).render(), "SKP V3");
    assert_eq!(Token::SKNP_Vx(3).render(), "SKNP V3");
    assert_eq!(Token::LD_Vx_Dt(3).render(), "LD V3 D");
    assert_eq!(Token::LD_Vx_K(3).render(), "LD V3 K");
    assert_eq!(Token::LD_Dt_Vx(3).render(), "LD D V3");
    assert_eq!(Token::LD_St_Vx(3).render(), "LD S V3");
    assert_eq!(Token::ADD_I_Vx(3).render(), "ADD I V3");
    assert_eq!(Token::LD_F_Vx(3).render(), "LD F V3");
    assert_eq!(Token::LD_B_Vx(3).render(), "LD B V3");
    assert_eq!(Token::LD_I_Vx(3).render(), "LD I V3");
    assert_eq!(Token::LD_Vx_I(3).render(), "LD V3 I");
}

#[test]
fn render_data_words() {
    assert_eq!(Token::DATA(0x0123).render(), "DATA 0x123");
    assert_eq!(Token::DATA(0xF1FF).render(), "DATA 0xf1ff");
    assert_eq!(Token::DATA(0).render(), "DATA 0x0");
}
