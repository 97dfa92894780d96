use x64_asm::encoder::{Disp, Encoder, Imm, ModRm, Opecode, Rex, Sib};
use x64_asm::svec::SVec;

#[test]
fn rex_disabled_gives_nothing() {
    let mut rex = Rex::new();
    assert_eq!(rex.get(), None);
    rex.set_w(true);
    rex.set_r(true);
    rex.set_x(true);
    rex.set_b(true);
    assert_eq!(rex.get(), None);
}

#[test]
fn rex_enabled_with_all_bits_clear_is_0x40() {
    let mut rex = Rex::new();
    rex.enable();
    assert_eq!(rex.get(), Some(0x40));
}

#[test]
fn rex_w_is_0x48() {
    let mut rex = Rex::new();
    rex.set_w(true);
    rex.enable();
    assert_eq!(rex.get(), Some(0x48));
}

#[test]
fn rex_each_bit_has_its_place() {
    let mut rex = Rex::new();
    rex.enable();
    rex.set_r(true);
    assert_eq!(rex.get(), Some(0x44));
    rex.set_x(true);
    assert_eq!(rex.get(), Some(0x46));
    rex.set_b(true);
    assert_eq!(rex.get(), Some(0x47));
    rex.set_w(true);
    assert_eq!(rex.get(), Some(0x4f));
    rex.set_r(false);
    assert_eq!(rex.get(), Some(0x4b));
    rex.set_w(false);
    assert_eq!(rex.get(), Some(0x43));
    rex.set_x(false);
    assert_eq!(rex.get(), Some(0x41));
    rex.set_b(false);
    assert_eq!(rex.get(), Some(0x40));
}

#[test]
fn modrm_register_direct_is_0xc0() {
    let mut modrm = ModRm::new();
    assert_eq!(modrm.get(), 0);
    modrm.set_mod(0b11);
    modrm.set_reg(0b000);
    modrm.set_rm(0b000);
    assert_eq!(modrm.get(), 0xC0);
}

#[test]
fn modrm_setting_reg_keeps_mod() {
    let mut modrm = ModRm::new();
    modrm.set_mod(0b10);
    modrm.set_reg(0b101);
    assert_eq!(modrm.get(), 0b10_101_000);
    modrm.set_rm(0b011);
    assert_eq!(modrm.get(), 0b10_101_011);
    modrm.set_reg(0b010);
    assert_eq!(modrm.get(), 0b10_010_011);
    modrm.set_mod(0b01);
    assert_eq!(modrm.get(), 0b01_010_011);
}

#[test]
fn modrm_values_are_cut_to_their_width() {
    let mut modrm = ModRm::new();
    modrm.set_mod(0xff);
    assert_eq!(modrm.get(), 0b11_000_000);
    modrm.set_reg(0xff);
    assert_eq!(modrm.get(), 0b11_111_000);
    modrm.set_rm(0xf9);
    assert_eq!(modrm.get(), 0b11_111_001);
    modrm.set_mod(4);
    assert_eq!(modrm.get(), 0b00_111_001);
}

#[test]
fn sib_fields() {
    let mut sib = Sib::new();
    assert_eq!(sib.get(), 0);
    sib.set_scale(0b10);
    assert_eq!(sib.get(), 0x80);
    sib.set_index(0b001);
    assert_eq!(sib.get(), 0x88);
    sib.set_base(0b101);
    assert_eq!(sib.get(), 0x8d);
    sib.set_scale(0);
    assert_eq!(sib.get(), 0x0d);
    sib.set_index(0xff);
    assert_eq!(sib.get(), 0x3d);
    sib.set_base(8);
    assert_eq!(sib.get(), 0x38);
}

#[test]
fn opecode_set_and_get() {
    let mut opecode = Opecode::new();
    assert_eq!(opecode.get().len(), 0);
    let mut bytes: SVec<3, u8> = SVec::new();
    bytes.push(0x0f).push(0xaf);
    opecode.set(bytes);
    assert_eq!(&opecode.get()[..], &[0x0f, 0xaf]);
    opecode.push(0x01);
    assert_eq!(opecode.len(), 3);
    assert_eq!(&opecode.get()[..], &[0x0f, 0xaf, 0x01]);
}

#[test]
fn new_encoder_encodes_to_nothing() {
    let encoder = Encoder::new();
    assert!(encoder.prefix.is_none());
    assert!(encoder.mod_rm.is_none());
    assert!(encoder.sib.is_none());
    assert!(matches!(encoder.disp, Disp::Absent));
    assert!(matches!(encoder.imm, Imm::Absent));
    assert_eq!(encoder.encode().len(), 0);
}

#[test]
fn encode_mov_rax_123() {
    let mut encoder = Encoder::new();
    encoder.rex_prefix.enable();
    encoder.rex_prefix.set_w(true);
    encoder.rex_prefix.set_r(false);
    encoder.opecode.push(0xb8 + 0);
    encoder.imm = Imm::Imm64(123);
    assert_eq!(
        &encoder.encode()[..],
        &[0x48, 0xB8, 0x7B, 0x00, 0x00, 0x00, 0x00, 0x00, 0x00, 0x00]
    );
}

#[test]
fn encode_ret() {
    let mut encoder = Encoder::new();
    encoder.opecode.push(0xc3);
    assert_eq!(&encoder.encode()[..], &[0xC3]);
}

#[test]
fn encode_is_deterministic() {
    let mut encoder = Encoder::new();
    encoder.rex_prefix.enable();
    encoder.opecode.push(0x8b);
    let mut modrm = ModRm::new();
    modrm.set_mod(0b11);
    modrm.set_reg(1);
    modrm.set_rm(2);
    encoder.mod_rm = Some(modrm);
    encoder.disp = Disp::Disp32(0xdeadbeef);
    let first = encoder.encode();
    let second = encoder.encode();
    assert_eq!(&first[..], &second[..]);
    assert_eq!(&first[..], &[0x40, 0x8b, 0xca, 0xef, 0xbe, 0xad, 0xde]);
}

#[test]
fn encode_disabled_rex_is_left_out() {
    let mut encoder = Encoder::new();
    encoder.rex_prefix.set_w(true);
    encoder.opecode.push(0x50);
    assert_eq!(&encoder.encode()[..], &[0x50]);
}

#[test]
fn encode_fields_in_order() {
    let mut encoder = Encoder::new();
    encoder.rex_prefix.enable();
    encoder.rex_prefix.set_w(true);
    encoder.rex_prefix.set_b(true);
    encoder.opecode.push(0x0f);
    encoder.opecode.push(0x38);
    encoder.opecode.push(0xf0);
    let mut modrm = ModRm::new();
    modrm.set_mod(0b10);
    modrm.set_reg(0b001);
    modrm.set_rm(0b100);
    encoder.mod_rm = Some(modrm);
    let mut sib = Sib::new();
    sib.set_scale(0b11);
    sib.set_index(0b010);
    sib.set_base(0b011);
    encoder.sib = Some(sib);
    encoder.disp = Disp::Disp32(0x11223344);
    encoder.imm = Imm::Imm64(0x0102030405060708);
    let out = encoder.encode();
    assert_eq!(out.len(), 18);
    assert_eq!(out.len(), out.capacity());
    assert_eq!(
        &out[..],
        &[
            0x49, 0x0f, 0x38, 0xf0, 0x8c, 0xd3, 0x44, 0x33, 0x22, 0x11, 0x08, 0x07, 0x06, 0x05,
            0x04, 0x03, 0x02, 0x01
        ]
    );
}

#[test]
fn encode_prefix_field_contributes_nothing() {
    let mut encoder = Encoder::new();
    encoder.prefix = Some(());
    encoder.opecode.push(0x90);
    assert_eq!(&encoder.encode()[..], &[0x90]);
}

#[test]
fn encode_modrm_without_opcode_is_not_checked() {
    let mut encoder = Encoder::new();
    let mut modrm = ModRm::new();
    modrm.set_mod(0b11);
    encoder.mod_rm = Some(modrm);
    assert_eq!(&encoder.encode()[..], &[0xc0]);
}

#[test]
fn encode_disp8() {
    let mut encoder = Encoder::new();
    encoder.opecode.push(0xeb);
    encoder.disp = Disp::Disp8(0xfe);
    assert_eq!(&encoder.encode()[..], &[0xeb, 0xfe]);
}

#[test]
fn encode_disp32_little_endian() {
    let mut encoder = Encoder::new();
    encoder.opecode.push(0xe9);
    encoder.disp = Disp::Disp32(0x12345678);
    assert_eq!(&encoder.encode()[..], &[0xe9, 0x78, 0x56, 0x34, 0x12]);
}

#[test]
fn encode_imm8() {
    let mut encoder = Encoder::new();
    encoder.opecode.push(0x6a);
    encoder.imm = Imm::Imm8(0x7f);
    assert_eq!(&encoder.encode()[..], &[0x6a, 0x7f]);
}

#[test]
fn encode_imm16_little_endian() {
    let mut encoder = Encoder::new();
    encoder.opecode.push(0xc2);
    encoder.imm = Imm::Imm16(0xabcd);
    assert_eq!(&encoder.encode()[..], &[0xc2, 0xcd, 0xab]);
}

#[test]
fn encode_imm32_little_endian() {
    let mut encoder = Encoder::new();
    encoder.opecode.push(0x68);
    encoder.imm = Imm::Imm32(0xffffff01);
    assert_eq!(&encoder.encode()[..], &[0x68, 0x01, 0xff, 0xff, 0xff]);
}

#[test]
fn encode_imm64_extremes() {
    let mut encoder = Encoder::new();
    encoder.imm = Imm::Imm64(u64::MAX);
    assert_eq!(&encoder.encode()[..], &[0xff; 8]);
    encoder.imm = Imm::Imm64(0);
    assert_eq!(&encoder.encode()[..], &[0x00; 8]);
    encoder.imm = Imm::Imm64(1 << 56);
    assert_eq!(&encoder.encode()[..], &[0, 0, 0, 0, 0, 0, 0, 1]);
}

#[test]
fn encode_displacement_comes_before_immediate() {
    let mut encoder = Encoder::new();
    encoder.disp = Disp::Disp8(0x11);
    encoder.imm = Imm::Imm16(0x3322);
    assert_eq!(&encoder.encode()[..], &[0x11, 0x22, 0x33]);
}
