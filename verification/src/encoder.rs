use crate::svec::SVec;
use vstd::prelude::*;

verus! {

/// The REX prefix: the byte `0100WRXB` together with a flag that says
/// whether the prefix is emitted at all.
#[derive(Clone, Copy, Debug)]
pub struct Rex(u8, bool);

impl Rex {
    #[verifier::type_invariant]
    closed spec fn inv(&self) -> bool {
        self.0 & 0xf0 == 0x40
    }

    /// Whether the prefix is emitted.
    pub closed spec fn enabled(&self) -> bool {
        self.1
    }

    /// The W bit (bit 3).
    pub closed spec fn w(&self) -> bool {
        self.0 & 0b1000 != 0
    }

    /// The R bit (bit 2).
    pub closed spec fn r(&self) -> bool {
        self.0 & 0b0100 != 0
    }

    /// The X bit (bit 1).
    pub closed spec fn x(&self) -> bool {
        self.0 & 0b0010 != 0
    }

    /// The B bit (bit 0).
    pub closed spec fn b(&self) -> bool {
        self.0 & 0b0001 != 0
    }

    /// The prefix byte: the fixed high nibble `0100` above the four bits.
    pub open spec fn byte(&self) -> u8 {
        (0x40 + (if self.w() {
            8int
        } else {
            0
        }) + (if self.r() {
            4int
        } else {
            0
        }) + (if self.x() {
            2int
        } else {
            0
        }) + (if self.b() {
            1int
        } else {
            0
        })) as u8
    }

    /// What the prefix contributes to an instruction: its byte when
    /// enabled, nothing otherwise.
    pub open spec fn bytes(&self) -> Seq<u8> {
        if self.enabled() {
            seq![self.byte()]
        } else {
            Seq::empty()
        }
    }

    /// A disabled prefix contributes nothing, whatever its bits hold. An
    /// enabled one contributes its byte, which lies between `0x40` and
    /// `0x4f`: `0x40` with all bits clear, `0x48` with only W set.
    pub proof fn lemma_contribution(&self)
        ensures
            !self.enabled() ==> self.bytes() == Seq::<u8>::empty(),
            self.enabled() ==> self.bytes() == seq![self.byte()],
            0x40 <= self.byte() <= 0x4f,
            !self.w() && !self.r() && !self.x() && !self.b() ==> self.byte() == 0x40,
            self.w() && !self.r() && !self.x() && !self.b() ==> self.byte() == 0x48,
    {
    }

    /// A disabled prefix with all four bits clear.
    pub fn new() -> (r: Self)
        ensures
            !r.enabled(),
            !r.w(),
            !r.r(),
            !r.x(),
            !r.b(),
    {
        assert(0b0100_0000u8 & 0xf0 == 0x40 && 0b0100_0000u8 & 0b1000 == 0 && 0b0100_0000u8
            & 0b0100 == 0 && 0b0100_0000u8 & 0b0010 == 0 && 0b0100_0000u8 & 0b0001 == 0)
            by (bit_vector);
        Rex(0b0100_0000, false)
    }

    /// Enables the prefix; the bits stay as they are.
    pub fn enable(&mut self)
        ensures
            final(self).enabled(),
            final(self).w() == old(self).w(),
            final(self).r() == old(self).r(),
            final(self).x() == old(self).x(),
            final(self).b() == old(self).b(),
    {
        proof {
            use_type_invariant(&*self);
        }
        self.1 = true;
    }

    /// Sets the W bit and nothing else.
    pub fn set_w(&mut self, w: bool)
        ensures
            final(self).w() == w,
            final(self).r() == old(self).r(),
            final(self).x() == old(self).x(),
            final(self).b() == old(self).b(),
            final(self).enabled() == old(self).enabled(),
    {
        proof {
            use_type_invariant(&*self);
            lemma_rex_bit(self.0, 0b1000);
        }
        self.0 &= !0b1000;
        if w {
            self.0 |= 0b1000;
        }
    }

    /// Sets the R bit and nothing else.
    pub fn set_r(&mut self, r: bool)
        ensures
            final(self).w() == old(self).w(),
            final(self).r() == r,
            final(self).x() == old(self).x(),
            final(self).b() == old(self).b(),
            final(self).enabled() == old(self).enabled(),
    {
        proof {
            use_type_invariant(&*self);
            lemma_rex_bit(self.0, 0b0100);
        }
        self.0 &= !0b0100;
        if r {
            self.0 |= 0b0100;
        }
    }

    /// Sets the X bit and nothing else.
    pub fn set_x(&mut self, x: bool)
        ensures
            final(self).w() == old(self).w(),
            final(self).r() == old(self).r(),
            final(self).x() == x,
            final(self).b() == old(self).b(),
            final(self).enabled() == old(self).enabled(),
    {
        proof {
            use_type_invariant(&*self);
            lemma_rex_bit(self.0, 0b0010);
        }
        self.0 &= !0b0010;
        if x {
            self.0 |= 0b0010;
        }
    }

    /// Sets the B bit and nothing else.
    pub fn set_b(&mut self, b: bool)
        ensures
            final(self).w() == old(self).w(),
            final(self).r() == old(self).r(),
            final(self).x() == old(self).x(),
            final(self).b() == b,
            final(self).enabled() == old(self).enabled(),
    {
        proof {
            use_type_invariant(&*self);
            lemma_rex_bit(self.0, 0b0001);
        }
        self.0 &= !0b0001;
        if b {
            self.0 |= 0b0001;
        }
    }

    /// The prefix byte if the prefix is enabled, `None` otherwise.
    pub fn get(&self) -> (r: Option<u8>)
        ensures
            r == (if self.enabled() {
                Some(self.byte())
            } else {
                None
            }),
    {
        proof {
            use_type_invariant(self);
            lemma_rex_byte(self.0);
        }
        if self.1 {
            Some(self.0)
        } else {
            None
        }
    }
}

/// Clearing or setting one of the four low bits of a REX byte leaves the
/// high nibble and the other three bits as they were.
proof fn lemma_rex_bit(v: u8, m: u8)
    by (bit_vector)
    requires
        v & 0xf0 == 0x40,
        m == 1 || m == 2 || m == 4 || m == 8,
    ensures
        (v & !m) & 0xf0 == 0x40,
        ((v & !m) | m) & 0xf0 == 0x40,
        (v & !m) & m == 0,
        ((v & !m) | m) & m != 0,
        m != 1 ==> (((v & !m) & 1 != 0) == (v & 1 != 0)) && ((((v & !m) | m) & 1 != 0) == (v & 1
            != 0)),
        m != 2 ==> (((v & !m) & 2 != 0) == (v & 2 != 0)) && ((((v & !m) | m) & 2 != 0) == (v & 2
            != 0)),
        m != 4 ==> (((v & !m) & 4 != 0) == (v & 4 != 0)) && ((((v & !m) | m) & 4 != 0) == (v & 4
            != 0)),
        m != 8 ==> (((v & !m) & 8 != 0) == (v & 8 != 0)) && ((((v & !m) | m) & 8 != 0) == (v & 8
            != 0)),
{
}

/// A byte whose high nibble is `0100` is `0x40` plus the weights of its
/// four low bits.
proof fn lemma_rex_byte(v: u8)
    by (bit_vector)
    requires
        v & 0xf0 == 0x40,
    ensures
        v == 0x40 + (if v & 8 != 0 {
            8u8
        } else {
            0u8
        }) + (if v & 4 != 0 {
            4u8
        } else {
            0u8
        }) + (if v & 2 != 0 {
            2u8
        } else {
            0u8
        }) + (if v & 1 != 0 {
            1u8
        } else {
            0u8
        }),
{
}

/// The ModRM byte: `mod` in bits 7-6, `reg` in bits 5-3, `rm` in bits
/// 2-0.
#[derive(Clone, Copy, Debug)]
pub struct ModRm(u8);

impl ModRm {
    /// The `mod` field (bits 7-6).
    pub closed spec fn mode(&self) -> u8 {
        (self.0 >> 6) & 0b11
    }

    /// The `reg` field (bits 5-3).
    pub closed spec fn reg(&self) -> u8 {
        (self.0 >> 3) & 0b111
    }

    /// The `rm` field (bits 2-0).
    pub closed spec fn rm(&self) -> u8 {
        self.0 & 0b111
    }

    /// The packed byte.
    pub open spec fn byte(&self) -> u8 {
        (self.mode() * 64 + self.reg() * 8 + self.rm()) as u8
    }

    /// A byte with all three fields zero.
    pub fn new() -> (r: Self)
        ensures
            r.mode() == 0,
            r.reg() == 0,
            r.rm() == 0,
    {
        proof {
            lemma_packed_fields(0);
        }
        ModRm(0)
    }

    /// Writes the low two bits of `mode` into the `mod` field; the other
    /// fields stay as they are.
    pub fn set_mod(&mut self, mode: u8)
        ensures
            final(self).mode() == mode % 4,
            final(self).reg() == old(self).reg(),
            final(self).rm() == old(self).rm(),
    {
        proof {
            lemma_write_high_field(self.0, mode);
        }
        self.0 &= !0b11000000;
        self.0 |= (mode & 0b11) << 6;
    }

    /// Writes the low three bits of `reg` into the `reg` field; the other
    /// fields stay as they are.
    pub fn set_reg(&mut self, reg: u8)
        ensures
            final(self).mode() == old(self).mode(),
            final(self).reg() == reg % 8,
            final(self).rm() == old(self).rm(),
    {
        proof {
            lemma_write_middle_field(self.0, reg);
        }
        self.0 &= !0b00111000;
        self.0 |= (reg & 0b111) << 3;
    }

    /// Writes the low three bits of `rm` into the `rm` field; the other
    /// fields stay as they are.
    pub fn set_rm(&mut self, rm: u8)
        ensures
            final(self).mode() == old(self).mode(),
            final(self).reg() == old(self).reg(),
            final(self).rm() == rm % 8,
    {
        proof {
            lemma_write_low_field(self.0, rm);
        }
        self.0 &= !0b00000111;
        self.0 |= rm & 0b111;
    }

    /// The packed byte.
    pub fn get(&self) -> (r: u8)
        ensures
            r == self.byte(),
            self.mode() < 4,
            self.reg() < 8,
            self.rm() < 8,
    {
        proof {
            lemma_packed_fields(self.0);
        }
        self.0
    }
}

/// The SIB byte: `scale` in bits 7-6, `index` in bits 5-3, `base` in bits
/// 2-0.
#[derive(Clone, Copy, Debug)]
pub struct Sib(u8);

impl Sib {
    /// The `scale` field (bits 7-6).
    pub closed spec fn scale(&self) -> u8 {
        (self.0 >> 6) & 0b11
    }

    /// The `index` field (bits 5-3).
    pub closed spec fn index(&self) -> u8 {
        (self.0 >> 3) & 0b111
    }

    /// The `base` field (bits 2-0).
    pub closed spec fn base(&self) -> u8 {
        self.0 & 0b111
    }

    /// The packed byte.
    pub open spec fn byte(&self) -> u8 {
        (self.scale() * 64 + self.index() * 8 + self.base()) as u8
    }

    /// A byte with all three fields zero.
    pub fn new() -> (r: Self)
        ensures
            r.scale() == 0,
            r.index() == 0,
            r.base() == 0,
    {
        proof {
            lemma_packed_fields(0);
        }
        Sib(0)
    }

    /// Writes the low two bits of `scale` into the `scale` field; the other
    /// fields stay as they are.
    pub fn set_scale(&mut self, scale: u8)
        ensures
            final(self).scale() == scale % 4,
            final(self).index() == old(self).index(),
            final(self).base() == old(self).base(),
    {
        proof {
            lemma_write_high_field(self.0, scale);
        }
        self.0 &= !0b11000000;
        self.0 |= (scale & 0b11) << 6;
    }

    /// Writes the low three bits of `index` into the `index` field; the other
    /// fields stay as they are.
    pub fn set_index(&mut self, index: u8)
        ensures
            final(self).scale() == old(self).scale(),
            final(self).index() == index % 8,
            final(self).base() == old(self).base(),
    {
        proof {
            lemma_write_middle_field(self.0, index);
        }
        self.0 &= !0b00111000;
        self.0 |= (index & 0b111) << 3;
    }

    /// Writes the low three bits of `base` into the `base` field; the other
    /// fields stay as they are.
    pub fn set_base(&mut self, base: u8)
        ensures
            final(self).scale() == old(self).scale(),
            final(self).index() == old(self).index(),
            final(self).base() == base % 8,
    {
        proof {
            lemma_write_low_field(self.0, base);
        }
        self.0 &= !0b00000111;
        self.0 |= base & 0b111;
    }

    /// The packed byte.
    pub fn get(&self) -> (r: u8)
        ensures
            r == self.byte(),
            self.scale() < 4,
            self.index() < 8,
            self.base() < 8,
    {
        proof {
            lemma_packed_fields(self.0);
        }
        self.0
    }
}

/// A byte is the sum of its three fields at their weights, and each field
/// is below its width.
proof fn lemma_packed_fields(v: u8)
    by (bit_vector)
    ensures
        v == ((v >> 6) & 0b11) * 64 + ((v >> 3) & 0b111) * 8 + (v & 0b111),
        (v >> 6) & 0b11 < 4,
        (v >> 3) & 0b111 < 8,
        v & 0b111 < 8,
{
}

/// Writing bits 7-6 stores the value modulo 4 and keeps the other fields.
proof fn lemma_write_high_field(v: u8, x: u8)
    by (bit_vector)
    ensures
        (((v & !0b11000000u8) | ((x & 0b11) << 6)) >> 6) & 0b11 == x % 4,
        (((v & !0b11000000u8) | ((x & 0b11) << 6)) >> 3) & 0b111 == (v >> 3) & 0b111,
        ((v & !0b11000000u8) | ((x & 0b11) << 6)) & 0b111 == v & 0b111,
{
}

/// Writing bits 5-3 stores the value modulo 8 and keeps the other fields.
proof fn lemma_write_middle_field(v: u8, x: u8)
    by (bit_vector)
    ensures
        (((v & !0b00111000u8) | ((x & 0b111) << 3)) >> 6) & 0b11 == (v >> 6) & 0b11,
        (((v & !0b00111000u8) | ((x & 0b111) << 3)) >> 3) & 0b111 == x % 8,
        ((v & !0b00111000u8) | ((x & 0b111) << 3)) & 0b111 == v & 0b111,
{
}

/// Writing bits 2-0 stores the value modulo 8 and keeps the other fields.
proof fn lemma_write_low_field(v: u8, x: u8)
    by (bit_vector)
    ensures
        (((v & !0b00000111u8) | (x & 0b111)) >> 6) & 0b11 == (v >> 6) & 0b11,
        (((v & !0b00000111u8) | (x & 0b111)) >> 3) & 0b111 == (v >> 3) & 0b111,
        ((v & !0b00000111u8) | (x & 0b111)) & 0b111 == x % 8,
{
}

/// The opcode: up to three bytes, emitted in order.
#[derive(Clone, Copy, Debug)]
pub struct Opecode(SVec<3, u8>);

impl View for Opecode {
    type V = Seq<u8>;

    closed spec fn view(&self) -> Seq<u8> {
        self.0@
    }
}

impl Opecode {
    /// An opcode with no bytes.
    pub fn new() -> (r: Self)
        ensures
            r@ == Seq::<u8>::empty(),
    {
        Opecode(SVec::new())
    }

    /// Replaces the opcode bytes.
    pub fn set(&mut self, opecode: SVec<3, u8>)
        ensures
            final(self)@ == opecode@,
    {
        self.0 = opecode;
    }

    /// The opcode bytes.
    pub fn get(&self) -> (r: SVec<3, u8>)
        ensures
            r@ == self@,
    {
        self.0
    }
}

impl core::ops::Deref for Opecode {
    type Target = SVec<3, u8>;

    fn deref(&self) -> (r: &SVec<3, u8>)
        ensures
            r@ == self@,
    {
        &self.0
    }
}

impl core::ops::DerefMut for Opecode {
    fn deref_mut(&mut self) -> (r: &mut SVec<3, u8>)
        ensures
            r@ == old(self)@,
            final(self)@ == final(r)@,
    {
        &mut self.0
    }
}

/// The little-endian form of `value` in `width` bytes: the low byte first,
/// then the little-endian form of the rest.
pub open spec fn le_bytes(value: nat, width: nat) -> Seq<u8>
    decreases width,
{
    if width == 0 {
        Seq::empty()
    } else {
        seq![(value % 256) as u8] + le_bytes(value / 256, (width - 1) as nat)
    }
}

/// A displacement: absent, one byte, or four bytes.
#[derive(Clone, Copy, Debug)]
pub enum Disp {
    Absent,
    Disp8(u8),
    Disp32(u32),
}

impl Disp {
    /// The bytes that the displacement contributes to an instruction.
    pub open spec fn bytes(&self) -> Seq<u8> {
        match *self {
            Disp::Absent => Seq::empty(),
            Disp::Disp8(d) => seq![d],
            Disp::Disp32(d) => le_bytes(d as nat, 4),
        }
    }
}

/// An immediate: absent, or one, two, four or eight bytes.
#[derive(Clone, Copy, Debug)]
pub enum Imm {
    Absent,
    Imm8(u8),
    Imm16(u16),
    Imm32(u32),
    Imm64(u64),
}

impl Imm {
    /// The bytes that the immediate contributes to an instruction.
    pub open spec fn bytes(&self) -> Seq<u8> {
        match *self {
            Imm::Absent => Seq::empty(),
            Imm::Imm8(v) => seq![v],
            Imm::Imm16(v) => le_bytes(v as nat, 2),
            Imm::Imm32(v) => le_bytes(v as nat, 4),
            Imm::Imm64(v) => le_bytes(v as nat, 8),
        }
    }
}

/// The little-endian form in `width` bytes has `width` bytes.
pub proof fn lemma_le_bytes_len(value: nat, width: nat)
    ensures
        le_bytes(value, width).len() == width,
    decreases width,
{
    if width > 0 {
        lemma_le_bytes_len(value / 256, (width - 1) as nat);
    }
}

/// Appends the little-endian form of `value` in `width` bytes.
fn push_le_bytes(binary: &mut SVec<18, u8>, value: u64, width: usize)
    requires
        old(binary)@.len() + width <= 18,
    ensures
        final(binary)@ == old(binary)@ + le_bytes(value as nat, width as nat),
        final(binary)@.len() == old(binary)@.len() + width,
{
    let mut rest: u64 = value;
    let mut i: usize = 0;
    while i < width
        invariant
            i <= width,
            binary@.len() == old(binary)@.len() + i,
            old(binary)@.len() + width <= 18,
            binary@ + le_bytes(rest as nat, (width - i) as nat) == old(binary)@ + le_bytes(
                value as nat,
                width as nat,
            ),
        decreases width - i,
    {
        let low = (rest & 0xff) as u8;
        let ghost before = binary@;
        proof {
            assert((rest & 0xff) as u8 == rest % 256 && rest >> 8 == rest / 256) by (bit_vector);
            let tail = le_bytes((rest / 256) as nat, (width - i - 1) as nat);
            assert(le_bytes(rest as nat, (width - i) as nat) == seq![low] + tail);
            assert(before.push(low) + tail =~= before + (seq![low] + tail));
        }
        binary.push(low);
        rest = rest >> 8;
        i += 1;
    }
    assert(binary@ + Seq::<u8>::empty() =~= binary@);
}

/// The fields of one x64 instruction. The encoder assembles them as they
/// are: it does not check that they make a meaningful instruction.
#[derive(Clone, Copy, Debug)]
pub struct Encoder {
    pub prefix: Option<()>,
    pub rex_prefix: Rex,
    pub opecode: Opecode,
    pub mod_rm: Option<ModRm>,
    pub sib: Option<Sib>,
    pub disp: Disp,
    pub imm: Imm,
}

impl Encoder {
    /// The bytes of the instruction: REX prefix, opcode, ModRM, SIB,
    /// displacement, immediate, in that order, each only if present. The
    /// legacy prefix contributes nothing.
    pub open spec fn encoding(&self) -> Seq<u8> {
        self.rex_prefix.bytes() + self.opecode@ + (match self.mod_rm {
            Some(m) => seq![m.byte()],
            None => Seq::empty(),
        }) + (match self.sib {
            Some(s) => seq![s.byte()],
            None => Seq::empty(),
        }) + self.disp.bytes() + self.imm.bytes()
    }

    /// The length of the encoding is the sum of the lengths of the fields
    /// that are present, and with an opcode of at most three bytes it is at
    /// most 18.
    pub proof fn lemma_encoding_len(&self)
        ensures
            self.encoding().len() == (if self.rex_prefix.enabled() {
                1int
            } else {
                0
            }) + self.opecode@.len() + (if self.mod_rm.is_some() {
                1int
            } else {
                0
            }) + (if self.sib.is_some() {
                1int
            } else {
                0
            }) + (match self.disp {
                Disp::Absent => 0int,
                Disp::Disp8(_) => 1,
                Disp::Disp32(_) => 4,
            }) + (match self.imm {
                Imm::Absent => 0int,
                Imm::Imm8(_) => 1,
                Imm::Imm16(_) => 2,
                Imm::Imm32(_) => 4,
                Imm::Imm64(_) => 8,
            }),
            self.opecode@.len() <= 3 ==> self.encoding().len() <= 18,
    {
        match self.disp {
            Disp::Disp32(d) => lemma_le_bytes_len(d as nat, 4),
            _ => {},
        }
        match self.imm {
            Imm::Imm16(v) => lemma_le_bytes_len(v as nat, 2),
            Imm::Imm32(v) => lemma_le_bytes_len(v as nat, 4),
            Imm::Imm64(v) => lemma_le_bytes_len(v as nat, 8),
            _ => {},
        }
    }

    /// The encoding is a function of the values of the fields: two
    /// encoders whose fields have the same values have the same encoding,
    /// whatever else they hold.
    pub proof fn lemma_encoding_deterministic(&self, other: &Encoder)
        requires
            self.rex_prefix.bytes() == other.rex_prefix.bytes(),
            self.opecode@ == other.opecode@,
            self.mod_rm.is_some() == other.mod_rm.is_some(),
            self.mod_rm.is_some() ==> self.mod_rm.unwrap().byte() == other.mod_rm.unwrap().byte(),
            self.sib.is_some() == other.sib.is_some(),
            self.sib.is_some() ==> self.sib.unwrap().byte() == other.sib.unwrap().byte(),
            self.disp == other.disp,
            self.imm == other.imm,
        ensures
            self.encoding() == other.encoding(),
    {
    }

    /// An encoder with every field absent or empty.
    pub fn new() -> (r: Self)
        ensures
            r.prefix.is_none(),
            !r.rex_prefix.enabled(),
            !r.rex_prefix.w(),
            !r.rex_prefix.r(),
            !r.rex_prefix.x(),
            !r.rex_prefix.b(),
            r.opecode@ == Seq::<u8>::empty(),
            r.mod_rm.is_none(),
            r.sib.is_none(),
            r.disp == Disp::Absent,
            r.imm == Imm::Absent,
    {
        Encoder {
            prefix: None,
            rex_prefix: Rex::new(),
            opecode: Opecode::new(),
            mod_rm: None,
            sib: None,
            disp: Disp::Absent,
            imm: Imm::Absent,
        }
    }

    /// Assembles the machine code of the instruction.
    pub fn encode(&self) -> (r: SVec<18, u8>)
        ensures
            r@ == self.encoding(),
    {
        let mut binary: SVec<18, u8> = SVec::new();

        if let Some(rex_prefix) = self.rex_prefix.get() {
            binary.push(rex_prefix);
        }
        assert(binary@ =~= self.rex_prefix.bytes());

        let opecode = self.opecode.get();
        let count = opecode.len();
        let mut i: usize = 0;
        while i < count
            invariant
                i <= count <= 3,
                count == opecode@.len(),
                self.rex_prefix.bytes().len() <= 1,
                binary@ == self.rex_prefix.bytes() + opecode@.take(i as int),
            decreases count - i,
        {
            binary.push(opecode[i]);
            assert(opecode@.take(i + 1) =~= opecode@.take(i as int).push(opecode@[i as int]));
            i += 1;
        }
        assert(opecode@.take(i as int) =~= opecode@);
        let ghost upto_opecode = self.rex_prefix.bytes() + self.opecode@;
        assert(binary@ == upto_opecode);

        if let Some(ref mod_rm) = self.mod_rm {
            binary.push(mod_rm.get());
        }
        let ghost upto_mod_rm = upto_opecode + (match self.mod_rm {
            Some(m) => seq![m.byte()],
            None => Seq::empty(),
        });
        assert(binary@ =~= upto_mod_rm);

        if let Some(ref sib) = self.sib {
            binary.push(sib.get());
        }
        let ghost upto_sib = upto_mod_rm + (match self.sib {
            Some(s) => seq![s.byte()],
            None => Seq::empty(),
        });
        assert(binary@ =~= upto_sib);

        match self.disp {
            Disp::Absent => {},
            Disp::Disp8(disp) => {
                binary.push(disp);
            },
            Disp::Disp32(disp) => {
                push_le_bytes(&mut binary, disp as u64, 4);
            },
        }
        let ghost upto_disp = upto_sib + self.disp.bytes();
        assert(binary@ =~= upto_disp);
        assert(binary@.len() <= 10);

        match self.imm {
            Imm::Absent => {},
            Imm::Imm8(imm) => {
                binary.push(imm);
            },
            Imm::Imm16(imm) => {
                push_le_bytes(&mut binary, imm as u64, 2);
            },
            Imm::Imm32(imm) => {
                push_le_bytes(&mut binary, imm as u64, 4);
            },
            Imm::Imm64(imm) => {
                push_le_bytes(&mut binary, imm, 8);
            },
        }
        assert(binary@ =~= upto_disp + self.imm.bytes());
        binary
    }
}

} // verus!
