use crate::encoder::{lemma_le_bytes_len, Imm};
use crate::functions::{literal_value, stoi, str_eq};
use crate::line_parser::{get_reg64_str, get_rm64_ref_str, rm64_ref_of};
use crate::registers::reg64_of;
use crate::svec::SVec;
use vstd::prelude::*;

verus! {

/// The kind of text that an instruction form expects at one operand
/// position.
#[derive(Clone, Copy, Debug, PartialEq, Eq, Structural)]
pub enum OperandType {
    Absent,
    Imm64,
    Reg64,
    Rm64,
}

impl Default for OperandType {
    fn default() -> (r: Self)
        ensures
            r == OperandType::Absent,
    {
        OperandType::Absent
    }
}

impl OperandType {
    /// Whether operand text is of this kind: nothing at all, a numeric
    /// literal of 64 bits, a 64-bit register name, or a 64-bit register
    /// name or memory reference.
    pub open spec fn matches(self, expr: Seq<char>) -> bool {
        match self {
            OperandType::Absent => expr.len() == 0,
            OperandType::Imm64 => literal_value(expr).is_some(),
            OperandType::Reg64 => reg64_of(expr).is_some(),
            OperandType::Rm64 => reg64_of(expr).is_some() || rm64_ref_of(expr).is_some(),
        }
    }

    /// Whether `expr` is of this kind.
    pub fn is_match(self, expr: &str) -> (r: bool)
        ensures
            r == self.matches(expr@),
    {
        match self {
            OperandType::Absent => expr.is_empty(),
            OperandType::Imm64 => stoi(expr).is_some(),
            OperandType::Reg64 => get_reg64_str(expr).is_some(),
            OperandType::Rm64 => get_reg64_str(expr).is_some() || get_rm64_ref_str(
                expr,
            ).is_some(),
        }
    }
}

/// Whether an instruction form carries a REX prefix.
#[derive(Clone, Copy, Debug, PartialEq, Eq, Structural)]
pub enum RexRule {
    Absent,
    RexW,
}

/// What an instruction form puts into the ModRM byte: nothing, a register
/// in the reg field, or a fixed digit in the reg field.
#[derive(Clone, Copy, Debug, PartialEq, Eq, Structural)]
pub enum ModRmRule {
    Absent,
    R,
    Dight(u8),
}

/// The width of the immediate of an instruction form: none, or one, two,
/// four or eight bytes.
#[derive(Clone, Copy, Debug, PartialEq, Eq, Structural)]
pub enum ImmRule {
    Absent,
    Ib,
    Iw,
    Id,
    Io,
}

impl ImmRule {
    /// The number of bytes of the immediate that the rule asks for.
    pub open spec fn width(self) -> nat {
        match self {
            ImmRule::Absent => 0,
            ImmRule::Ib => 1,
            ImmRule::Iw => 2,
            ImmRule::Id => 4,
            ImmRule::Io => 8,
        }
    }

    /// Whether `imm` is an immediate of the kind that the rule asks for.
    pub open spec fn admits(self, imm: Imm) -> bool {
        match self {
            ImmRule::Absent => imm is Absent,
            ImmRule::Ib => imm is Imm8,
            ImmRule::Iw => imm is Imm16,
            ImmRule::Id => imm is Imm32,
            ImmRule::Io => imm is Imm64,
        }
    }

    /// An immediate of the kind that the rule asks for contributes as many
    /// bytes to the instruction as the rule's width.
    pub proof fn lemma_admitted_width(self, imm: Imm)
        requires
            self.admits(imm),
        ensures
            imm.bytes().len() == self.width(),
    {
        match imm {
            Imm::Imm16(v) => lemma_le_bytes_len(v as nat, 2),
            Imm::Imm32(v) => lemma_le_bytes_len(v as nat, 4),
            Imm::Imm64(v) => lemma_le_bytes_len(v as nat, 8),
            _ => {},
        }
    }
}

/// Whether an instruction form adds a register number into the low three
/// bits of its opcode, and for which register width.
#[derive(Clone, Copy, Debug, PartialEq, Eq, Structural)]
pub enum AddRegRule {
    Absent,
    Rb,
    Rw,
    Rd,
    Ro,
}

/// How one instruction form is encoded.
#[derive(Clone, Copy, Debug)]
pub struct Rule {
    pub opecode: SVec<3, u8>,
    pub rex: RexRule,
    pub modrm: ModRmRule,
    pub imm: ImmRule,
    pub add_reg: AddRegRule,
}

/// The value of a `Rule`.
pub struct RuleView {
    pub opecode: Seq<u8>,
    pub rex: RexRule,
    pub modrm: ModRmRule,
    pub imm: ImmRule,
    pub add_reg: AddRegRule,
}

impl View for Rule {
    type V = RuleView;

    open spec fn view(&self) -> RuleView {
        RuleView {
            opecode: self.opecode@,
            rex: self.rex,
            modrm: self.modrm,
            imm: self.imm,
            add_reg: self.add_reg,
        }
    }
}

/// One supported instruction form: a mnemonic, the kinds of its operands
/// and the rule by which it is encoded.
#[derive(Clone, Copy, Debug)]
pub struct Operator {
    pub mnemonic: &'static str,
    pub operands: SVec<2, OperandType>,
    pub encoding_rule: Rule,
}

/// The value of an `Operator`.
pub struct OperatorView {
    pub mnemonic: Seq<char>,
    pub operands: Seq<OperandType>,
    pub encoding_rule: RuleView,
}

impl View for Operator {
    type V = OperatorView;

    open spec fn view(&self) -> OperatorView {
        OperatorView {
            mnemonic: self.mnemonic@,
            operands: self.operands@,
            encoding_rule: self.encoding_rule@,
        }
    }
}

/// A line as the tokenizer hands it over: label, mnemonic and the text of
/// up to two operands.
#[derive(Clone, Copy, Debug)]
pub struct RowLine<'a> {
    pub label: Option<&'a str>,
    pub mnemonic: Option<&'a str>,
    pub operands: SVec<2, &'a str>,
}

/// A resolved line: the label, and for a line with an instruction the
/// instruction form that was selected together with the operand text.
#[derive(Clone, Copy, Debug)]
pub struct Line<'a> {
    pub label: Option<&'a str>,
    pub ops: Option<(Operator, SVec<2, &'a str>)>,
}

impl<'a> RowLine<'a> {
    /// Whether the line is an instance of the instruction form `operator`:
    /// the mnemonic is the same, there are as many operands as the form
    /// expects, and each operand is of the kind expected at its position.
    pub open spec fn matches(&self, operator: OperatorView) -> bool {
        &&& self.mnemonic.is_some()
        &&& self.mnemonic.unwrap()@ == operator.mnemonic
        &&& operator.operands.len() == self.operands@.len()
        &&& forall|k: int|
            0 <= k < operator.operands.len() ==> (#[trigger] operator.operands[k]).matches(
                self.operands@[k]@,
            )
    }

    /// Whether `index` is the first row of `table` that the line matches.
    pub open spec fn first_match(&self, table: Seq<Operator>, index: int) -> bool {
        &&& 0 <= index < table.len()
        &&& self.matches(table[index]@)
        &&& forall|j: int| 0 <= j < index ==> !self.matches((#[trigger] table[j])@)
    }

    /// Whether the line matches no row of `table`.
    pub open spec fn no_match(&self, table: Seq<Operator>) -> bool {
        forall|j: int| 0 <= j < table.len() ==> !self.matches((#[trigger] table[j])@)
    }

    pub fn new(
        label: Option<&'a str>,
        mnemonic: Option<&'a str>,
        operands: SVec<2, &'a str>,
    ) -> (r: Self)
        ensures
            r.label == label,
            r.mnemonic == mnemonic,
            r.operands == operands,
    {
        RowLine { label: label, mnemonic: mnemonic, operands: operands }
    }

    /// Whether the line is an instance of the instruction form `operator`.
    fn is_instance(&self, operator: &Operator) -> (r: bool)
        ensures
            r == self.matches(operator@),
    {
        let mnemonic = match self.mnemonic {
            Some(m) => m,
            None => {
                return false;
            },
        };
        let count = operator.operands.len();
        if !str_eq(mnemonic, operator.mnemonic) || count != self.operands.len() {
            return false;
        }
        let mut k: usize = 0;
        while k < count
            invariant
                k <= count,
                count == operator.operands@.len(),
                count == self.operands@.len(),
                forall|j: int|
                    0 <= j < k ==> (#[trigger] operator.operands@[j]).matches(self.operands@[j]@),
            decreases count - k,
        {
            if !operator.operands[k].is_match(self.operands[k]) {
                return false;
            }
            k += 1;
        }
        true
    }

    /// The index of the first row of `operators_list` that the line
    /// matches, or `None` if it matches none. A line without a mnemonic
    /// matches no row.
    pub fn get_operation_index(self, operators_list: &[Operator]) -> (r: Option<usize>)
        ensures
            match r {
                Some(i) => self.first_match(operators_list@, i as int),
                None => self.no_match(operators_list@),
            },
    {
        let mut i: usize = 0;
        while i < operators_list.len()
            invariant
                i <= operators_list@.len(),
                forall|j: int| 0 <= j < i ==> !self.matches((#[trigger] operators_list@[j])@),
            decreases operators_list@.len() - i,
        {
            if self.is_instance(&operators_list[i]) {
                return Some(i);
            }
            i += 1;
        }
        None
    }

    /// Resolves the line against `operators_list`. A line without a
    /// mnemonic resolves to its label alone. A line with a mnemonic
    /// resolves to the first row that it matches, paired with the operand
    /// text as it stands, and to `None` if it matches no row.
    pub fn to_line(&self, operators_list: &[Operator]) -> (r: Option<Line<'a>>)
        ensures
            self.mnemonic.is_none() ==> r == Some(Line { label: self.label, ops: None }),
            self.mnemonic.is_some() ==> match r {
                Some(line) => line.label == self.label && line.ops.is_some()
                    && line.ops.unwrap().1 == self.operands && exists|i: int|
                    #![trigger operators_list@[i]]
                    self.first_match(operators_list@, i) && line.ops.unwrap().0
                        == operators_list@[i],
                None => self.no_match(operators_list@),
            },
    {
        if self.mnemonic.is_some() {
            match self.get_operation_index(operators_list) {
                Some(i) => Some(
                    Line { label: self.label, ops: Some((operators_list[i], self.operands)) },
                ),
                None => None,
            }
        } else {
            Some(Line { label: self.label, ops: None })
        }
    }
}

/// The supported instruction forms, in the order in which they are tried.
pub open spec fn operator_table() -> Seq<OperatorView> {
    seq![
        // REX.W + B8+rd io: MOV r64, imm64
        OperatorView {
            mnemonic: "mov"@,
            operands: seq![OperandType::Reg64, OperandType::Imm64],
            encoding_rule: RuleView {
                opecode: seq![0xb8u8],
                rex: RexRule::RexW,
                modrm: ModRmRule::Absent,
                imm: ImmRule::Io,
                add_reg: AddRegRule::Rd,
            },
        },
        // REX.W + 8B /r: MOV r64, r/m64
        OperatorView {
            mnemonic: "mov"@,
            operands: seq![OperandType::Reg64, OperandType::Rm64],
            encoding_rule: RuleView {
                opecode: seq![0x8bu8],
                rex: RexRule::RexW,
                modrm: ModRmRule::R,
                imm: ImmRule::Absent,
                add_reg: AddRegRule::Absent,
            },
        },
        // 50+rd: PUSH r64
        OperatorView {
            mnemonic: "push"@,
            operands: seq![OperandType::Reg64],
            encoding_rule: RuleView {
                opecode: seq![0x50u8],
                rex: RexRule::Absent,
                modrm: ModRmRule::Absent,
                imm: ImmRule::Absent,
                add_reg: AddRegRule::Rd,
            },
        },
        // REX.W + 58+rd: POP r64
        OperatorView {
            mnemonic: "pop"@,
            operands: seq![OperandType::Reg64],
            encoding_rule: RuleView {
                opecode: seq![0x58u8],
                rex: RexRule::RexW,
                modrm: ModRmRule::Absent,
                imm: ImmRule::Absent,
                add_reg: AddRegRule::Rd,
            },
        },
        // C3: RET
        OperatorView {
            mnemonic: "ret"@,
            operands: Seq::empty(),
            encoding_rule: RuleView {
                opecode: seq![0xc3u8],
                rex: RexRule::Absent,
                modrm: ModRmRule::Absent,
                imm: ImmRule::Absent,
                add_reg: AddRegRule::Absent,
            },
        },
    ]
}

/// The immediate of `mov r64, imm64` is eight bytes wide; the other
/// supported forms have no immediate.
pub proof fn lemma_table_immediate_widths()
    ensures
        operator_table().len() == 5,
        operator_table()[0].encoding_rule.imm.width() == 8,
        forall|i: int| 1 <= i < 5 ==> (#[trigger] operator_table()[i]).encoding_rule.imm.width() == 0,
{
}

/// The table of supported instruction forms.
pub fn operators() -> (r: [Operator; 5])
    ensures
        r@.len() == operator_table().len(),
        forall|i: int| 0 <= i < r@.len() ==> (#[trigger] r@[i])@ == operator_table()[i],
{
    let r = [
        Operator {
            mnemonic: "mov",
            operands: SVec::value([OperandType::Reg64, OperandType::Imm64], 2),
            encoding_rule: Rule {
                opecode: SVec::value([0xb8, 0, 0], 1),
                rex: RexRule::RexW,
                modrm: ModRmRule::Absent,
                imm: ImmRule::Io,
                add_reg: AddRegRule::Rd,
            },
        },
        Operator {
            mnemonic: "mov",
            operands: SVec::value([OperandType::Reg64, OperandType::Rm64], 2),
            encoding_rule: Rule {
                opecode: SVec::value([0x8b, 0, 0], 1),
                rex: RexRule::RexW,
                modrm: ModRmRule::R,
                imm: ImmRule::Absent,
                add_reg: AddRegRule::Absent,
            },
        },
        Operator {
            mnemonic: "push",
            operands: SVec::value([OperandType::Reg64, OperandType::Absent], 1),
            encoding_rule: Rule {
                opecode: SVec::value([0x50, 0, 0], 1),
                rex: RexRule::Absent,
                modrm: ModRmRule::Absent,
                imm: ImmRule::Absent,
                add_reg: AddRegRule::Rd,
            },
        },
        Operator {
            mnemonic: "pop",
            operands: SVec::value([OperandType::Reg64, OperandType::Absent], 1),
            encoding_rule: Rule {
                opecode: SVec::value([0x58, 0, 0], 1),
                rex: RexRule::RexW,
                modrm: ModRmRule::Absent,
                imm: ImmRule::Absent,
                add_reg: AddRegRule::Rd,
            },
        },
        Operator {
            mnemonic: "ret",
            operands: SVec::value([OperandType::Absent, OperandType::Absent], 0),
            encoding_rule: Rule {
                opecode: SVec::value([0xc3, 0, 0], 1),
                rex: RexRule::Absent,
                modrm: ModRmRule::Absent,
                imm: ImmRule::Absent,
                add_reg: AddRegRule::Absent,
            },
        },
    ];
    proof {
        assert(r@[0]@.operands =~= operator_table()[0].operands);
        assert(r@[1]@.operands =~= operator_table()[1].operands);
        assert(r@[2]@.operands =~= operator_table()[2].operands);
        assert(r@[3]@.operands =~= operator_table()[3].operands);
        assert(r@[4]@.operands =~= operator_table()[4].operands);
        assert(r@[0]@.encoding_rule.opecode =~= operator_table()[0].encoding_rule.opecode);
        assert(r@[1]@.encoding_rule.opecode =~= operator_table()[1].encoding_rule.opecode);
        assert(r@[2]@.encoding_rule.opecode =~= operator_table()[2].encoding_rule.opecode);
        assert(r@[3]@.encoding_rule.opecode =~= operator_table()[3].encoding_rule.opecode);
        assert(r@[4]@.encoding_rule.opecode =~= operator_table()[4].encoding_rule.opecode);
    }
    r
}

} // verus!
