use vstd::prelude::*;

verus! {

/// A 64-bit general-purpose register as an instruction names it: the three
/// bits that go into an instruction field, and whether the REX extension
/// bit for that field has to be set.
#[derive(Clone, Copy, Debug, PartialEq, Eq, Structural)]
pub struct Register {
    pub code: u8,
    pub extended: bool,
}

/// The names of the sixteen 64-bit registers, each at the index that is
/// its register number.
pub open spec fn reg64_names() -> Seq<Seq<char>> {
    seq![
        "rax"@,
        "rcx"@,
        "rdx"@,
        "rbx"@,
        "rsp"@,
        "rbp"@,
        "rsi"@,
        "rdi"@,
        "r8"@,
        "r9"@,
        "r10"@,
        "r11"@,
        "r12"@,
        "r13"@,
        "r14"@,
        "r15"@,
    ]
}

/// The register with the given number: the low three bits are its code,
/// and the numbers from 8 on need the extension bit.
pub open spec fn register_numbered(number: int) -> Register {
    Register { code: (number % 8) as u8, extended: number >= 8 }
}

/// The register that `name` names, if it is the name of a 64-bit register.
pub open spec fn reg64_of(name: Seq<char>) -> Option<Register> {
    match reg64_names().index_of_first(name) {
        Some(number) => Some(register_numbered(number)),
        None => None,
    }
}

/// The register table in executable form.
pub(crate) fn reg64_table() -> (r: [&'static str; 16])
    ensures
        r@.len() == 16,
        forall|i: int| 0 <= i < 16 ==> (#[trigger] r@[i])@ == reg64_names()[i],
{
    [
        "rax",
        "rcx",
        "rdx",
        "rbx",
        "rsp",
        "rbp",
        "rsi",
        "rdi",
        "r8",
        "r9",
        "r10",
        "r11",
        "r12",
        "r13",
        "r14",
        "r15",
    ]
}

/// Every register name is made of ASCII characters.
pub proof fn lemma_reg64_names_ascii(name: Seq<char>)
    requires
        reg64_names().contains(name),
    ensures
        vstd::utf8::is_ascii_chars(name),
{
    reveal_strlit("rax");
    reveal_strlit("rcx");
    reveal_strlit("rdx");
    reveal_strlit("rbx");
    reveal_strlit("rsp");
    reveal_strlit("rbp");
    reveal_strlit("rsi");
    reveal_strlit("rdi");
    reveal_strlit("r8");
    reveal_strlit("r9");
    reveal_strlit("r10");
    reveal_strlit("r11");
    reveal_strlit("r12");
    reveal_strlit("r13");
    reveal_strlit("r14");
    reveal_strlit("r15");
    let i = choose|i: int| 0 <= i < reg64_names().len() && reg64_names()[i] == name;
    assert(0 <= i < 16);
}

} // verus!
