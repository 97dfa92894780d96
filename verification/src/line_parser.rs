use crate::functions::str_eq;
use crate::registers::{reg64_names, reg64_of, reg64_table, lemma_reg64_names_ascii, Register};
use vstd::prelude::*;
use vstd::string::StrSliceExecFns;
use vstd::string::StringSliceAdditionalSpecFns;

verus! {

/// The register that `name` names, or `None` if it names no 64-bit
/// register.
pub fn get_reg64_str(name: &str) -> (r: Option<Register>)
    ensures
        r == reg64_of(name@),
{
    let table = reg64_table();
    let mut i: usize = 0;
    while i < 16
        invariant
            i <= 16,
            table@.len() == 16,
            forall|k: int| 0 <= k < 16 ==> (#[trigger] table@[k])@ == reg64_names()[k],
            forall|k: int| 0 <= k < i ==> reg64_names()[k] != name@,
        decreases 16 - i,
    {
        if str_eq(name, table[i]) {
            proof {
                reg64_names().index_of_first_ensures(name@);
                assert(reg64_names()[i as int] == name@);
            }
            return Some(Register { code: (i % 8) as u8, extended: i >= 8 });
        }
        i += 1;
    }
    proof {
        reg64_names().index_of_first_ensures(name@);
    }
    None
}

/// The base register of a memory reference: a 64-bit register name
/// between square brackets.
pub open spec fn rm64_ref_of(expr: Seq<char>) -> Option<Register> {
    if expr.len() >= 2 && expr.first() == '[' && expr.last() == ']' {
        reg64_of(expr.subrange(1, expr.len() - 1))
    } else {
        None
    }
}

/// The base register of the memory reference `expr`, or `None` if `expr`
/// is no memory reference.
pub fn get_rm64_ref_str(expr: &str) -> (r: Option<Register>)
    ensures
        r == rm64_ref_of(expr@),
{
    if !expr.is_ascii() {
        proof {
            if rm64_ref_of(expr@).is_some() {
                let inner = expr@.subrange(1, expr@.len() - 1);
                reg64_names().index_of_first_ensures(inner);
                lemma_reg64_names_ascii(inner);
                assert forall|i: int| 0 <= i < expr@.len() implies '\0' <= #[trigger] expr@[i]
                    <= '\u{7f}' by {
                    if 0 < i < expr@.len() - 1 {
                        assert(expr@[i] == inner[i - 1]);
                    }
                }
            }
        }
        return None;
    }
    let bytes = expr.as_bytes();
    let n = bytes.len();
    proof {
        vstd::string::is_ascii_spec_bytes(expr);
        assert(bytes@.len() == expr@.len());
    }
    if n < 2 {
        return None;
    }
    assert(bytes@[0] == expr@[0] as u8);
    assert(bytes@[n - 1] == expr@[n - 1] as u8);
    if bytes[0] != 91 || bytes[n - 1] != 93 {
        return None;
    }
    get_reg64_str(expr.substring_ascii(1, n - 1))
}

} // verus!
