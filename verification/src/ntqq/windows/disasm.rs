//! The x86-64 disassembler, reduced to what the locator reads from an instruction.

use crate::ntqq::windows::Error;
use capstone::arch::x86::X86Operand;
use capstone::arch::x86::X86OperandType::{Imm, Mem, Reg};
use capstone::arch::{ArchOperand, BuildsCapstone, BuildsCapstoneSyntax};
use vstd::prelude::*;

verus! {

#[verifier::external_type_specification]
#[verifier::external_body]
pub struct ExCapstone(capstone::Capstone);

/// Instruction id that the disassembler gives to `lea`.
pub const X86_INS_LEA: u32 = 332;

/// Register id that the disassembler gives to `rip`.
pub const X86_REG_RIP: u16 = 41;

/// Identity, place and size of a decoded instruction.
#[derive(Clone, Copy, Debug, PartialEq, Eq, Structural)]
pub struct InsnHead {
    /// Instruction id of the disassembler.
    pub id: u32,
    /// Address at which the instruction was decoded.
    pub address: u64,
    /// Length of the instruction in bytes.
    pub len: usize,
}

/// Base register and displacement of a memory operand.
#[derive(Clone, Copy, Debug, PartialEq, Eq, Structural)]
pub struct MemOperand {
    /// Register id of the base register.
    pub base: u16,
    /// Displacement added to the base register.
    pub disp: i64,
}

/// Head of the first instruction that the disassembler decodes from `code` placed at
/// `address`, in 64-bit mode; `None` where it decodes nothing.
pub uninterp spec fn x86_insn_head(code: Seq<u8>, address: u64) -> Option<InsnHead>;

/// An operand of a decoded instruction.
#[derive(Clone, Copy, Debug, PartialEq, Eq, Structural)]
pub enum Operand {
    /// A register, by its id.
    Reg(u16),
    /// An immediate value.
    Imm(i64),
    /// A place in memory.
    Mem(MemOperand),
    /// Anything else.
    Invalid,
}

/// The operands of the first instruction that the disassembler decodes from `code` placed
/// at `address`, in their order; none where it decodes nothing.
pub uninterp spec fn x86_operands(code: Seq<u8>, address: u64) -> Seq<Operand>;

/// A disassembler for 64-bit x86 code with instruction details switched on.
///
/// Every value of this type is configured alike, so what it decodes depends on the code and
/// its address alone.
pub struct Disassembler {
    engine: capstone::Capstone,
}

impl Disassembler {
    /// Calls the builder of `capstone::Capstone` for x86 in 64-bit mode, Intel syntax, with
    /// details. An error comes out as its text. Nothing is claimed of the outcome.
    #[verifier::external_body]
    fn new() -> Result<Disassembler, String> {
        let built = capstone::Capstone::new()
            .x86()
            .mode(capstone::arch::x86::ArchMode::Mode64)
            .syntax(capstone::arch::x86::ArchSyntax::Intel)
            .detail(true)
            .build();
        match built {
            Ok(engine) => Ok(Disassembler { engine }),
            Err(e) => Err(e.to_string()),
        }
    }

    /// Sets a disassembler up. Whether that goes well is up to the disassembler; where it
    /// does not, the error is what it said.
    pub fn build() -> (built: Result<Disassembler, Error>)
        ensures
            built matches Err(e) ==> e is Capstone,
    {
        match Disassembler::new() {
            Ok(engine) => Ok(engine),
            Err(message) => Err(Error::Capstone { message }),
        }
    }

    /// Calls `Capstone::disasm_count` for one instruction and hands out id, address and
    /// length of what it decoded. The contract claims that the outcome is a function of code
    /// and address, and that the instruction is reported at the address given; an error of
    /// the call and an empty result both come out as `None`. Decoding is a matter of the
    /// bytes alone; that the disassembler gets the memory it asks for is taken for granted.
    #[verifier::external_body]
    pub(crate) fn insn_head(&self, code: &[u8], address: u64) -> (head: Option<InsnHead>)
        ensures
            head == x86_insn_head(code@, address),
            head matches Some(h) ==> h.address == address,
    {
        let insns = self.engine.disasm_count(code, address, 1).ok()?;
        let insn = insns.iter().next()?;
        Some(InsnHead { id: insn.id().0, address: insn.address(), len: insn.len() })
    }

    /// Calls `Capstone::disasm_count` for one instruction, `Capstone::insn_detail` on it and
    /// `ArchDetail::operands` on the details, and hands out the operands in their order,
    /// each by its kind; `None` where a call fails. The contract claims that a successful
    /// outcome is a function of code and address, and that the calls succeed on every
    /// instruction that decodes with an id other than zero: the details are switched on,
    /// and they are refused for nothing but the id zero.
    #[verifier::external_body]
    pub(crate) fn operands(&self, code: &[u8], address: u64) -> (operands: Option<Vec<Operand>>)
        ensures
            operands matches Some(list) ==> list@ == x86_operands(code@, address),
            x86_insn_head(code@, address) matches Some(head) && head.id != 0
                ==> operands is Some,
    {
        let insns = self.engine.disasm_count(code, address, 1).ok()?;
        let Some(insn) = insns.iter().next() else { return Some(Vec::new()) };
        let detail = self.engine.insn_detail(insn).ok()?;
        Some(detail.arch_detail().operands().into_iter().map(|operand| match operand {
            ArchOperand::X86Operand(X86Operand { op_type: Reg(r), .. }) => Operand::Reg(r.0),
            ArchOperand::X86Operand(X86Operand { op_type: Imm(i), .. }) => Operand::Imm(i),
            ArchOperand::X86Operand(X86Operand { op_type: Mem(m), .. }) => Operand::Mem(
                MemOperand { base: m.base().0, disp: m.disp() },
            ),
            _ => Operand::Invalid,
        }).collect())
    }
}

/// The second operand of an instruction where it is a place in memory.
pub open spec fn spec_second_memory_operand(operands: Seq<Operand>) -> Option<MemOperand> {
    if operands.len() >= 2 {
        match operands[1] {
            Operand::Mem(operand) => Some(operand),
            _ => None,
        }
    } else {
        None
    }
}

/// Picks the second operand of an instruction where it is a place in memory.
pub fn second_memory_operand(operands: &Vec<Operand>) -> (operand: Option<MemOperand>)
    ensures
        operand == spec_second_memory_operand(operands@),
{
    if operands.len() >= 2 {
        match operands[1] {
            Operand::Mem(operand) => Some(operand),
            _ => None,
        }
    } else {
        None
    }
}

/// Whether the instruction is a `lea`.
pub fn is_lea(head: InsnHead) -> (lea: bool)
    ensures
        lea == (head.id == X86_INS_LEA),
{
    head.id == X86_INS_LEA
}

/// The address that a `rip`-relative memory operand of the instruction refers to: the
/// address of the next instruction plus the displacement, in 64-bit address arithmetic.
pub open spec fn rip_target(head: InsnHead, operand: MemOperand) -> u64 {
    head.address.wrapping_add(head.len as u64).wrapping_add_signed(operand.disp)
}

/// The address that the instruction refers to through `rip`, if its operand is relative to
/// `rip`.
pub open spec fn spec_rip_reference(head: InsnHead, operand: Option<MemOperand>) -> Option<u64> {
    match operand {
        Some(m) => if m.base == X86_REG_RIP {
            Some(rip_target(head, m))
        } else {
            None
        },
        None => None,
    }
}

/// Computes the absolute address that an instruction refers to through a `rip`-relative
/// memory operand. `None` where there is no memory operand or its base is another register.
pub fn rip_reference(head: InsnHead, operand: Option<MemOperand>) -> (target: Option<u64>)
    ensures
        target == spec_rip_reference(head, operand),
{
    match operand {
        Some(m) => {
            if m.base == X86_REG_RIP {
                Some(head.address.wrapping_add(head.len as u64).wrapping_add_signed(m.disp))
            } else {
                None
            }
        },
        None => None,
    }
}

} // verus!
