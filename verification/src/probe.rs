//! The feature probe: cached class bounds, the bound short-circuit, and
//! bit extraction from an instruction response.

use vstd::prelude::*;

use crate::flags::{spec_leaf_id, leaf_id, FlagDescriptor, LeafClass, Reg};

verus! {

/// The four 32-bit output values of one issue of the
/// feature-identification instruction.
#[derive(Clone, Copy, Debug, PartialEq, Eq, Structural)]
pub struct CpuidRegs {
    pub eax: u32,
    pub ebx: u32,
    pub ecx: u32,
    pub edx: u32,
}

/// The output register a descriptor selects.
pub open spec fn spec_reg_value(regs: CpuidRegs, reg: Reg) -> u32 {
    match reg {
        Reg::Eax => regs.eax,
        Reg::Ebx => regs.ebx,
        Reg::Ecx => regs.ecx,
        Reg::Edx => regs.edx,
    }
}

/// Selects one output register of a response.
pub fn reg_value(regs: &CpuidRegs, reg: Reg) -> (value: u32)
    ensures
        value == spec_reg_value(*regs, reg),
{
    match reg {
        Reg::Eax => regs.eax,
        Reg::Ebx => regs.ebx,
        Reg::Ecx => regs.ecx,
        Reg::Edx => regs.edx,
    }
}

/// Whether bit `bit` of `value` is set.
pub open spec fn spec_bit_set(value: u32, bit: u32) -> bool
    recommends
        bit < 32,
{
    value & (1u32 << bit) != 0
}

/// The feature probe: the highest leaf id the processor reports as valid
/// for each leaf class, recorded once at construction and never mutated.
#[derive(Clone, Copy, Debug)]
pub struct Cpuid {
    max_basic_eax: u32,
    max_hypervisor_eax: u32,
    max_extended_eax: u32,
}

/// What a flag query answers, as a function of the probe, the flag's
/// descriptor, and the response the hardware would give at the flag's
/// leaf: false outright when the leaf id exceeds the class bound, else
/// the descriptor's bit of the descriptor's register.
pub open spec fn spec_flag_value(probe: Cpuid, desc: FlagDescriptor, response: CpuidRegs) -> bool {
    spec_leaf_id(desc) <= probe.bound(desc.class)
        && spec_bit_set(spec_reg_value(response, desc.reg), desc.bit)
}

impl Cpuid {
    /// The cached bound of a leaf class: the highest leaf id the
    /// processor reports as valid within it.
    pub closed spec fn bound(self, class: LeafClass) -> u32 {
        match class {
            LeafClass::Basic => self.max_basic_eax,
            LeafClass::Hypervisor => self.max_hypervisor_eax,
            LeafClass::Extended => self.max_extended_eax,
        }
    }

    /// Builds a probe from the instruction's responses at the three class
    /// roots (leaf ids 0x0, 0x4000_0000 and 0x8000_0000): each class's
    /// bound is the eax value of its root response.
    pub fn new(
        basic_root: CpuidRegs,
        hypervisor_root: CpuidRegs,
        extended_root: CpuidRegs,
    ) -> (probe: Cpuid)
        ensures
            probe.bound(LeafClass::Basic) == basic_root.eax,
            probe.bound(LeafClass::Hypervisor) == hypervisor_root.eax,
            probe.bound(LeafClass::Extended) == extended_root.eax,
    {
        Cpuid {
            max_basic_eax: basic_root.eax,
            max_hypervisor_eax: hypervisor_root.eax,
            max_extended_eax: extended_root.eax,
        }
    }

    /// Decides whether a flag's leaf must be queried at all: `Some` of the
    /// flag's full leaf id exactly when that id is within the class bound,
    /// `None` when the leaf is unsupported and the flag is false without
    /// any further hardware query.
    pub fn query_leaf(&self, desc: &FlagDescriptor) -> (plan: Option<u32>)
        ensures
            plan is Some <==> spec_leaf_id(*desc) <= self.bound(desc.class),
            plan matches Some(leaf) ==> leaf == spec_leaf_id(*desc),
    {
        let id: u32 = leaf_id(desc);
        let bound: u32 = match desc.class {
            LeafClass::Basic => self.max_basic_eax,
            LeafClass::Hypervisor => self.max_hypervisor_eax,
            LeafClass::Extended => self.max_extended_eax,
        };
        if id <= bound {
            Some(id)
        } else {
            None
        }
    }
}

/// Extracts a flag's answer from the response the hardware gave at the
/// flag's leaf: whether the descriptor's bit of the descriptor's register
/// is set.
pub fn flag_from_response(desc: &FlagDescriptor, regs: &CpuidRegs) -> (set: bool)
    requires
        desc.wf(),
    ensures
        set == spec_bit_set(spec_reg_value(*regs, desc.reg), desc.bit),
{
    let value: u32 = reg_value(regs, desc.reg);
    let mask: u32 = 1u32 << desc.bit;
    (value & mask) != 0
}

} // verus!
