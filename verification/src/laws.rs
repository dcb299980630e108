//! Laws of the flag-query model: what holds of every probe, descriptor
//! and hardware response.

use vstd::prelude::*;

use crate::flags::{spec_leaf_id, FlagDescriptor};
use crate::probe::{spec_bit_set, spec_flag_value, spec_reg_value, Cpuid, CpuidRegs};

verus! {

/// Bound short-circuit: a flag whose full leaf id exceeds the probe's
/// cached bound for its class reads false, whatever the hardware would
/// have answered at that leaf.
pub proof fn lemma_out_of_bound_flag_is_false(
    probe: Cpuid,
    desc: FlagDescriptor,
    response: CpuidRegs,
)
    requires
        spec_leaf_id(desc) > probe.bound(desc.class),
    ensures
        !spec_flag_value(probe, desc, response),
{
}

/// Idempotence: evaluating the same flag twice against the same probe,
/// with the hardware answering the same both times, yields the same
/// boolean.
pub proof fn lemma_flag_value_idempotent(
    probe: Cpuid,
    desc: FlagDescriptor,
    first: CpuidRegs,
    second: CpuidRegs,
)
    requires
        first == second,
    ensures
        spec_flag_value(probe, desc, first) == spec_flag_value(probe, desc, second),
{
}

/// A response whose target register holds exactly the target bit passes
/// the flag's bit test.
pub proof fn lemma_lone_target_bit_reads_true(desc: FlagDescriptor, response: CpuidRegs)
    requires
        desc.wf(),
        spec_reg_value(response, desc.reg) == 1u32 << desc.bit,
    ensures
        spec_bit_set(spec_reg_value(response, desc.reg), desc.bit),
{
    let b: u32 = desc.bit;
    assert((1u32 << b) & (1u32 << b) != 0) by (bit_vector)
        requires
            b < 32u32,
    ;
}

/// A response whose target register has the target bit clear fails the
/// flag's bit test, whatever its other bits hold.
pub proof fn lemma_cleared_target_bit_reads_false(desc: FlagDescriptor, response: CpuidRegs)
    requires
        desc.wf(),
        spec_reg_value(response, desc.reg) & (1u32 << desc.bit) == 0,
    ensures
        !spec_bit_set(spec_reg_value(response, desc.reg), desc.bit),
{
}

/// A flag's value depends only on the target bit of the target register:
/// two responses that differ nowhere in that bit — their target registers
/// xor to a value with that bit clear — yield the same flag value.
pub proof fn lemma_flag_ignores_unrelated_bits(
    probe: Cpuid,
    desc: FlagDescriptor,
    first: CpuidRegs,
    second: CpuidRegs,
)
    requires
        desc.wf(),
        (spec_reg_value(first, desc.reg) ^ spec_reg_value(second, desc.reg)) & (1u32 << desc.bit)
            == 0,
    ensures
        spec_flag_value(probe, desc, first) == spec_flag_value(probe, desc, second),
{
    let v1: u32 = spec_reg_value(first, desc.reg);
    let v2: u32 = spec_reg_value(second, desc.reg);
    let b: u32 = desc.bit;
    assert(v1 & (1u32 << b) == v2 & (1u32 << b)) by (bit_vector)
        requires
            (v1 ^ v2) & (1u32 << b) == 0u32,
    ;
}

} // verus!
