//! Flag descriptors and leaf-id tagging.
//!
//! A leaf id is a 32-bit selector for the feature-identification
//! instruction. The two high bits tag the leaf's class: basic leaves sit
//! below `0x4000_0000`, hypervisor leaves carry `1 << 30`, extended leaves
//! carry `2 << 30`. A flag's full leaf id is its offset within the class,
//! tagged with the class's tag.

use vstd::prelude::*;

verus! {

/// The class of a leaf: which root leaf governs its bound and which tag
/// its full leaf id carries.
#[derive(Clone, Copy, Debug, PartialEq, Eq, Structural)]
pub enum LeafClass {
    Basic,
    Hypervisor,
    Extended,
}

/// One of the four 32-bit output registers of the instruction.
#[derive(Clone, Copy, Debug, PartialEq, Eq, Structural)]
pub enum Reg {
    Eax,
    Ebx,
    Ecx,
    Edx,
}

/// The tag of a basic leaf id.
pub const BASIC_TAG: u32 = 0;

/// The tag of a hypervisor leaf id: `1 << 30`.
pub const HYPERVISOR_TAG: u32 = 0x4000_0000;

/// The tag of an extended leaf id: `2 << 30`.
pub const EXTENDED_TAG: u32 = 0x8000_0000;

/// Describes one named feature flag: which class and offset to query, and
/// which bit of which output register answers it.
#[derive(Clone, Copy, Debug, PartialEq, Eq, Structural)]
pub struct FlagDescriptor {
    pub class: LeafClass,
    pub offset: u32,
    pub reg: Reg,
    pub bit: u32,
}

impl FlagDescriptor {
    /// A descriptor is well formed when its bit index addresses a bit of a
    /// 32-bit register.
    pub open spec fn wf(self) -> bool {
        self.bit < 32
    }
}

/// The tag that a class stamps onto its leaf ids.
pub open spec fn class_tag(class: LeafClass) -> u32 {
    match class {
        LeafClass::Basic => BASIC_TAG,
        LeafClass::Hypervisor => HYPERVISOR_TAG,
        LeafClass::Extended => EXTENDED_TAG,
    }
}

/// The full leaf id a flag queries: its offset, tagged with its class's tag.
pub open spec fn spec_leaf_id(desc: FlagDescriptor) -> u32 {
    desc.offset | class_tag(desc.class)
}

/// Computes the full leaf id of a flag.
pub fn leaf_id(desc: &FlagDescriptor) -> (id: u32)
    ensures
        id == spec_leaf_id(*desc),
{
    match desc.class {
        LeafClass::Basic => desc.offset | BASIC_TAG,
        LeafClass::Hypervisor => desc.offset | HYPERVISOR_TAG,
        LeafClass::Extended => desc.offset | EXTENDED_TAG,
    }
}

/// The named flags this crate knows how to locate.
#[derive(Clone, Copy, Debug, PartialEq, Eq, Structural)]
pub enum Flag {
    Osxsave,
    Mtrr,
    Fsgsbase,
    Avx2,
    Pdpe1gb,
    InvariantTsc,
    KvmFeatureClocksource2,
}

/// The descriptor table: where each named flag lives.
pub open spec fn spec_descriptor(flag: Flag) -> FlagDescriptor {
    match flag {
        Flag::Osxsave => FlagDescriptor {
            class: LeafClass::Basic,
            offset: 0x1,
            reg: Reg::Ecx,
            bit: 26,
        },
        Flag::Mtrr => FlagDescriptor {
            class: LeafClass::Basic,
            offset: 0x1,
            reg: Reg::Edx,
            bit: 12,
        },
        Flag::Fsgsbase => FlagDescriptor {
            class: LeafClass::Basic,
            offset: 0x7,
            reg: Reg::Ebx,
            bit: 0,
        },
        Flag::Avx2 => FlagDescriptor {
            class: LeafClass::Basic,
            offset: 0x7,
            reg: Reg::Ebx,
            bit: 5,
        },
        Flag::Pdpe1gb => FlagDescriptor {
            class: LeafClass::Extended,
            offset: 0x1,
            reg: Reg::Edx,
            bit: 26,
        },
        Flag::InvariantTsc => FlagDescriptor {
            class: LeafClass::Extended,
            offset: 0x7,
            reg: Reg::Edx,
            bit: 8,
        },
        Flag::KvmFeatureClocksource2 => FlagDescriptor {
            class: LeafClass::Hypervisor,
            offset: 0x1,
            reg: Reg::Eax,
            bit: 3,
        },
    }
}

/// Looks a named flag up in the descriptor table. Every descriptor in the
/// table is well formed.
pub fn descriptor(flag: Flag) -> (desc: FlagDescriptor)
    ensures
        desc == spec_descriptor(flag),
        desc.wf(),
{
    match flag {
        Flag::Osxsave => FlagDescriptor {
            class: LeafClass::Basic,
            offset: 0x1,
            reg: Reg::Ecx,
            bit: 26,
        },
        Flag::Mtrr => FlagDescriptor {
            class: LeafClass::Basic,
            offset: 0x1,
            reg: Reg::Edx,
            bit: 12,
        },
        Flag::Fsgsbase => FlagDescriptor {
            class: LeafClass::Basic,
            offset: 0x7,
            reg: Reg::Ebx,
            bit: 0,
        },
        Flag::Avx2 => FlagDescriptor {
            class: LeafClass::Basic,
            offset: 0x7,
            reg: Reg::Ebx,
            bit: 5,
        },
        Flag::Pdpe1gb => FlagDescriptor {
            class: LeafClass::Extended,
            offset: 0x1,
            reg: Reg::Edx,
            bit: 26,
        },
        Flag::InvariantTsc => FlagDescriptor {
            class: LeafClass::Extended,
            offset: 0x7,
            reg: Reg::Edx,
            bit: 8,
        },
        Flag::KvmFeatureClocksource2 => FlagDescriptor {
            class: LeafClass::Hypervisor,
            offset: 0x1,
            reg: Reg::Eax,
            bit: 3,
        },
    }
}

} // verus!
