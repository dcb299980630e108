//! A CPU feature-detection probe for the x86 instruction-set family.
//!
//! The probe records, at construction, the highest leaf id the processor
//! reports for each of three leaf classes (basic, hypervisor, extended).
//! A flag is described by a leaf class, a leaf offset, an output register
//! and a bit index; answering a flag query means computing the full leaf
//! id, checking it against the class bound, and — only when in range —
//! testing the named bit in the named register of the instruction's output.
//!
//! The raw feature-identification instruction reads live hardware state,
//! so it cannot stand here; a thin front end issues it and hands the four
//! 32-bit output values to this crate as plain data. Everything that can
//! be decided from plain data — leaf-id tagging, the bound short-circuit,
//! register selection and bit extraction — is verified here.

pub mod flags;
pub mod laws;
pub mod probe;
