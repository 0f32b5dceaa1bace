//! Machine-mode SBI firmware core for a multi-hart RISC-V platform.
//!
//! The privileged hardware state a hart owns (CSRs, register file) is modeled
//! as an explicit [`hart::Hart`] record passed by reference into every
//! component, so the boot ordering, protection layout, delegation policy and
//! trap handling rules can be stated and proved over plain values.  The thin
//! privileged-instruction backend (CSR writes, the trap vector, the console
//! and reset collaborators) lives outside this crate and drives these
//! functions with the values they prove correct.

pub mod boot;
pub mod console;
pub mod delegation;
pub mod dispatch;
pub mod executor;
pub mod fatal;
pub mod hart;
pub mod pmp;
