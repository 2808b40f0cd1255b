//! The core of a hypervisor for RISC-V harts with the H extension: the guest exit
//! handler, the emulation of the firmware interface and of the interrupt
//! controller that guests see, and the round-robin scheduler of virtual machines.

pub mod error;
pub mod regs;
pub mod decode;
pub mod sbi;
pub mod firmware;
pub mod plic;
pub mod hostop;
pub mod vcpu;
pub mod vmexit;
pub mod vmm_trap;
pub mod vm;
pub mod vmm;

pub use error::{HyperError, HyperResult};
pub use hostop::HostOp;
pub use regs::{GeneralPurposeRegisters, GprIndex};
pub use sbi::HyperCallMsg;
pub use vcpu::{VCpu, VmCpus};
pub use vm::{ExitAction, VM};
pub use vmexit::VmExitInfo;
pub use vmm::VMM;
pub use vmm_trap::VmmTrap;
