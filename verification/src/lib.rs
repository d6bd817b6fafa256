//! Trap dispatch and firmware calling convention of a RISC-V supervisor kernel.
//!
//! Nothing here touches the hardware. The functions take what was read from the
//! control registers and from the firmware as plain values, and return what is
//! to be written back and which firmware call is to be issued next.
//!
//! A trap is served in these steps. The kernel reads the privileged registers
//! and opens an [`exception::ExceptionMutContext`] over the saved register
//! file, classifies the cause into an [`exception::ExceptionImmutContext`], and
//! hands both to [`exception::handle_exception`]. Where the step that comes
//! back waits for the firmware, the kernel issues the pending call and hands
//! the answer to [`exception::complete_exception`]. It then closes the context,
//! writes the privileged registers back, and returns to the interrupted code
//! or, where the trap was fatal, reports it and shuts the machine down.

use vstd::prelude::*;

pub mod console;
pub mod exception;
pub mod sbi_call;

verus! {

/// The supervisor status register.
#[derive(Debug, Clone, Copy, PartialEq, Eq, Structural)]
pub struct Sstatus(pub usize);

/// The privilege mode that the hart was in before it trapped.
#[derive(Debug, Clone, Copy, PartialEq, Eq, Structural)]
pub enum Spp {
    Supervisor,
    User,
}

impl Spp {
    /// The mode that a value of the SPP bit stands for.
    pub open spec fn spec_from(value: usize) -> Spp {
        if value == 0 {
            Spp::User
        } else {
            Spp::Supervisor
        }
    }

    /// The mode that a value of the SPP bit stands for: user mode for 0,
    /// supervisor mode for 1.
    pub fn from(value: usize) -> (spp: Spp)
        requires
            value <= 1,
        ensures
            spp == Spp::spec_from(value),
    {
        if value == 0 {
            Spp::User
        } else {
            Spp::Supervisor
        }
    }
}

impl Sstatus {
    /// SIE: bit 1 of the register.
    pub open spec fn spec_is_interrupt_enabled(&self) -> bool {
        (self.0 / 2) % 2 == 1
    }

    /// SPIE: bit 5 of the register.
    pub open spec fn spec_is_interrupt_enabled_before_exception(&self) -> bool {
        (self.0 / 32) % 2 == 1
    }

    /// UBE: bit 6 of the register.
    pub open spec fn spec_is_user_big_endian(&self) -> bool {
        (self.0 / 64) % 2 == 1
    }

    /// SPP: bit 8 of the register.
    pub open spec fn spec_mode_before_exception(&self) -> Spp {
        if (self.0 / 256) % 2 == 1 {
            Spp::Supervisor
        } else {
            Spp::User
        }
    }

    /// SIE
    #[verifier::when_used_as_spec(spec_is_interrupt_enabled)]
    pub fn is_interrupt_enabled(&self) -> (enabled: bool)
        ensures
            enabled == self.spec_is_interrupt_enabled(),
    {
        let raw: usize = self.0;
        assert((raw & (1usize << 1usize) != 0) == ((raw / 2) % 2 == 1)) by (bit_vector);
        raw & (1usize << 1usize) != 0
    }

    /// SPIE
    #[verifier::when_used_as_spec(spec_is_interrupt_enabled_before_exception)]
    pub fn is_interrupt_enabled_before_exception(&self) -> (enabled: bool)
        ensures
            enabled == self.spec_is_interrupt_enabled_before_exception(),
    {
        let raw: usize = self.0;
        assert((raw & (1usize << 5usize) != 0) == ((raw / 32) % 2 == 1)) by (bit_vector);
        raw & (1usize << 5usize) != 0
    }

    /// UBE
    #[verifier::when_used_as_spec(spec_is_user_big_endian)]
    pub fn is_user_big_endian(&self) -> (big_endian: bool)
        ensures
            big_endian == self.spec_is_user_big_endian(),
    {
        let raw: usize = self.0;
        assert((raw & (1usize << 6usize) != 0) == ((raw / 64) % 2 == 1)) by (bit_vector);
        raw & (1usize << 6usize) != 0
    }

    /// SPP
    #[verifier::when_used_as_spec(spec_mode_before_exception)]
    pub fn mode_before_exception(&self) -> (mode: Spp)
        ensures
            mode == self.spec_mode_before_exception(),
    {
        let raw: usize = self.0;
        assert(((raw >> 8usize) & 1) == (raw / 256) % 2) by (bit_vector);
        let spp: usize = (raw >> 8usize) & 1;
        Spp::from(spp)
    }
}

} // verus!
