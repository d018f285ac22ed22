//! Memory-mapped peripheral registers of the BCM2836.

use vstd::prelude::*;

verus! {

/// Base of the peripheral address space on the Raspberry Pi 2.
pub const GPIO_BASE: usize = 0x3F00_0000;

/// Address of a 32-bit memory-mapped peripheral register.
#[derive(PartialEq, Eq, Structural, Clone, Copy, Debug)]
pub struct GpioRegister {
    pub address: usize,
}

impl GpioRegister {
    /// The register at `address`.
    pub fn new(address: usize) -> (r: Self)
        ensures
            r.address == address,
    {
        GpioRegister { address }
    }

    /// True when every bit of the peripheral base is set in the address, the
    /// condition under which a register may be accessed.
    pub open spec fn in_peripheral_space_spec(self) -> bool {
        self.address & GPIO_BASE == GPIO_BASE
    }

    /// Tells whether the register lies in the peripheral address space.
    pub fn in_peripheral_space(&self) -> (b: bool)
        ensures
            b == self.in_peripheral_space_spec(),
    {
        self.address & GPIO_BASE == GPIO_BASE
    }
}

/// The register addresses that the programs use.
pub open spec fn program_register(address: usize) -> bool {
    ||| address == 0x3F20_0008 || address == 0x3F20_000C || address == 0x3F20_0010
    ||| address == 0x3F20_001C || address == 0x3F20_0020 || address == 0x3F20_0028
    ||| address == 0x3F20_002C || address == 0x3F00_3004 || address == 0x3F00_B200
    ||| address == 0x3F00_B218 || address == 0x3F00_B224 || address == 0x3F00_B400
    ||| address == 0x3F00_B408 || address == 0x3F00_B40C || address == 0x3F00_B410
    ||| address == 0x3F00_B414 || address == 0x3F00_B418 || address == 0x3F00_B41C
    ||| address == 0x3F00_B420 || address == 0x3F10_001C || address == 0x3F10_0024
}

/// The registers the programs use all lie in the peripheral address space.
pub proof fn lemma_peripheral_addresses()
    ensures
        forall|address: usize|
            #![trigger (GpioRegister { address }).in_peripheral_space_spec()]
            program_register(address) ==> (GpioRegister { address }).in_peripheral_space_spec(),
{
    assert forall|address: usize| program_register(address) implies address & 0x3F00_0000
        == 0x3F00_0000 by {
        assert(program_register(address) ==> address & 0x3F00_0000 == 0x3F00_0000) by (bit_vector);
    }
}

} // verus!
