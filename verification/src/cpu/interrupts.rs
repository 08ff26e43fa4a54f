use vstd::prelude::*;

verus! {

pub const NMI_VECTOR: u16 = 0xFFFA;

pub const RESET_VECTOR: u16 = 0xFFFC;

pub const BRK_IRQ_VECTOR: u16 = 0xFFFE;

/// An interrupt: where its handler address is stored, whether it sets the B flag in the pushed
/// status, and how many cycles it takes.
#[derive(Clone, Copy, Debug)]
pub struct Interrupt {
    pub interrupt_vector: u16,
    pub b_flag: bool,
    pub cycles: u8,
}

pub fn nmi_interrupt() -> (r: Interrupt)
    ensures
        r.interrupt_vector == NMI_VECTOR,
        !r.b_flag,
        r.cycles == 2,
{
    Interrupt { interrupt_vector: NMI_VECTOR, b_flag: false, cycles: 2 }
}

pub fn irq_interrupt() -> (r: Interrupt)
    ensures
        r.interrupt_vector == BRK_IRQ_VECTOR,
        !r.b_flag,
        r.cycles == 7,
{
    Interrupt { interrupt_vector: BRK_IRQ_VECTOR, b_flag: false, cycles: 7 }
}

/// BRK takes no time of its own beyond the instruction.
pub fn brk_interrupt() -> (r: Interrupt)
    ensures
        r.interrupt_vector == BRK_IRQ_VECTOR,
        r.b_flag,
        r.cycles == 0,
{
    Interrupt { interrupt_vector: BRK_IRQ_VECTOR, b_flag: true, cycles: 0 }
}

pub fn reset_interrupt() -> (r: Interrupt)
    ensures
        r.interrupt_vector == RESET_VECTOR,
        !r.b_flag,
        r.cycles == 8,
{
    Interrupt { interrupt_vector: RESET_VECTOR, b_flag: false, cycles: 8 }
}

} // verus!
