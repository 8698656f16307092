//! The GPIO block: routing of pins 14 and 15 to the PL011 UART, with their
//! pull resistors disabled.
use vstd::prelude::*;
use crate::bsp::Board;
use crate::exception::CpuIrqState;
use crate::registers::{field_bits_u32, field_value_u32};
use crate::synchronization::{IRQSafeNullLock, Mutex};

verus! {

/// The GPIO registers that the UART routing uses.
#[derive(Clone, Copy, PartialEq, Eq, Structural, Debug)]
pub struct GPIORegisters {
    /// Function select of pins 10 to 19 (offset 0x04).
    pub gpfsel1: u32,
    /// Pull-up/down enable, BCM2837 (offset 0x94).
    pub gppud: u32,
    /// Pull-up/down clock of pins 0 to 31, BCM2837 (offset 0x98).
    pub gppudclk0: u32,
    /// Pull-up/down control of pins 0 to 15, BCM2711 (offset 0xE4).
    pub gpio_pup_pdn_cntrl_reg0: u32,
}

/// One step of a GPIO register sequence.
#[derive(Clone, Copy, PartialEq, Eq, Structural, Debug)]
pub enum GpioStep {
    WriteGpfsel1(u32),
    WriteGppud(u32),
    WriteGppudclk0(u32),
    WritePupPdnCntrl0(u32),
    /// Wait one microsecond.
    Delay1us,
}

/// GPFSEL1 from `gpfsel1` with pins 14 and 15 on alternate function 0.
pub open spec fn gpfsel1_uart(gpfsel1: u32) -> u32 {
    (gpfsel1 & !(field_bits_u32(7, 12, 7) | field_bits_u32(7, 15, 7))) | field_bits_u32(7, 12, 0b100)
        | field_bits_u32(7, 15, 0b100)
}

/// The clock bits of pins 14 and 15.
pub open spec fn pud_clock_14_15() -> u32 {
    field_bits_u32(1, 15, 1) | field_bits_u32(1, 14, 1)
}

/// The BCM2711 pull control with pins 14 and 15 pulled up.
pub open spec fn pull_up_14_15() -> u32 {
    field_bits_u32(3, 30, 0b01) | field_bits_u32(3, 28, 0b01)
}

/// The BCM2837 sequence that disables the pull resistors of pins 14 and
/// 15.
pub open spec fn bcm2837_pud_steps() -> Seq<GpioStep> {
    seq![
        GpioStep::WriteGppud(0),
        GpioStep::Delay1us,
        GpioStep::WriteGppudclk0(pud_clock_14_15()),
        GpioStep::Delay1us,
        GpioStep::WriteGppud(0),
        GpioStep::WriteGppudclk0(0),
    ]
}

/// The GPIO block.
pub struct GPIOInner {
    registers: GPIORegisters,
}

impl GPIOInner {
    pub closed spec fn regs(&self) -> GPIORegisters {
        self.registers
    }

    /// The block over the register image `registers`.
    pub fn new(registers: GPIORegisters) -> (r: Self)
        ensures
            r.regs() == registers,
    {
        GPIOInner { registers }
    }

    /// The register image.
    pub fn registers(&self) -> (r: GPIORegisters)
        ensures
            r == self.regs(),
    {
        self.registers
    }

    /// Disables the pull resistors of pins 14 and 15 on the BCM2837: the
    /// returned steps, with their delays, are what the hardware must see.
    pub fn disable_pud_14_15_bcm2837(&mut self) -> (r: Vec<GpioStep>)
        ensures
            r@ == bcm2837_pud_steps(),
            final(self).regs() == (GPIORegisters { gppud: 0, gppudclk0: 0, ..old(self).regs() }),
    {
        let off = field_value_u32(3, 0, 0b00);
        let clock = field_value_u32(1, 15, 1) | field_value_u32(1, 14, 1);
        proof {
            assert((0u32 & 3u32) << 0u32 == 0u32) by (bit_vector);
        }
        let mut steps: Vec<GpioStep> = Vec::new();
        steps.push(GpioStep::WriteGppud(off));
        steps.push(GpioStep::Delay1us);
        steps.push(GpioStep::WriteGppudclk0(clock));
        steps.push(GpioStep::Delay1us);
        steps.push(GpioStep::WriteGppud(off));
        steps.push(GpioStep::WriteGppudclk0(0));
        self.registers.gppud = off;
        self.registers.gppudclk0 = 0;
        assert(steps@ =~= bcm2837_pud_steps());
        steps
    }

    /// Pulls pins 14 and 15 up on the BCM2711.
    pub fn disable_pud_14_15_bcm2711(&mut self) -> (r: Vec<GpioStep>)
        ensures
            r@ == seq![GpioStep::WritePupPdnCntrl0(pull_up_14_15())],
            final(self).regs() == (GPIORegisters { gpio_pup_pdn_cntrl_reg0: pull_up_14_15(), ..old(self).regs() }),
    {
        let value = field_value_u32(3, 30, 0b01) | field_value_u32(3, 28, 0b01);
        self.registers.gpio_pup_pdn_cntrl_reg0 = value;
        let mut steps: Vec<GpioStep> = Vec::new();
        steps.push(GpioStep::WritePupPdnCntrl0(value));
        assert(steps@ =~= seq![GpioStep::WritePupPdnCntrl0(pull_up_14_15())]);
        steps
    }

    /// Routes pins 14 and 15 to the UART and disables their pull resistors
    /// as `board` requires; returns the register steps in order.
    pub fn map_pl011_uart(&mut self, board: Board) -> (r: Vec<GpioStep>)
        ensures
            r@[0] == GpioStep::WriteGpfsel1(gpfsel1_uart(old(self).regs().gpfsel1)),
            r@.len() >= 1,
            final(self).regs().gpfsel1 == gpfsel1_uart(old(self).regs().gpfsel1),
            board == Board::RaspberryPi3 ==> r@.drop_first() == bcm2837_pud_steps() && final(self).regs().gppud == 0
                && final(self).regs().gppudclk0 == 0 && final(self).regs().gpio_pup_pdn_cntrl_reg0
                == old(self).regs().gpio_pup_pdn_cntrl_reg0,
            board == Board::RaspberryPi4 ==> r@.drop_first() == seq![GpioStep::WritePupPdnCntrl0(pull_up_14_15())]
                && final(self).regs().gpio_pup_pdn_cntrl_reg0 == pull_up_14_15() && final(self).regs().gppud
                == old(self).regs().gppud && final(self).regs().gppudclk0 == old(self).regs().gppudclk0,
    {
        let mask = field_value_u32(7, 12, 7) | field_value_u32(7, 15, 7);
        let gpfsel1 = (self.registers.gpfsel1 & !mask) | field_value_u32(7, 12, 0b100) | field_value_u32(
            7,
            15,
            0b100,
        );
        self.registers.gpfsel1 = gpfsel1;
        let mut steps: Vec<GpioStep> = Vec::new();
        steps.push(GpioStep::WriteGpfsel1(gpfsel1));
        let mut rest = match board {
            Board::RaspberryPi3 => self.disable_pud_14_15_bcm2837(),
            Board::RaspberryPi4 => self.disable_pud_14_15_bcm2711(),
        };
        let ghost rest_seq = rest@;
        let ghost first = steps@;
        steps.append(&mut rest);
        assert(steps@ =~= first + rest_seq);
        assert(steps@.drop_first() =~= rest_seq);
        steps
    }
}

/// The GPIO block, reached under the IRQ-masking lock.
pub struct GPIO {
    inner: IRQSafeNullLock<GPIOInner>,
}

impl GPIO {
    pub closed spec fn inner_spec(&self) -> GPIOInner {
        self.inner.data()
    }

    /// The block over the register image `registers`.
    pub fn new(registers: GPIORegisters) -> (r: Self)
        ensures
            r.inner_spec().regs() == registers,
    {
        GPIO { inner: IRQSafeNullLock::new(GPIOInner::new(registers)) }
    }

    /// The driver's compatibility string.
    pub fn compatible(&self) -> (r: &'static str)
        ensures
            r == "BCM GPIO",
    {
        "BCM GPIO"
    }

    /// Routes pins 14 and 15 to the UART, with interrupts masked meanwhile.
    pub fn map_pl011_uart(&mut self, cpu: &mut CpuIrqState, board: Board) -> (r: Vec<GpioStep>)
        ensures
            *final(cpu) == *old(cpu),
            r@.len() >= 1,
            r@[0] == GpioStep::WriteGpfsel1(gpfsel1_uart(old(self).inner_spec().regs().gpfsel1)),
            final(self).inner_spec().regs().gpfsel1 == gpfsel1_uart(old(self).inner_spec().regs().gpfsel1),
    {
        self.inner.lock(cpu, |inner: &mut GPIOInner| -> (r: Vec<GpioStep>)
            ensures
                r@.len() >= 1,
                r@[0] == GpioStep::WriteGpfsel1(gpfsel1_uart(old(inner).regs().gpfsel1)),
                final(inner).regs().gpfsel1 == gpfsel1_uart(old(inner).regs().gpfsel1),
            { inner.map_pl011_uart(board) })
    }
}

} // verus!
