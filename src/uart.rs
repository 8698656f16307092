//! The PL011 UART: bring-up and character transfer. Waiting on the flag
//! register stays with the caller: each call decides on the flags as they
//! read now.
use vstd::prelude::*;
use crate::exception::CpuIrqState;
use crate::registers::{field_bits_u32, field_value_u32};
use crate::synchronization::{IRQSafeNullLock, Mutex};

verus! {

/// Flag register: transmit FIFO full.
pub const FR_TXFF: u32 = 0x20;

/// Flag register: receive FIFO empty.
pub const FR_RXFE: u32 = 0x10;

/// Flag register: transmitter busy.
pub const FR_BUSY: u32 = 0x08;

/// The UART's register block.
#[derive(Clone, Copy, PartialEq, Eq, Structural, Debug)]
pub struct PL011Registers {
    /// Data register (offset 0x00).
    pub dr: u32,
    /// Flag register (offset 0x18).
    pub fr: u32,
    /// Integer baud rate divisor (offset 0x24).
    pub ibrd: u32,
    /// Fractional baud rate divisor (offset 0x28).
    pub fbrd: u32,
    /// Line control register (offset 0x2C).
    pub lcr_h: u32,
    /// Control register (offset 0x30).
    pub cr: u32,
    /// Interrupt clear register (offset 0x44).
    pub icr: u32,
}

/// Whether a read waits for a character or returns at once.
#[derive(Clone, Copy, PartialEq, Eq, Structural, Debug)]
pub enum BlockingMode {
    Blocking,
    NonBlocking,
}

/// The register image after bring-up: interrupts cleared, 921600 baud at a
/// 48 MHz clock (divisor 3 + 16/64), eight data bits with FIFOs, and the
/// UART, its transmitter and its receiver enabled.
pub open spec fn initialized(regs: PL011Registers) -> PL011Registers {
    PL011Registers {
        icr: field_bits_u32(0x7FF, 0, 0x7FF),
        ibrd: field_bits_u32(0xFFFF, 0, 3),
        fbrd: field_bits_u32(0x3F, 0, 16),
        lcr_h: field_bits_u32(3, 5, 0b11) | field_bits_u32(1, 4, 1),
        cr: field_bits_u32(1, 0, 1) | field_bits_u32(1, 8, 1) | field_bits_u32(1, 9, 1),
        ..regs
    }
}

/// The character that a received byte stands for: a carriage return reads
/// as a newline.
pub open spec fn converted(byte: u8) -> char {
    if byte == 13 {
        '\n'
    } else {
        byte as char
    }
}

/// The PL011 UART with its transfer counters.
pub struct PL011UartInner {
    registers: PL011Registers,
    chars_written: usize,
    chars_read: usize,
}

impl PL011UartInner {
    pub closed spec fn regs(&self) -> PL011Registers {
        self.registers
    }

    pub closed spec fn written_spec(&self) -> usize {
        self.chars_written
    }

    pub closed spec fn read_spec(&self) -> usize {
        self.chars_read
    }

    /// The UART over the register image `registers`, nothing transferred.
    pub fn new(registers: PL011Registers) -> (r: Self)
        ensures
            r.regs() == registers,
            r.written_spec() == 0,
            r.read_spec() == 0,
    {
        PL011UartInner { registers, chars_written: 0, chars_read: 0 }
    }

    /// The register image.
    pub fn registers(&self) -> (r: PL011Registers)
        ensures
            r == self.regs(),
    {
        self.registers
    }

    /// Takes the flag register's current contents.
    pub fn set_flags(&mut self, fr: u32)
        ensures
            final(self).regs() == (PL011Registers { fr, ..old(self).regs() }),
            final(self).written_spec() == old(self).written_spec(),
            final(self).read_spec() == old(self).read_spec(),
    {
        self.registers.fr = fr;
    }

    /// Takes a received byte into the data register.
    pub fn set_data(&mut self, dr: u32)
        ensures
            final(self).regs() == (PL011Registers { dr, ..old(self).regs() }),
            final(self).written_spec() == old(self).written_spec(),
            final(self).read_spec() == old(self).read_spec(),
    {
        self.registers.dr = dr;
    }

    /// Brings the UART up. The transmitter must be idle (see `flush`).
    pub fn init(&mut self)
        ensures
            final(self).regs() == initialized(old(self).regs()),
            final(self).written_spec() == old(self).written_spec(),
            final(self).read_spec() == old(self).read_spec(),
    {
        self.registers.cr = 0;
        self.registers.icr = field_value_u32(0x7FF, 0, 0x7FF);
        self.registers.ibrd = field_value_u32(0xFFFF, 0, 3);
        self.registers.fbrd = field_value_u32(0x3F, 0, 16);
        self.registers.lcr_h = field_value_u32(3, 5, 0b11) | field_value_u32(1, 4, 1);
        self.registers.cr = field_value_u32(1, 0, 1) | field_value_u32(1, 8, 1) | field_value_u32(1, 9, 1);
    }

    /// Whether the transmitter is idle; the caller waits until it is.
    pub fn flush(&self) -> (r: bool)
        ensures
            r == (self.regs().fr & FR_BUSY == 0),
    {
        self.registers.fr & FR_BUSY == 0
    }

    /// Sends `c` unless the transmit FIFO is full; the caller retries until
    /// it is sent.
    pub fn write_char(&mut self, c: char) -> (sent: bool)
        requires
            old(self).written_spec() < usize::MAX,
        ensures
            sent == (old(self).regs().fr & FR_TXFF == 0),
            sent ==> final(self).regs() == (PL011Registers { dr: c as u32, ..old(self).regs() })
                && final(self).written_spec() == old(self).written_spec() + 1,
            !sent ==> final(self).regs() == old(self).regs() && final(self).written_spec() == old(self).written_spec(),
            final(self).read_spec() == old(self).read_spec(),
    {
        if self.registers.fr & FR_TXFF != 0 {
            return false;
        }
        self.registers.dr = c as u32;
        self.chars_written = self.chars_written + 1;
        true
    }

    /// The received character, a carriage return read as a newline; `None`
    /// while the receive FIFO is empty, in which case a blocking caller
    /// retries.
    pub fn read_char_converting(&mut self, blocking_mode: BlockingMode) -> (r: Option<char>)
        requires
            old(self).read_spec() < usize::MAX,
        ensures
            final(self).regs() == old(self).regs(),
            final(self).written_spec() == old(self).written_spec(),
            old(self).regs().fr & FR_RXFE != 0 ==> r is None && final(self).read_spec() == old(self).read_spec(),
            old(self).regs().fr & FR_RXFE == 0 ==> r == Some(converted(old(self).regs().dr as u8))
                && final(self).read_spec() == old(self).read_spec() + 1,
    {
        if self.registers.fr & FR_RXFE != 0 {
            return None;
        }
        let byte = self.registers.dr as u8;
        let ret = if byte == 13 {
            '\n'
        } else {
            byte as char
        };
        self.chars_read = self.chars_read + 1;
        Some(ret)
    }

    /// Characters sent so far.
    pub fn chars_written(&self) -> (r: usize)
        ensures
            r == self.written_spec(),
    {
        self.chars_written
    }

    /// Characters received so far.
    pub fn chars_read(&self) -> (r: usize)
        ensures
            r == self.read_spec(),
    {
        self.chars_read
    }
}

/// The PL011 UART, reached under the IRQ-masking lock.
pub struct PL011Uart {
    inner: IRQSafeNullLock<PL011UartInner>,
}

impl PL011Uart {
    pub closed spec fn inner_spec(&self) -> PL011UartInner {
        self.inner.data()
    }

    /// The UART over the register image `registers`.
    pub fn new(registers: PL011Registers) -> (r: Self)
        ensures
            r.inner_spec().regs() == registers,
            r.inner_spec().written_spec() == 0,
            r.inner_spec().read_spec() == 0,
    {
        PL011Uart { inner: IRQSafeNullLock::new(PL011UartInner::new(registers)) }
    }

    /// The driver's compatibility string.
    pub fn compatible(&self) -> (r: &'static str)
        ensures
            r == "BCM PL011 UART",
    {
        "BCM PL011 UART"
    }

    /// Brings the UART up, with interrupts masked meanwhile.
    pub fn init(&mut self, cpu: &mut CpuIrqState) -> (r: Result<(), &'static str>)
        ensures
            r is Ok,
            *final(cpu) == *old(cpu),
            final(self).inner_spec().regs() == initialized(old(self).inner_spec().regs()),
    {
        self.inner.lock(cpu, |inner: &mut PL011UartInner| -> (r: ())
            ensures
                final(inner).regs() == initialized(old(inner).regs()),
            { inner.init() });
        Ok(())
    }

    /// Sends `c` unless the transmit FIFO is full.
    pub fn write_char(&mut self, cpu: &mut CpuIrqState, c: char) -> (sent: bool)
        requires
            old(self).inner_spec().written_spec() < usize::MAX,
        ensures
            *final(cpu) == *old(cpu),
            sent == (old(self).inner_spec().regs().fr & FR_TXFF == 0),
            sent ==> final(self).inner_spec().regs() == (PL011Registers {
                dr: c as u32,
                ..old(self).inner_spec().regs()
            }),
    {
        self.inner.lock(cpu, |inner: &mut PL011UartInner| -> (sent: bool)
            requires
                inner.written_spec() < usize::MAX,
            ensures
                sent == (old(inner).regs().fr & FR_TXFF == 0),
                sent ==> final(inner).regs() == (PL011Registers { dr: c as u32, ..old(inner).regs() }),
            { inner.write_char(c) })
    }
}

} // verus!
