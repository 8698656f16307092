//! The VideoCore mailbox: property messages, the request word that
//! announces one, and the decisions of a mailbox call. Polling the status
//! register stays with the caller.
use vstd::prelude::*;
use crate::registers::{field_bits_u32, field_value_u32};

verus! {

/// Number of words of a property message buffer.
pub const MESSAGE_WORDS: usize = 36;

/// Status register: the write FIFO is full.
pub const MAILBOX_FULL: u32 = 0x8000_0000;

/// Status register: the read FIFO is empty.
pub const MAILBOX_EMPTY: u32 = 0x4000_0000;

/// Response code of a message that the firmware processed.
pub const MAILBOX_RESPONSE_OK: u32 = 0x8000_0000;

/// Bus alias of uncached physical memory, as the VideoCore sees it.
pub const BUS_ALIAS_UNCACHED: u32 = 0xC000_0000;

/// Why a mailbox call was refused.
#[derive(Clone, Copy, PartialEq, Eq, Structural, Debug)]
pub enum MailBoxError {
    /// The message buffer is not 16-byte aligned.
    NotAligned,
}

/// A property message: its buffer of words and its channel.
#[derive(Clone, Debug)]
pub struct Messege {
    pub data: Vec<u32>,
    pub channel: u32,
}

impl Messege {
    /// An all-zero message on `channel`.
    pub fn new(channel: u32) -> (r: Self)
        ensures
            r.channel == channel,
            r.data@ == Seq::new(MESSAGE_WORDS as nat, |i: int| 0u32),
    {
        let mut data: Vec<u32> = Vec::new();
        while data.len() < MESSAGE_WORDS
            invariant
                data@.len() <= MESSAGE_WORDS,
                forall|i: int| 0 <= i < data@.len() ==> #[trigger] data@[i] == 0,
            decreases MESSAGE_WORDS - data@.len(),
        {
            data.push(0);
        }
        assert(data@ =~= Seq::new(MESSAGE_WORDS as nat, |i: int| 0u32));
        Messege { data, channel }
    }
}

/// A raw mailbox word: a 16-byte aligned address and a channel.
#[derive(Clone, Copy, PartialEq, Eq, Structural, Debug)]
pub struct Messeage {
    pub data: u32,
    pub channel: u8,
}

impl Messeage {
    /// The word of `data` on `channel`.
    pub fn new(data: u32, channel: u8) -> (r: Self)
        ensures
            r == (Messeage { data, channel }),
    {
        Messeage { data, channel }
    }

    /// The value of the mailbox's write register for this word: the address
    /// bits 4..32 and the channel in bits 0..4; an unaligned address is
    /// refused.
    pub fn encode(&self) -> (r: Result<u32, MailBoxError>)
        ensures
            self.data & 0xF != 0 ==> r == Err::<u32, MailBoxError>(MailBoxError::NotAligned),
            self.data & 0xF == 0 ==> r == Ok::<u32, MailBoxError>(
                field_bits_u32(0x0FFF_FFFF, 4, self.data >> 4u32) | field_bits_u32(0xF, 0, self.channel as u32),
            ),
    {
        if self.data & 0xF != 0 {
            return Err(MailBoxError::NotAligned);
        }
        Ok(field_value_u32(0x0FFF_FFFF, 4, self.data >> 4u32) | field_value_u32(0xF, 0, self.channel as u32))
    }
}

/// The mailbox's registers.
#[derive(Clone, Copy, PartialEq, Eq, Structural, Debug)]
pub struct MailBoxRegisters {
    /// Read register (offset 0x00).
    pub read: u32,
    /// Status register (offset 0x18).
    pub status: u32,
    /// Write register (offset 0x20).
    pub write: u32,
}

/// The request word of a message buffer at bus address `addr` on
/// `channel`.
pub open spec fn request_word_spec(addr: u32, channel: u32) -> u32 {
    ((addr | channel) + BUS_ALIAS_UNCACHED) as u32
}

/// The mailbox.
pub struct MailBoxInner {
    registers: MailBoxRegisters,
}

impl MailBoxInner {
    pub closed spec fn regs(&self) -> MailBoxRegisters {
        self.registers
    }

    /// The mailbox over the register image `registers`.
    pub fn new(registers: MailBoxRegisters) -> (r: Self)
        ensures
            r.regs() == registers,
    {
        MailBoxInner { registers }
    }

    /// Takes the read and status registers' current contents.
    pub fn set_incoming(&mut self, read: u32, status: u32)
        ensures
            final(self).regs() == (MailBoxRegisters { read, status, ..old(self).regs() }),
    {
        self.registers.read = read;
        self.registers.status = status;
    }

    /// The register image.
    pub fn registers(&self) -> (r: MailBoxRegisters)
        ensures
            r == self.regs(),
    {
        self.registers
    }

    /// The word that announces the message buffer at bus address `addr`
    /// (below 1 GiB) on `channel`; a buffer that is not 16-byte aligned is
    /// refused.
    pub fn request_word(addr: u32, channel: u32) -> (r: Result<u32, MailBoxError>)
        requires
            addr < 0x4000_0000,
            channel < 16,
        ensures
            addr & 0xF != 0 ==> r == Err::<u32, MailBoxError>(MailBoxError::NotAligned),
            addr & 0xF == 0 ==> r == Ok::<u32, MailBoxError>(request_word_spec(addr, channel)),
    {
        if addr & 0x0F != 0 {
            return Err(MailBoxError::NotAligned);
        }
        assert(addr < 0x4000_0000u32 && channel < 16u32 ==> addr | channel < 0x4000_0000u32) by (bit_vector);
        Ok((addr | channel) + BUS_ALIAS_UNCACHED)
    }

    /// Whether the write FIFO has room.
    pub fn can_write(&self) -> (r: bool)
        ensures
            r == (self.regs().status & MAILBOX_FULL == 0),
    {
        self.registers.status & MAILBOX_FULL == 0
    }

    /// Whether the read FIFO holds a word.
    pub fn can_read(&self) -> (r: bool)
        ensures
            r == (self.regs().status & MAILBOX_EMPTY == 0),
    {
        self.registers.status & MAILBOX_EMPTY == 0
    }

    /// Writes `word` to the write register.
    pub fn send(&mut self, word: u32)
        ensures
            final(self).regs() == (MailBoxRegisters { write: word, ..old(self).regs() }),
    {
        self.registers.write = word;
    }

    /// Whether the word in the read register answers the request `sent`
    /// and the firmware marked `msg` as processed.
    pub fn response_ready(&self, sent: u32, msg: &Messege) -> (r: bool)
        requires
            msg.data@.len() == MESSAGE_WORDS,
        ensures
            r == (self.regs().read == sent && msg.data@[1] == MAILBOX_RESPONSE_OK),
    {
        self.registers.read == sent && msg.data[1] == MAILBOX_RESPONSE_OK
    }
}

/// The mailbox, as a device.
pub struct MailBox {
    inner: MailBoxInner,
}

impl MailBox {
    pub closed spec fn inner_spec(&self) -> MailBoxInner {
        self.inner
    }

    /// The mailbox over the register image `registers`.
    pub fn new(registers: MailBoxRegisters) -> (r: Self)
        ensures
            r.inner_spec().regs() == registers,
    {
        MailBox { inner: MailBoxInner::new(registers) }
    }

    /// The mailbox.
    pub fn inner(&mut self) -> (r: &mut MailBoxInner)
        ensures
            *r == old(self).inner_spec(),
            final(self).inner_spec() == *final(r),
    {
        &mut self.inner
    }
}

} // verus!
