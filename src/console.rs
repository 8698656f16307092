//! The QEMU console: bytes for the emulated UART's data register, with a
//! carriage return before each newline, and a count of what was written.
use vstd::prelude::*;
use vstd::string::StrSliceExecFns;
use crate::exception::CpuIrqState;
use crate::synchronization::{IRQSafeNullLock, Mutex};

verus! {

/// The bytes that show `s` on the console: each character as its low byte,
/// a newline preceded by a carriage return.
pub open spec fn console_bytes(s: Seq<char>) -> Seq<u8>
    decreases s.len(),
{
    if s.len() == 0 {
        Seq::empty()
    } else {
        let c = s.last();
        let prefix = console_bytes(s.drop_last());
        if c == '\n' {
            prefix.push(13u8).push(10u8)
        } else {
            prefix.push(c as u8)
        }
    }
}

/// The console's state: the number of bytes written.
pub struct QEMUOutputInner {
    chars_written: usize,
}

impl QEMUOutputInner {
    pub closed spec fn written_spec(&self) -> usize {
        self.chars_written
    }

    /// A console with nothing written.
    pub fn new() -> (r: Self)
        ensures
            r.written_spec() == 0,
    {
        QEMUOutputInner { chars_written: 0 }
    }

    /// The byte that shows `c`, counted as written.
    pub fn write_char(&mut self, c: char) -> (r: u8)
        requires
            old(self).written_spec() < usize::MAX,
        ensures
            r == c as u8,
            final(self).written_spec() == old(self).written_spec() + 1,
    {
        self.chars_written = self.chars_written + 1;
        c as u8
    }

    /// The bytes that show `s`, counted as written.
    pub fn write_str(&mut self, s: &str) -> (r: Vec<u8>)
        requires
            old(self).written_spec() + 2 * s@.len() <= usize::MAX,
        ensures
            r@ == console_bytes(s@),
            final(self).written_spec() == old(self).written_spec() + r@.len(),
    {
        let mut r: Vec<u8> = Vec::new();
        let n = s.unicode_len();
        let mut i: usize = 0;
        while i < n
            invariant
                n == s@.len(),
                i <= n,
                r@ == console_bytes(s@.subrange(0, i as int)),
                r@.len() <= 2 * i,
                self.chars_written == old(self).written_spec() + r@.len(),
                old(self).written_spec() + 2 * s@.len() <= usize::MAX,
            decreases n - i,
        {
            let c = s.get_char(i);
            assert(s@.subrange(0, i + 1).drop_last() =~= s@.subrange(0, i as int));
            if c == '\n' {
                r.push(self.write_char('\r'));
            }
            r.push(self.write_char(c));
            i = i + 1;
        }
        assert(s@.subrange(0, n as int) =~= s@);
        r
    }

    /// Bytes written so far.
    pub fn chars_written(&self) -> (r: usize)
        ensures
            r == self.written_spec(),
    {
        self.chars_written
    }
}

/// The QEMU console, reached under the IRQ-masking lock.
pub struct QEMUOutput {
    inner: IRQSafeNullLock<QEMUOutputInner>,
}

impl QEMUOutput {
    pub closed spec fn inner_spec(&self) -> QEMUOutputInner {
        self.inner.data()
    }

    /// A console with nothing written.
    pub fn new() -> (r: Self)
        ensures
            r.inner_spec().written_spec() == 0,
    {
        QEMUOutput { inner: IRQSafeNullLock::new(QEMUOutputInner::new()) }
    }

    /// The bytes that show `s`, counted as written.
    pub fn write_str(&mut self, cpu: &mut CpuIrqState, s: &str) -> (r: Vec<u8>)
        requires
            old(self).inner_spec().written_spec() + 2 * s@.len() <= usize::MAX,
        ensures
            *final(cpu) == *old(cpu),
            r@ == console_bytes(s@),
            final(self).inner_spec().written_spec() == old(self).inner_spec().written_spec() + r@.len(),
    {
        self.inner.lock(cpu, |inner: &mut QEMUOutputInner| -> (r: Vec<u8>)
            requires
                inner.written_spec() + 2 * s@.len() <= usize::MAX,
            ensures
                r@ == console_bytes(s@),
                final(inner).written_spec() == old(inner).written_spec() + r@.len(),
            { inner.write_str(s) })
    }

    /// Bytes written so far.
    pub fn chars_written(&mut self, cpu: &mut CpuIrqState) -> (r: usize)
        ensures
            *final(cpu) == *old(cpu),
            r == old(self).inner_spec().written_spec(),
            final(self).inner_spec().written_spec() == old(self).inner_spec().written_spec(),
    {
        self.inner.lock(cpu, |inner: &mut QEMUOutputInner| -> (r: usize)
            ensures
                r == old(inner).written_spec(),
                final(inner).written_spec() == old(inner).written_spec(),
            { inner.chars_written() })
    }
}

} // verus!
