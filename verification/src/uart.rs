//! The line-oriented output device: byte read/write over the system
//! controller's serial port, consumed here only for diagnostics and
//! barrier-progress reporting.
//!
//! The model carries the control word the caller must store on reset, the
//! bytes still to be read, and the bytes written so far; the busy-wait on the
//! hardware ready bits belongs to the caller.

use vstd::prelude::*;

verus! {

/// The supported line speeds.
#[derive(Clone, Copy, Debug, PartialEq, Eq, Structural)]
pub enum Speed {
    S115200,
    S38400,
    S19200,
}

/// The control word that selects a speed.
pub open spec fn control_word(speed: Speed) -> u32 {
    match speed {
        Speed::S115200 => 0xE601_0000,
        Speed::S38400 => 0xB201_0000,
        Speed::S19200 => 0x6301_0000,
    }
}

/// The ASCII digit of one nibble, upper case.
pub open spec fn hex_digit(n: u8) -> u8
    recommends
        n < 16,
{
    if n < 10 {
        (0x30 + n) as u8
    } else {
        (0x37 + n) as u8
    }
}

/// The sixteen digits of a 64-bit value, most significant nibble first.
pub open spec fn hex64_bytes(v: u64) -> Seq<u8> {
    Seq::new(16, |i: int| hex_digit(((v >> (((15 - i) * 4) as u64)) & 0xF) as u8))
}

/// Render a 64-bit value as sixteen upper-case hex digits.
pub fn hex64(v: u64) -> (r: Vec<u8>)
    ensures
        r@ == hex64_bytes(v),
{
    let mut out: Vec<u8> = Vec::new();
    let mut i: usize = 0;
    while i < 16
        invariant
            i <= 16,
            out@.len() == i,
            forall|j: int| 0 <= j < i ==> out@[j] == hex64_bytes(v)[j],
        decreases 16 - i,
    {
        let shift: u64 = (15 - i as u64) * 4;
        let nib: u64 = (v >> shift) & 0xF;
        proof {
            assert((v >> shift) & 0xF < 16) by (bit_vector);
        }
        let digit: u8 = if nib < 10 {
            0x30 + nib as u8
        } else {
            0x37 + nib as u8
        };
        out.push(digit);
        i = i + 1;
    }
    proof {
        assert(out@ =~= hex64_bytes(v));
    }
    out
}

/// A byte stream with every line feed preceded by a carriage return.
pub open spec fn crlf_expand(s: Seq<u8>) -> Seq<u8>
    decreases s.len(),
{
    if s.len() == 0 {
        seq![]
    } else if s[0] == 0x0Au8 {
        seq![0x0Du8, 0x0Au8] + crlf_expand(s.skip(1))
    } else {
        seq![s[0]] + crlf_expand(s.skip(1))
    }
}

/// The serial device: the control word last programmed, the input bytes not
/// yet consumed (`rx` from `rx_pos` on), and everything written so far.
pub struct UART {
    pub control: u32,
    pub rx: Vec<u8>,
    pub rx_pos: usize,
    pub tx: Vec<u8>,
}

impl UART {
    /// The read cursor never passes the end of the input.
    pub open spec fn wf(self) -> bool {
        self.rx_pos <= self.rx.len()
    }

    /// A fresh device with nothing programmed, nothing pending and nothing
    /// written.
    pub fn new() -> (r: UART)
        ensures
            r.wf(),
            r.control == 0,
            r.rx@.len() == 0,
            r.rx_pos == 0,
            r.tx@.len() == 0,
    {
        UART { control: 0, rx: Vec::new(), rx_pos: 0, tx: Vec::new() }
    }

    /// Program the line speed: the control register takes the speed's word.
    pub fn reset(&mut self, speed: Speed)
        ensures
            final(self).control == control_word(speed),
            final(self).rx == old(self).rx,
            final(self).rx_pos == old(self).rx_pos,
            final(self).tx == old(self).tx,
    {
        self.control = match speed {
            Speed::S115200 => 0xE601_0000,
            Speed::S38400 => 0xB201_0000,
            Speed::S19200 => 0x6301_0000,
        };
    }

    /// Whether a byte is waiting to be read.
    pub fn data_pending(&self) -> (r: bool)
        requires
            self.wf(),
        ensures
            r == (self.rx_pos < self.rx@.len()),
    {
        self.rx_pos < self.rx.len()
    }

    /// Read the next byte. The hardware blocks until one arrives; the model
    /// asks that one be pending.
    pub fn read_byte(&mut self) -> (r: u8)
        requires
            old(self).wf(),
            old(self).rx_pos < old(self).rx@.len(),
        ensures
            final(self).wf(),
            r == old(self).rx@[old(self).rx_pos as int],
            final(self).rx == old(self).rx,
            final(self).rx_pos == old(self).rx_pos + 1,
            final(self).tx == old(self).tx,
            final(self).control == old(self).control,
    {
        let b = self.rx[self.rx_pos];
        self.rx_pos = self.rx_pos + 1;
        b
    }

    /// Write one byte.
    pub fn write_byte(&mut self, byte: u8)
        ensures
            final(self).tx@ == old(self).tx@.push(byte),
            final(self).rx == old(self).rx,
            final(self).rx_pos == old(self).rx_pos,
            final(self).control == old(self).control,
    {
        self.tx.push(byte);
    }

    /// Fill `data`, front to back, with the next bytes of the input; its
    /// length does not change.
    pub fn read(&mut self, data: &mut Vec<u8>)
        requires
            old(self).wf(),
            old(self).rx_pos + old(data)@.len() <= old(self).rx@.len(),
        ensures
            final(self).wf(),
            final(data)@ == old(self).rx@.subrange(
                old(self).rx_pos as int,
                old(self).rx_pos + old(data)@.len(),
            ),
            final(data)@.len() == old(data)@.len(),
            final(self).rx == old(self).rx,
            final(self).rx_pos == old(self).rx_pos + old(data)@.len(),
            final(self).tx == old(self).tx,
            final(self).control == old(self).control,
    {
        let n = data.len();
        let mut i: usize = 0;
        while i < n
            invariant
                self.wf(),
                n == data@.len(),
                i <= n,
                self.rx_pos == old(self).rx_pos + i,
                old(self).rx_pos + n <= old(self).rx@.len(),
                self.rx == old(self).rx,
                self.tx == old(self).tx,
                self.control == old(self).control,
                forall|j: int| 0 <= j < i ==> data@[j] == old(self).rx@[old(self).rx_pos + j],
                forall|j: int| i <= j < n ==> data@[j] == old(data)@[j],
            decreases n - i,
        {
            let b = self.read_byte();
            data[i] = b;
            i = i + 1;
        }
        proof {
            assert(data@ =~= old(self).rx@.subrange(
                old(self).rx_pos as int,
                old(self).rx_pos + n,
            ));
        }
    }

    /// Write a run of bytes, in order.
    pub fn write(&mut self, data: &[u8])
        ensures
            final(self).tx@ == old(self).tx@ + data@,
            final(self).rx == old(self).rx,
            final(self).rx_pos == old(self).rx_pos,
            final(self).control == old(self).control,
    {
        let n = data.len();
        let mut i: usize = 0;
        while i < n
            invariant
                n == data@.len(),
                i <= n,
                self.tx@ == old(self).tx@ + data@.take(i as int),
                self.rx == old(self).rx,
                self.rx_pos == old(self).rx_pos,
                self.control == old(self).control,
            decreases n - i,
        {
            let b = data[i];
            self.write_byte(b);
            proof {
                assert(data@.take(i + 1) =~= data@.take(i as int).push(data@[i as int]));
                assert(old(self).tx@ + data@.take(i + 1) =~= (old(self).tx@ + data@.take(
                    i as int,
                )).push(data@[i as int]));
            }
            i = i + 1;
        }
        proof {
            assert(data@.take(n as int) =~= data@);
        }
    }

    /// Write text, giving every line feed a preceding carriage return, as the
    /// line-oriented console expects.
    pub fn write_str(&mut self, s: &[u8])
        ensures
            final(self).tx@ == old(self).tx@ + crlf_expand(s@),
            final(self).rx == old(self).rx,
            final(self).rx_pos == old(self).rx_pos,
            final(self).control == old(self).control,
    {
        let n = s.len();
        let mut i: usize = 0;
        while i < n
            invariant
                n == s@.len(),
                i <= n,
                self.tx@ == old(self).tx@ + crlf_expand(s@.take(i as int)),
                self.rx == old(self).rx,
                self.rx_pos == old(self).rx_pos,
                self.control == old(self).control,
            decreases n - i,
        {
            let b = s[i];
            if b == 0x0A {
                self.write_byte(0x0D);
            }
            self.write_byte(b);
            proof {
                lemma_crlf_expand_take_step(s@, i as int);
                if s@[i as int] == 0x0Au8 {
                    assert(old(self).tx@ + crlf_expand(s@.take(i + 1)) =~= ((old(self).tx@
                        + crlf_expand(s@.take(i as int))).push(0x0Du8)).push(s@[i as int]));
                } else {
                    assert(old(self).tx@ + crlf_expand(s@.take(i + 1)) =~= (old(self).tx@
                        + crlf_expand(s@.take(i as int))).push(s@[i as int]));
                }
            }
            i = i + 1;
        }
        proof {
            assert(s@.take(n as int) =~= s@);
        }
    }
}

/// Expanding one more byte appends that byte, with a carriage return first
/// when it is a line feed.
proof fn lemma_crlf_expand_take_step(s: Seq<u8>, i: int)
    requires
        0 <= i < s.len(),
    ensures
        crlf_expand(s.take(i + 1)) == crlf_expand(s.take(i)) + (if s[i] == 0x0Au8 {
            seq![0x0Du8, s[i]]
        } else {
            seq![s[i]]
        }),
    decreases i,
{
    if i == 0 {
        assert(s.take(1) =~= seq![s[0]]);
        assert(s.take(1).skip(1) =~= Seq::<u8>::empty());
        assert(s.take(0) =~= Seq::<u8>::empty());
        if s[0] == 0x0Au8 {
            assert(crlf_expand(s.take(1)) =~= seq![0x0Du8, s[0]]);
        } else {
            assert(crlf_expand(s.take(1)) =~= seq![s[0]]);
        }
        assert(crlf_expand(s.take(0)) + (if s[0] == 0x0Au8 {
            seq![0x0Du8, s[0]]
        } else {
            seq![s[0]]
        }) =~= crlf_expand(s.take(1)));
    } else {
        lemma_crlf_expand_take_step(s.skip(1), i - 1);
        assert(s.take(i + 1).skip(1) =~= s.skip(1).take(i));
        assert(s.take(i).skip(1) =~= s.skip(1).take(i - 1));
        assert(s.take(i + 1)[0] == s[0]);
        assert(s.take(i)[0] == s[0]);
        assert(s.skip(1)[i - 1] == s[i]);
        if s[0] == 0x0Au8 {
            assert(crlf_expand(s.take(i + 1)) == seq![0x0Du8, 0x0Au8] + crlf_expand(
                s.skip(1).take(i),
            ));
            assert(crlf_expand(s.take(i)) == seq![0x0Du8, 0x0Au8] + crlf_expand(
                s.skip(1).take(i - 1),
            ));
        } else {
            assert(crlf_expand(s.take(i + 1)) == seq![s[0]] + crlf_expand(s.skip(1).take(i)));
            assert(crlf_expand(s.take(i)) == seq![s[0]] + crlf_expand(s.skip(1).take(i - 1)));
        }
        assert(crlf_expand(s.take(i + 1)) =~= crlf_expand(s.take(i)) + (if s[i] == 0x0Au8 {
            seq![0x0Du8, s[i]]
        } else {
            seq![s[i]]
        }));
    }
}

} // verus!
