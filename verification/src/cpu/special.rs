//! The board's input/output ports: a 16-bit shift register that the program writes
//! byte by byte and reads back through an 8-bit window.

use crate::cpu::bits::{low_byte, make_word, word};
use vstd::prelude::*;

verus! {

/// The shift register. `shift1` is its upper byte and `shift0` its lower byte;
/// `shift_offset` says how far the read window is moved up from the lower byte.
#[derive(Clone, Copy, Debug, PartialEq, Eq)]
pub struct Special {
    pub shift_offset: u8,
    pub shift0: u8,
    pub shift1: u8,
}

/// Whether a device takes what is written to `port`: the shift register on ports
/// 2 and 4, the sound and watchdog latches on 3, 5 and 6.
pub open spec fn output_port_known(port: u8) -> bool {
    port == 2 || port == 3 || port == 4 || port == 5 || port == 6
}

/// Whether a device answers a read of `port`: the inputs on ports 0, 1 and 2,
/// the shift register on port 3.
pub open spec fn input_port_known(port: u8) -> bool {
    port <= 3
}

proof fn lemma_window(v: u16, n: u8)
    by (bit_vector)
    requires
        n < 8,
    ensures
        (v >> ((8 - n) as u16)) & 0xff == (if n == 0 {
            (v / 256) % 256
        } else if n == 1 {
            (v / 128) % 256
        } else if n == 2 {
            (v / 64) % 256
        } else if n == 3 {
            (v / 32) % 256
        } else if n == 4 {
            (v / 16) % 256
        } else if n == 5 {
            (v / 8) % 256
        } else if n == 6 {
            (v / 4) % 256
        } else {
            (v / 2) % 256
        }),
{
}

proof fn lemma_offset(v: u8)
    by (bit_vector)
    ensures
        v & 0x7 == v % 8,
{
}

impl Special {
    /// The offset has three bits.
    pub open spec fn wf(self) -> bool {
        self.shift_offset < 8
    }

    /// The 16 bits of the register.
    pub open spec fn shift16(self) -> u16 {
        word(self.shift1, self.shift0)
    }

    /// The window that port 3 shows: the 8 bits of the register from bit
    /// `8 - shift_offset` up, that is `(shift16 >> (8 - shift_offset)) & 0xff`.
    pub open spec fn window(self) -> u8 {
        let v = self.shift16();
        let n = self.shift_offset;
        (if n == 0 {
            (v / 256) % 256
        } else if n == 1 {
            (v / 128) % 256
        } else if n == 2 {
            (v / 64) % 256
        } else if n == 3 {
            (v / 32) % 256
        } else if n == 4 {
            (v / 16) % 256
        } else if n == 5 {
            (v / 8) % 256
        } else if n == 6 {
            (v / 4) % 256
        } else {
            (v / 2) % 256
        }) as u8
    }

    /// The device after `value` was written to `port`.
    pub open spec fn after_out(self, port: u8, value: u8) -> Special {
        if port == 2 {
            Special { shift_offset: value % 8, ..self }
        } else if port == 4 {
            Special { shift0: self.shift1, shift1: value, ..self }
        } else {
            self
        }
    }

    /// What a read of `port` returns.
    pub open spec fn input(self, port: u8) -> u8 {
        if port == 3 {
            self.window()
        } else {
            0
        }
    }

    /// An empty register with offset 0.
    pub fn new() -> (sp: Special)
        ensures
            sp == (Special { shift_offset: 0, shift0: 0, shift1: 0 }),
            sp.wf(),
    {
        Special { shift_offset: 0, shift0: 0, shift1: 0 }
    }

    /// Takes `value` on `port`. Port 2 sets the offset to the low three bits of
    /// `value`. Port 4 shifts `value` in: the upper byte moves down and `value`
    /// becomes the upper byte. Every other port leaves the device as it was.
    /// The result says whether any device takes writes to `port`.
    pub fn machine_out(&mut self, port: u8, value: u8) -> (known: bool)
        ensures
            *final(self) == old(self).after_out(port, value),
            known == output_port_known(port),
            final(self).wf() == (port == 2 || old(self).wf()),
    {
        match port {
            2 => {
                proof {
                    lemma_offset(value);
                }
                self.shift_offset = value & 0x7;
            },
            4 => {
                self.shift0 = self.shift1;
                self.shift1 = value;
            },
            _ => {},
        }
        port == 2 || port == 3 || port == 4 || port == 5 || port == 6
    }

    /// Reads `port`. Port 3 returns the window of the shift register; every other
    /// port returns 0. The device is not changed.
    pub fn machine_in(&mut self, port: u8) -> (a: u8)
        requires
            old(self).wf(),
        ensures
            a == old(self).input(port),
            *final(self) == *old(self),
    {
        let mut a: u8 = 0;
        match port {
            3 => {
                let v: u16 = make_word(self.shift1, self.shift0);
                proof {
                    lemma_window(v, self.shift_offset);
                }
                let buffer: u16 = (v >> ((8 - self.shift_offset) as u16)) & 0xff;
                a = low_byte(buffer);
            },
            _ => {},
        }
        a
    }

    /// Whether any device answers a read of `port`.
    pub fn answers(port: u8) -> (known: bool)
        ensures
            known == input_port_known(port),
    {
        port <= 3
    }
}

} // verus!
