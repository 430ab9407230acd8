//! The system-controller channel: a fixed four-word message-send primitive,
//! used here to request a full restart and to drive the indicator pattern.
//!
//! The hardware handshake (busy-wait on the ready bit, then four register
//! writes) belongs to the caller; this model queues, in order, exactly the
//! messages the caller must put on the wire.

use vstd::prelude::*;

verus! {

/// The first word of an indicator message: command byte, override flag and
/// pattern in their fields.
pub open spec fn led_word(ovflag: bool, value: u8) -> u32 {
    0x9900_0000u32 | ((if ovflag {
        1u32
    } else {
        0u32
    }) << 16) | ((value as u32) << 8)
}

/// The first word of a full-restart request.
pub const RESTART_WORD: u32 = 0x8204_3000;

/// The system controller, with the messages handed to it so far, oldest
/// first. Each message is exactly four words.
pub struct SMC {
    pub sent: Vec<[u32; 4]>,
}

impl SMC {
    /// A fresh channel with nothing sent.
    pub fn new() -> (r: SMC)
        ensures
            r.sent@.len() == 0,
    {
        SMC { sent: Vec::new() }
    }

    /// Send one four-word message.
    pub fn send_message(&mut self, msg: &[u32; 4])
        ensures
            final(self).sent@ == old(self).sent@.push(*msg),
    {
        self.sent.push(*msg);
    }

    /// Set the indicator to an 8-bit pattern, with an override flag.
    pub fn set_led(&mut self, ovflag: bool, value: u8)
        ensures
            final(self).sent@.len() == old(self).sent@.len() + 1,
            final(self).sent@.drop_last() == old(self).sent@,
            final(self).sent@.last()@ == seq![led_word(ovflag, value), 0u32, 0u32, 0u32],
    {
        let flag: u32 = if ovflag {
            1
        } else {
            0
        };
        let buf: [u32; 4] = [0x9900_0000 | (flag << 16) | ((value as u32) << 8), 0, 0, 0];
        proof {
            assert(buf@ =~= seq![led_word(ovflag, value), 0u32, 0u32, 0u32]);
        }
        self.send_message(&buf);
        proof {
            assert(self.sent@.drop_last() =~= old(self).sent@);
        }
    }

    /// Request a full system restart.
    pub fn restart_system(&mut self)
        ensures
            final(self).sent@.len() == old(self).sent@.len() + 1,
            final(self).sent@.drop_last() == old(self).sent@,
            final(self).sent@.last()@ == seq![RESTART_WORD, 0u32, 0u32, 0u32],
    {
        let buf: [u32; 4] = [RESTART_WORD, 0, 0, 0];
        proof {
            assert(buf@ =~= seq![RESTART_WORD, 0u32, 0u32, 0u32]);
        }
        self.send_message(&buf);
        proof {
            assert(self.sent@.drop_last() =~= old(self).sent@);
        }
    }
}

} // verus!
