//! Behaviour of the sensor's side of the serial bus, over its register file.
//!
//! The sensor takes frames in pairs. The first of a pair is a command: the
//! register address in its low six bits, the read flag in bit 7. On a read
//! the sensor shifts the register's content out during the second frame;
//! on a write it stores the low byte of the second frame, if the register
//! is writable. The word shifted out during any other frame is 0.
use vstd::prelude::*;
use crate::lis302dl::{EXPECTED_DEVICE_ID, REG_CTRL_REG1, REG_OUT_X, REG_OUT_Y, REG_OUT_Z, REG_WHO_AM_I};
use crate::spi::{read_frames, write_frames, READ_FLAG};

verus! {

/// Number of registers that a command can address.
pub const REGISTER_COUNT: usize = 64;

/// Last writable register: the control registers run from the first one
/// up to here.
pub const REG_CTRL_REG3: u16 = 0x22;

/// Content of the first control register after power-on: all axes
/// enabled, device powered down.
pub const CTRL_REG1_RESET: u8 = 0x07;

/// The register that a command frame addresses.
pub open spec fn register_of(command: u16) -> int {
    (command % 64) as int
}

/// Whether a command frame asks for a read.
pub open spec fn is_read(command: u16) -> bool {
    command % 256 >= 128
}

/// Whether the model stores writes to a register.
pub open spec fn writable(register: int) -> bool {
    REG_CTRL_REG1 <= register <= REG_CTRL_REG3
}

/// Register file, pending command and shifted-out word after one frame.
pub open spec fn exchanged(regs: Seq<u8>, command: Option<u16>, frame: u16) -> (
    Seq<u8>,
    Option<u16>,
    u32,
) {
    match command {
        None => (regs, Some(frame), 0),
        Some(c) => if is_read(c) {
            (regs, None, regs[register_of(c)] as u32)
        } else if writable(register_of(c)) {
            (regs.update(register_of(c), (frame % 256) as u8), None, 0)
        } else {
            (regs, None, 0)
        },
    }
}

/// The sensor's register file and the command frame awaiting its data frame.
pub struct SensorModel {
    pub regs: Vec<u8>,
    pub command: Option<u16>,
}

impl SensorModel {
    pub open spec fn wf(&self) -> bool {
        self.regs@.len() == REGISTER_COUNT
    }

    /// Power-on state: identification register holding the device id,
    /// first control register at its reset value, the rest zero, no
    /// pending command.
    pub fn new() -> (r: Self)
        ensures
            r.wf(),
            r.command.is_none(),
            forall|i: int|
                0 <= i < REGISTER_COUNT ==> #[trigger] r.regs@[i] == (if i == REG_WHO_AM_I {
                    EXPECTED_DEVICE_ID as u8
                } else if i == REG_CTRL_REG1 {
                    CTRL_REG1_RESET
                } else {
                    0
                }),
    {
        let mut regs: Vec<u8> = Vec::new();
        let mut i: usize = 0;
        while i < REGISTER_COUNT
            invariant
                i <= REGISTER_COUNT,
                regs@.len() == i,
                forall|j: int| 0 <= j < i ==> #[trigger] regs@[j] == 0,
            decreases REGISTER_COUNT - i,
        {
            regs.push(0);
            i = i + 1;
        }
        regs.set(REG_WHO_AM_I as usize, EXPECTED_DEVICE_ID as u8);
        regs.set(REG_CTRL_REG1 as usize, CTRL_REG1_RESET);
        SensorModel { regs, command: None }
    }

    /// Puts raw readings into the three axis output registers.
    pub fn set_axes(&mut self, x: u8, y: u8, z: u8)
        requires
            old(self).wf(),
        ensures
            final(self).wf(),
            final(self).command == old(self).command,
            final(self).regs@ == old(self).regs@.update(REG_OUT_X as int, x).update(
                REG_OUT_Y as int,
                y,
            ).update(REG_OUT_Z as int, z),
    {
        self.regs.set(REG_OUT_X as usize, x);
        self.regs.set(REG_OUT_Y as usize, y);
        self.regs.set(REG_OUT_Z as usize, z);
    }

    /// Takes one frame and returns the word shifted out meanwhile.
    pub fn exchange(&mut self, frame: u16) -> (r: u32)
        requires
            old(self).wf(),
        ensures
            final(self).wf(),
            (final(self).regs@, final(self).command, r) == exchanged(
                old(self).regs@,
                old(self).command,
                frame,
            ),
    {
        match self.command {
            None => {
                self.command = Some(frame);
                0
            },
            Some(c) => {
                self.command = None;
                let register = (c % 64) as usize;
                if c % 256 >= 128 {
                    self.regs[register] as u32
                } else if REG_CTRL_REG1 <= c % 64 && c % 64 <= REG_CTRL_REG3 {
                    self.regs.set(register, (frame % 256) as u8);
                    0
                } else {
                    0
                }
            },
        }
    }
}

/// The word shifted out during the second frame of a pair sent from an
/// idle sensor, and the register file after the pair.
pub open spec fn pair_exchanged(regs: Seq<u8>, frames: Seq<u16>) -> (Seq<u8>, u32) {
    let (r1, c1, _) = exchanged(regs, None, frames[0]);
    let (r2, _, w) = exchanged(r1, c1, frames[1]);
    (r2, w)
}

proof fn lemma_read_command(address: u16)
    requires
        address < 64,
    ensures
        register_of(address | READ_FLAG) == address,
        is_read(address | READ_FLAG),
{
    assert(address < 64 ==> (address | 0x80u16) % 64 == address) by (bit_vector);
    assert((address | 0x80u16) % 256 >= 128) by (bit_vector);
}

/// Reading a writable register right after writing it returns the value
/// written.
pub proof fn lemma_write_then_read(regs: Seq<u8>, address: u16, value: u16)
    requires
        regs.len() == REGISTER_COUNT,
        writable(address as int),
        value <= 0xFF,
    ensures
        pair_exchanged(pair_exchanged(regs, write_frames(address, value)).0, read_frames(
            address,
        )).1 == value as u32,
{
    lemma_read_command(address);
}

/// Writes never reach the identification register: reading it after any
/// register write returns what it held before.
pub proof fn lemma_id_survives_write(regs: Seq<u8>, address: u16, value: u16)
    requires
        regs.len() == REGISTER_COUNT,
        address < 0x80,
    ensures
        pair_exchanged(pair_exchanged(regs, write_frames(address, value)).0, read_frames(
            REG_WHO_AM_I,
        )).1 == regs[REG_WHO_AM_I as int] as u32,
{
    lemma_read_command(REG_WHO_AM_I);
}

} // verus!
