//! The mathematical model of the machine and the values exchanged with the
//! driver that owns the display, the keypad and the clock.

use vstd::prelude::*;

verus! {

/// Number of addressable bytes.
pub const MEMORY_SIZE: usize = 4096;

/// Address at which loaded programs begin.
pub const ORIGIN: usize = 0x200;

/// Number of return addresses the call stack can hold.
pub const STACK_DEPTH: usize = 16;

/// Index of the register that doubles as the carry / borrow / collision flag.
pub const FLAG: usize = 0xF;

/// Number of bytes in one built-in glyph.
pub const GLYPH_HEIGHT: u16 = 5;

/// Number of bytes of glyph data at the bottom of memory.
pub const FONT_SIZE: usize = 80;

/// Why a step could not be carried out. The machine is left as it was.
#[derive(Clone, Copy, Debug, PartialEq, Eq)]
pub enum Fault {
    /// The instruction word matches no instruction.
    Decode,
    /// A memory address, the program counter or the stack pointer would
    /// leave its range.
    Bounds,
}

/// What the driver has to do after a step.
#[derive(Clone, Copy, Debug, PartialEq, Eq)]
pub enum Signal {
    /// Nothing: go on with the next step.
    Continue,
    /// Blank the display.
    ClearDisplay,
    /// Plot the `rows` sprite bytes that start at `address` at `(x, y)`, then
    /// report whether a lit pixel was erased.
    Draw { x: u8, y: u8, address: u16, rows: u8 },
    /// No key is down: the instruction did not run; step again once a key is
    /// pressed.
    AwaitKey,
}

/// What the outside world looks like at the moment of a step.
#[derive(Clone, Copy, Debug, PartialEq, Eq)]
pub struct Inputs {
    /// Bit `k` is set while key `k` is held down.
    pub keys: u16,
    /// A byte of entropy for the random-number instruction.
    pub random: u8,
}

/// The complete state of the machine, as a mathematical value.
pub struct Machine {
    pub memory: Seq<u8>,
    pub registers: Seq<u8>,
    pub index: u16,
    pub pc: int,
    pub stack: Seq<u16>,
    pub sp: int,
    pub delay_timer: u8,
    pub sound_timer: u8,
}

impl Machine {
    /// The sizes and ranges that every reachable state has.
    pub open spec fn wf(self) -> bool {
        &&& self.memory.len() == 4096
        &&& self.registers.len() == 16
        &&& self.stack.len() == 16
        &&& 0 <= self.pc < 4096
        &&& 0 <= self.sp <= 16
    }

    /// The value of register `x`.
    pub open spec fn v(self, x: int) -> int {
        self.registers[x] as int
    }

    /// The same state with the program counter at `pc`.
    pub open spec fn jump(self, pc: int) -> Machine {
        Machine { pc, ..self }
    }

    /// The same state with the program counter one instruction further.
    pub open spec fn next(self) -> Machine {
        self.jump(self.pc + 2)
    }

    /// The same state with the program counter one instruction further, or
    /// two where `cond` holds.
    pub open spec fn skip(self, cond: bool) -> Machine {
        self.jump(
            if cond {
                self.pc + 4
            } else {
                self.pc + 2
            },
        )
    }

    /// The same state with `val` in register `x`.
    pub open spec fn set_v(self, x: int, val: int) -> Machine {
        Machine { registers: self.registers.update(x, val as u8), ..self }
    }

    /// The same state with the flag register holding 1 for `bit`, else 0.
    pub open spec fn set_flag(self, bit: bool) -> Machine {
        self.set_v(
            15,
            if bit {
                1
            } else {
                0
            },
        )
    }

    /// The same state with `index` in the address register.
    pub open spec fn set_index(self, index: int) -> Machine {
        Machine { index: index as u16, ..self }
    }
}

/// The built-in glyphs for the digits 0 to F, five rows each.
pub open spec fn font_data() -> Seq<u8> {
    seq![
        0xF0u8, 0x90, 0x90, 0x90, 0xF0,
        0x20, 0x60, 0x20, 0x20, 0x70,
        0xF0, 0x10, 0xF0, 0x80, 0xF0,
        0xF0, 0x10, 0xF0, 0x10, 0xF0,
        0x90, 0x90, 0xF0, 0x10, 0x10,
        0xF0, 0x80, 0xF0, 0x10, 0xF0,
        0xF0, 0x80, 0xF0, 0x90, 0xF0,
        0xF0, 0x10, 0x20, 0x40, 0x40,
        0xF0, 0x90, 0xF0, 0x90, 0xF0,
        0xF0, 0x90, 0xF0, 0x10, 0xF0,
        0xF0, 0x90, 0xF0, 0x90, 0x90,
        0xE0, 0x90, 0xE0, 0x90, 0xE0,
        0xF0, 0x80, 0x80, 0x80, 0xF0,
        0xE0, 0x90, 0x90, 0x90, 0xE0,
        0xF0, 0x80, 0xF0, 0x80, 0xF0,
        0xF0, 0x80, 0xF0, 0x80, 0x80,
    ]
}

/// The state at power-on: glyphs at the bottom of memory, everything else
/// zero, the program counter and the address register at the origin.
pub open spec fn power_on() -> Machine {
    Machine {
        memory: Seq::new(
            4096,
            |a: int|
                if a < 80 {
                    font_data()[a]
                } else {
                    0u8
                },
        ),
        registers: Seq::new(16, |k: int| 0u8),
        index: 0x200,
        pc: 0x200,
        stack: Seq::new(16, |k: int| 0u16),
        sp: 0,
        delay_timer: 0,
        sound_timer: 0,
    }
}

/// Memory after a program is loaded: `data` from the origin upward, as far as
/// it fits; every other byte as before.
pub open spec fn loaded(memory: Seq<u8>, data: Seq<u8>) -> Seq<u8> {
    Seq::new(
        memory.len(),
        |a: int|
            if 0x200 <= a < 0x200 + data.len() {
                data[a - 0x200]
            } else {
                memory[a]
            },
    )
}

/// A timer's value after one tick: one less, never below zero.
pub open spec fn ticked(t: u8) -> u8 {
    if t == 0 {
        0
    } else {
        (t - 1) as u8
    }
}

} // verus!
