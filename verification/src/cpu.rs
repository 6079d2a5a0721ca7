//! The interpreter: the machine state and the engine that steps it.

use vstd::prelude::*;
use crate::decode::{
    field_nn, field_nnn, field_x, get_family, get_n, get_nn, get_nnn, get_x, get_y, join,
};
use crate::machine::{
    font_data, loaded, power_on, ticked, Fault, Inputs, Machine, Signal, FLAG, FONT_SIZE,
    GLYPH_HEIGHT, MEMORY_SIZE, ORIGIN, STACK_DEPTH,
};
use crate::semantics::{
    alu_op, call_op, commit, compare_op, draw_op, execute, go, key_down, key_op, lowest_key_from,
    matches_outcome, misc_op, step, system_op, with_digits, with_dump, with_load,
};

verus! {

/// The machine state. It changes only through the methods below.
pub struct CPU {
    i: u16,
    pc: usize,
    mem: [u8; 4096],
    v: [u8; 16],
    stack: [u16; 16],
    sp: usize,
    dt: u8,
    st: u8,
}

impl View for CPU {
    type V = Machine;

    closed spec fn view(&self) -> Machine {
        Machine {
            memory: self.mem@,
            registers: self.v@,
            index: self.i,
            pc: self.pc as int,
            stack: self.stack@,
            sp: self.sp as int,
            delay_timer: self.dt,
            sound_timer: self.st,
        }
    }
}

/// The glyph table as bytes.
fn font_table() -> (t: [u8; 80])
    ensures
        t@ == font_data(),
{
    let t: [u8; 80] = [
        0xF0, 0x90, 0x90, 0x90, 0xF0,
        0x20, 0x60, 0x20, 0x20, 0x70,
        0xF0, 0x10, 0xF0, 0x80, 0xF0,
        0xF0, 0x10, 0xF0, 0x10, 0xF0,
        0x90, 0x90, 0xF0, 0x10, 0x10,
        0xF0, 0x80, 0xF0, 0x10, 0xF0,
        0xF0, 0x80, 0xF0, 0x90, 0xF0,
        0xF0, 0x10, 0x20, 0x40, 0x40,
        0xF0, 0x90, 0xF0, 0x90, 0xF0,
        0xF0, 0x90, 0xF0, 0x10, 0xF0,
        0xF0, 0x90, 0xF0, 0x90, 0x90,
        0xE0, 0x90, 0xE0, 0x90, 0xE0,
        0xF0, 0x80, 0x80, 0x80, 0xF0,
        0xE0, 0x90, 0x90, 0x90, 0xE0,
        0xF0, 0x80, 0xF0, 0x80, 0xF0,
        0xF0, 0x80, 0xF0, 0x80, 0x80,
    ];
    assert(t@ =~= font_data());
    t
}

/// Whether key `k` is held down in `keys`.
fn is_key_down(keys: u16, k: u8) -> (down: bool)
    ensures
        down == key_down(keys, k as int),
{
    k < 16 && (keys >> (k as u16)) & 1 == 1
}

/// The lowest key held down in `keys`.
fn lowest_key(keys: u16) -> (k: u8)
    ensures
        k == lowest_key_from(keys, 0),
{
    let mut k: u8 = 0;
    while k < 15 && (keys >> (k as u16)) & 1 != 1
        invariant
            k <= 15,
            lowest_key_from(keys, 0) == lowest_key_from(keys, k as int),
        decreases 15 - k,
    {
        k += 1;
    }
    k
}

impl CPU {
    /// The machine at power-on.
    pub fn new() -> (cpu: CPU)
        ensures
            cpu@ == power_on(),
            cpu@.wf(),
    {
        let font = font_table();
        let mut mem: [u8; 4096] = [0u8; 4096];
        let mut a: usize = 0;
        while a < FONT_SIZE
            invariant
                a <= 80,
                font@ == font_data(),
                forall|j: int| 0 <= j < a ==> mem@[j] == font_data()[j],
                forall|j: int| a <= j < 4096 ==> mem@[j] == 0,
            decreases FONT_SIZE - a,
        {
            mem[a] = font[a];
            a += 1;
        }
        let cpu = CPU {
            pc: ORIGIN,
            stack: [0u16; 16],
            sp: 0,
            v: [0u8; 16],
            i: 0x200,
            mem,
            dt: 0,
            st: 0,
        };
        assert(cpu@.memory =~= power_on().memory);
        assert(cpu@.registers =~= power_on().registers);
        assert(cpu@.stack =~= power_on().stack);
        cpu
    }

    /// Copies `data` into memory from the origin upward. What does not fit
    /// below the end of memory is dropped; nothing else changes.
    pub fn load_memory(&mut self, data: &[u8])
        ensures
            final(self)@ == (Machine { memory: loaded(old(self)@.memory, data@), ..old(self)@ }),
            old(self)@.wf() ==> final(self)@.wf(),
    {
        let mut k: usize = 0;
        while k < data.len() && k < MEMORY_SIZE - ORIGIN
            invariant
                k <= data.len(),
                k <= 3584,
                self@ == (Machine { memory: self.mem@, ..old(self)@ }),
                forall|a: int| 0x200 <= a < 0x200 + k ==> self.mem@[a] == data@[a - 0x200],
                forall|a: int|
                    0 <= a < 4096 && !(0x200 <= a < 0x200 + k) ==> self.mem@[a] == old(
                        self,
                    ).mem@[a],
            decreases MEMORY_SIZE - ORIGIN - k,
        {
            self.mem[ORIGIN + k] = data[k];
            k += 1;
        }
        assert(self.mem@ =~= loaded(old(self)@.memory, data@));
    }

    /// The program counter.
    pub fn pc(&self) -> (pc: usize)
        ensures
            pc == self@.pc,
    {
        self.pc
    }

    /// The stack pointer: the number of return addresses on the stack.
    pub fn sp(&self) -> (sp: usize)
        ensures
            sp == self@.sp,
    {
        self.sp
    }

    /// The address register.
    pub fn index(&self) -> (i: u16)
        ensures
            i == self@.index,
    {
        self.i
    }

    /// The sixteen registers.
    pub fn registers(&self) -> (v: [u8; 16])
        ensures
            v@ == self@.registers,
    {
        self.v
    }

    /// The byte at `address`, if there is one.
    pub fn memory_at(&self, address: usize) -> (byte: Option<u8>)
        ensures
            byte == if address < 4096 {
                Some(self@.memory[address as int])
            } else {
                None
            },
    {
        if address < MEMORY_SIZE {
            Some(self.mem[address])
        } else {
            None
        }
    }

    /// The call stack: the first `sp()` entries are live.
    pub fn stack(&self) -> (s: [u16; 16])
        ensures
            s@ == self@.stack,
    {
        self.stack
    }

    /// The delay timer, as it is now.
    pub fn delay_timer(&self) -> (t: u8)
        ensures
            t == self@.delay_timer,
    {
        self.dt
    }

    /// The sound timer, as it is now.
    pub fn sound_timer(&self) -> (t: u8)
        ensures
            t == self@.sound_timer,
    {
        self.st
    }

    /// Whether the buzzer should sound: the sound timer is not zero.
    pub fn buzzer_active(&self) -> (on: bool)
        ensures
            on == (self@.sound_timer != 0),
    {
        self.st != 0
    }

    /// One tick of the timer clock: both timers count down, stopping at zero.
    pub fn tick_timers(&mut self)
        ensures
            final(self)@ == (Machine {
                delay_timer: ticked(old(self)@.delay_timer),
                sound_timer: ticked(old(self)@.sound_timer),
                ..old(self)@
            }),
            old(self)@.wf() ==> final(self)@.wf(),
    {
        if self.dt > 0 {
            self.dt -= 1;
        }
        if self.st > 0 {
            self.st -= 1;
        }
    }

    /// Records the display's answer to a draw signal: the flag register
    /// becomes 1 if a lit pixel was erased, else 0.
    pub fn report_collision(&mut self, collided: bool)
        ensures
            final(self)@ == old(self)@.set_flag(collided),
            old(self)@.wf() ==> final(self)@.wf(),
    {
        self.v[FLAG] = if collided {
            1
        } else {
            0
        };
    }

    /// Executes exactly one instruction: the one at the program counter.
    /// On a fault the machine is left as it was.
    pub fn run_cycle(&mut self, inputs: Inputs) -> (r: Result<Signal, Fault>)
        ensures
            matches_outcome(old(self)@, final(self)@, r, step(old(self)@, inputs)),
            old(self)@.wf() ==> final(self)@.wf(),
    {
        match self.fetch() {
            Ok(opcode) => self.execute_opcode(opcode, inputs),
            Err(fault) => Err(fault),
        }
    }

    /// The instruction word at the program counter, high byte first; a
    /// bounds fault if its two bytes do not both lie in memory.
    pub fn fetch(&self) -> (r: Result<u16, Fault>)
        ensures
            r == if 0 <= self@.pc && self@.pc + 2 <= 4096 {
                Ok::<u16, Fault>(crate::semantics::fetch(self@))
            } else {
                Err::<u16, Fault>(Fault::Bounds)
            },
    {
        if self.pc > MEMORY_SIZE - 2 {
            return Err(Fault::Bounds);
        }
        Ok(join(self.mem[self.pc], self.mem[self.pc + 1]))
    }

    /// Executes the instruction `opcode` as if it stood at the program
    /// counter. On a fault the machine is left as it was.
    pub fn execute_opcode(&mut self, opcode: u16, inputs: Inputs) -> (r: Result<Signal, Fault>)
        ensures
            matches_outcome(old(self)@, final(self)@, r, execute(old(self)@, opcode, inputs)),
            old(self)@.wf() ==> final(self)@.wf(),
    {
        if self.pc > MEMORY_SIZE - 2 {
            return Err(Fault::Bounds);
        }
        match get_family(opcode) {
            0x0 => self.op_0nnn(opcode),
            0x1 => self.op_1nnn(opcode),
            0x2 => self.op_2nnn(opcode),
            0x3 => self.op_3xnn(opcode),
            0x4 => self.op_4xnn(opcode),
            0x5 => self.op_5xy0(opcode),
            0x6 => self.op_6xnn(opcode),
            0x7 => self.op_7xnn(opcode),
            0x8 => self.op_8xyn(opcode),
            0x9 => self.op_9xy0(opcode),
            0xA => self.op_annn(opcode),
            0xB => self.op_bnnn(opcode),
            0xC => self.op_cxnn(opcode, inputs.random),
            0xD => self.op_dxyn(opcode),
            0xE => self.op_exnn(opcode, inputs.keys),
            _ => self.op_fxnn(opcode, inputs),
        }
    }

    /// Moves the program counter on by `by`, if it stays in memory.
    fn advance(&mut self, by: usize) -> (r: Result<Signal, Fault>)
        requires
            old(self).pc <= 4094,
            by <= 4,
        ensures
            matches_outcome(
                old(self)@,
                final(self)@,
                r,
                commit(go(old(self)@.jump(old(self)@.pc + by))),
            ),
            old(self)@.wf() ==> final(self)@.wf(),
    {
        if self.pc + by >= MEMORY_SIZE {
            return Err(Fault::Bounds);
        }
        self.pc += by;
        Ok(Signal::Continue)
    }

    /// Moves the program counter on by one instruction, or by two where
    /// `cond` holds.
    fn skip_if(&mut self, cond: bool) -> (r: Result<Signal, Fault>)
        requires
            old(self).pc <= 4094,
        ensures
            matches_outcome(old(self)@, final(self)@, r, commit(go(old(self)@.skip(cond)))),
            old(self)@.wf() ==> final(self)@.wf(),
    {
        if cond {
            self.advance(4)
        } else {
            self.advance(2)
        }
    }

    /// Stores `value` in register `x` and moves on by one instruction.
    fn store(&mut self, x: usize, value: u8) -> (r: Result<Signal, Fault>)
        requires
            old(self).pc <= 4094,
            x < 16,
        ensures
            matches_outcome(
                old(self)@,
                final(self)@,
                r,
                commit(go(old(self)@.next().set_v(x as int, value as int))),
            ),
            old(self)@.wf() ==> final(self)@.wf(),
    {
        if self.pc + 2 >= MEMORY_SIZE {
            return Err(Fault::Bounds);
        }
        self.v[x] = value;
        self.pc += 2;
        Ok(Signal::Continue)
    }

    /// Sets the address register and moves on by one instruction.
    fn point(&mut self, index: u16) -> (r: Result<Signal, Fault>)
        requires
            old(self).pc <= 4094,
        ensures
            matches_outcome(
                old(self)@,
                final(self)@,
                r,
                commit(go(old(self)@.next().set_index(index as int))),
            ),
            old(self)@.wf() ==> final(self)@.wf(),
    {
        if self.pc + 2 >= MEMORY_SIZE {
            return Err(Fault::Bounds);
        }
        self.i = index;
        self.pc += 2;
        Ok(Signal::Continue)
    }

    /// `00E0` clears the display; `00EE` returns from a subroutine.
    fn op_0nnn(&mut self, opcode: u16) -> (r: Result<Signal, Fault>)
        requires
            old(self).pc <= 4094,
        ensures
            matches_outcome(old(self)@, final(self)@, r, commit(system_op(old(self)@, opcode))),
            old(self)@.wf() ==> final(self)@.wf(),
    {
        if opcode == 0x00E0 {
            if self.pc + 2 >= MEMORY_SIZE {
                return Err(Fault::Bounds);
            }
            self.pc += 2;
            Ok(Signal::ClearDisplay)
        } else if opcode == 0x00EE {
            if self.sp == 0 || self.sp > STACK_DEPTH {
                return Err(Fault::Bounds);
            }
            let target: usize = self.stack[self.sp - 1] as usize;
            if target >= MEMORY_SIZE {
                return Err(Fault::Bounds);
            }
            self.sp -= 1;
            self.pc = target;
            Ok(Signal::Continue)
        } else {
            Err(Fault::Decode)
        }
    }

    /// `1nnn`: jump to `nnn`.
    fn op_1nnn(&mut self, opcode: u16) -> (r: Result<Signal, Fault>)
        ensures
            matches_outcome(
                old(self)@,
                final(self)@,
                r,
                commit(go(old(self)@.jump(field_nnn(opcode)))),
            ),
            old(self)@.wf() ==> final(self)@.wf(),
    {
        let nnn = get_nnn(opcode);
        self.pc = nnn as usize;
        Ok(Signal::Continue)
    }

    /// `2nnn`: call the subroutine at `nnn`.
    fn op_2nnn(&mut self, opcode: u16) -> (r: Result<Signal, Fault>)
        requires
            old(self).pc <= 4094,
        ensures
            matches_outcome(old(self)@, final(self)@, r, commit(call_op(old(self)@, opcode))),
            old(self)@.wf() ==> final(self)@.wf(),
    {
        if self.sp >= STACK_DEPTH {
            return Err(Fault::Bounds);
        }
        let nnn = get_nnn(opcode);
        self.stack[self.sp] = (self.pc + 2) as u16;
        self.sp += 1;
        self.pc = nnn as usize;
        Ok(Signal::Continue)
    }

    /// `3xnn`: skip the next instruction if `V[x] == nn`.
    fn op_3xnn(&mut self, opcode: u16) -> (r: Result<Signal, Fault>)
        requires
            old(self).pc <= 4094,
        ensures
            matches_outcome(
                old(self)@,
                final(self)@,
                r,
                commit(go(old(self)@.skip(old(self)@.v(field_x(opcode)) == field_nn(opcode)))),
            ),
            old(self)@.wf() ==> final(self)@.wf(),
    {
        let x = get_x(opcode);
        let nn = get_nn(opcode);
        self.skip_if(self.v[x] == nn)
    }

    /// `4xnn`: skip the next instruction if `V[x] != nn`.
    fn op_4xnn(&mut self, opcode: u16) -> (r: Result<Signal, Fault>)
        requires
            old(self).pc <= 4094,
        ensures
            matches_outcome(
                old(self)@,
                final(self)@,
                r,
                commit(go(old(self)@.skip(old(self)@.v(field_x(opcode)) != field_nn(opcode)))),
            ),
            old(self)@.wf() ==> final(self)@.wf(),
    {
        let x = get_x(opcode);
        let nn = get_nn(opcode);
        self.skip_if(self.v[x] != nn)
    }

    /// `5xy0`: skip the next instruction if `V[x] == V[y]`.
    fn op_5xy0(&mut self, opcode: u16) -> (r: Result<Signal, Fault>)
        requires
            old(self).pc <= 4094,
        ensures
            matches_outcome(
                old(self)@,
                final(self)@,
                r,
                commit(compare_op(old(self)@, opcode, true)),
            ),
            old(self)@.wf() ==> final(self)@.wf(),
    {
        if get_n(opcode) != 0 {
            return Err(Fault::Decode);
        }
        let x = get_x(opcode);
        let y = get_y(opcode);
        self.skip_if(self.v[x] == self.v[y])
    }

    /// `6xnn`: `V[x] = nn`.
    fn op_6xnn(&mut self, opcode: u16) -> (r: Result<Signal, Fault>)
        requires
            old(self).pc <= 4094,
        ensures
            matches_outcome(
                old(self)@,
                final(self)@,
                r,
                commit(go(old(self)@.next().set_v(field_x(opcode), field_nn(opcode)))),
            ),
            old(self)@.wf() ==> final(self)@.wf(),
    {
        let x = get_x(opcode);
        let nn = get_nn(opcode);
        self.store(x, nn)
    }

    /// `7xnn`: `V[x] = V[x] + nn`, wrapping; the flag is not touched.
    fn op_7xnn(&mut self, opcode: u16) -> (r: Result<Signal, Fault>)
        requires
            old(self).pc <= 4094,
        ensures
            matches_outcome(
                old(self)@,
                final(self)@,
                r,
                commit(
                    go(
                        old(self)@.next().set_v(
                            field_x(opcode),
                            (old(self)@.v(field_x(opcode)) + field_nn(opcode)) % 256,
                        ),
                    ),
                ),
            ),
            old(self)@.wf() ==> final(self)@.wf(),
    {
        let x = get_x(opcode);
        let nn = get_nn(opcode);
        let sum: u16 = self.v[x] as u16 + nn as u16;
        self.store(x, (sum % 256) as u8)
    }

    /// `8xyN`: the arithmetic and logic group. Where the instruction sets
    /// the flag, the flag is written after the result.
    fn op_8xyn(&mut self, opcode: u16) -> (r: Result<Signal, Fault>)
        requires
            old(self).pc <= 4094,
        ensures
            matches_outcome(old(self)@, final(self)@, r, commit(alu_op(old(self)@, opcode))),
            old(self)@.wf() ==> final(self)@.wf(),
    {
        let x = get_x(opcode);
        let y = get_y(opcode);
        let n = get_n(opcode);
        let a: u8 = self.v[x];
        let b: u8 = self.v[y];
        let wide_a: u16 = a as u16;
        let wide_b: u16 = b as u16;
        let (value, flag): (u8, Option<bool>) = match n {
            0 => (b, None),
            1 => (a | b, None),
            2 => (a & b, None),
            3 => (a ^ b, None),
            4 => (((wide_a + wide_b) % 256) as u8, Some(wide_a + wide_b > 255)),
            5 => (((wide_a + 256 - wide_b) % 256) as u8, Some(a >= b)),
            6 => {
                assert(a >> 1 == a / 2 && ((a & 1 == 1) <==> (a % 2 == 1))) by (bit_vector);
                (a >> 1, Some(a & 1 == 1))
            },
            7 => (((wide_b + 256 - wide_a) % 256) as u8, Some(b >= a)),
            0xE => (((wide_a * 2) % 256) as u8, Some(a >= 128)),
            _ => {
                return Err(Fault::Decode);
            },
        };
        if self.pc + 2 >= MEMORY_SIZE {
            return Err(Fault::Bounds);
        }
        self.v[x] = value;
        match flag {
            Some(bit) => {
                self.v[FLAG] = if bit {
                    1
                } else {
                    0
                };
            },
            None => {},
        }
        self.pc += 2;
        Ok(Signal::Continue)
    }

    /// `9xy0`: skip the next instruction if `V[x] != V[y]`.
    fn op_9xy0(&mut self, opcode: u16) -> (r: Result<Signal, Fault>)
        requires
            old(self).pc <= 4094,
        ensures
            matches_outcome(
                old(self)@,
                final(self)@,
                r,
                commit(compare_op(old(self)@, opcode, false)),
            ),
            old(self)@.wf() ==> final(self)@.wf(),
    {
        if get_n(opcode) != 0 {
            return Err(Fault::Decode);
        }
        let x = get_x(opcode);
        let y = get_y(opcode);
        self.skip_if(self.v[x] != self.v[y])
    }

    /// `Annn`: `I = nnn`.
    fn op_annn(&mut self, opcode: u16) -> (r: Result<Signal, Fault>)
        requires
            old(self).pc <= 4094,
        ensures
            matches_outcome(
                old(self)@,
                final(self)@,
                r,
                commit(go(old(self)@.next().set_index(field_nnn(opcode)))),
            ),
            old(self)@.wf() ==> final(self)@.wf(),
    {
        let nnn = get_nnn(opcode);
        self.point(nnn)
    }

    /// `Bnnn`: jump to `nnn + V[0]`.
    fn op_bnnn(&mut self, opcode: u16) -> (r: Result<Signal, Fault>)
        ensures
            matches_outcome(
                old(self)@,
                final(self)@,
                r,
                commit(go(old(self)@.jump(field_nnn(opcode) + old(self)@.v(0)))),
            ),
            old(self)@.wf() ==> final(self)@.wf(),
    {
        let target: usize = get_nnn(opcode) as usize + self.v[0] as usize;
        if target >= MEMORY_SIZE {
            return Err(Fault::Bounds);
        }
        self.pc = target;
        Ok(Signal::Continue)
    }

    /// `Cxnn`: `V[x] = random & nn`.
    fn op_cxnn(&mut self, opcode: u16, random: u8) -> (r: Result<Signal, Fault>)
        requires
            old(self).pc <= 4094,
        ensures
            matches_outcome(
                old(self)@,
                final(self)@,
                r,
                commit(
                    go(
                        old(self)@.next().set_v(
                            field_x(opcode),
                            (random & (field_nn(opcode) as u8)) as int,
                        ),
                    ),
                ),
            ),
            old(self)@.wf() ==> final(self)@.wf(),
    {
        let x = get_x(opcode);
        let nn = get_nn(opcode);
        self.store(x, random & nn)
    }

    /// `Dxyn`: signal the display to draw the sprite at `I`.
    fn op_dxyn(&mut self, opcode: u16) -> (r: Result<Signal, Fault>)
        requires
            old(self).pc <= 4094,
        ensures
            matches_outcome(old(self)@, final(self)@, r, commit(draw_op(old(self)@, opcode))),
            old(self)@.wf() ==> final(self)@.wf(),
    {
        let x = get_x(opcode);
        let y = get_y(opcode);
        let n = get_n(opcode);
        if self.i as usize + n as usize > MEMORY_SIZE {
            return Err(Fault::Bounds);
        }
        if self.pc + 2 >= MEMORY_SIZE {
            return Err(Fault::Bounds);
        }
        self.pc += 2;
        Ok(Signal::Draw { x: self.v[x], y: self.v[y], address: self.i, rows: n })
    }

    /// `Ex9E` / `ExA1`: skip if the key named by `V[x]` is / is not down.
    fn op_exnn(&mut self, opcode: u16, keys: u16) -> (r: Result<Signal, Fault>)
        requires
            old(self).pc <= 4094,
        ensures
            matches_outcome(
                old(self)@,
                final(self)@,
                r,
                commit(key_op(old(self)@, opcode, Inputs { keys, random: 0 })),
            ),
            old(self)@.wf() ==> final(self)@.wf(),
    {
        let x = get_x(opcode);
        let nn = get_nn(opcode);
        let down = is_key_down(keys, self.v[x]);
        if nn == 0x9E {
            self.skip_if(down)
        } else if nn == 0xA1 {
            self.skip_if(!down)
        } else {
            Err(Fault::Decode)
        }
    }

    /// `Fx33`: the decimal digits of `V[x]` at `I`, `I + 1`, `I + 2`.
    fn store_digits(&mut self, x: usize) -> (r: Result<Signal, Fault>)
        requires
            old(self).pc <= 4094,
            x < 16,
        ensures
            matches_outcome(
                old(self)@,
                final(self)@,
                r,
                commit(
                    if old(self)@.index + 2 < 4096 {
                        go(
                            Machine {
                                memory: with_digits(
                                    old(self)@.memory,
                                    old(self)@.index as int,
                                    old(self)@.v(x as int),
                                ),
                                ..old(self)@.next()
                            },
                        )
                    } else {
                        Err(Fault::Bounds)
                    },
                ),
            ),
            old(self)@.wf() ==> final(self)@.wf(),
    {
        let at: usize = self.i as usize;
        if at + 2 >= MEMORY_SIZE || self.pc + 2 >= MEMORY_SIZE {
            return Err(Fault::Bounds);
        }
        let value: u8 = self.v[x];
        self.mem[at] = value / 100;
        self.mem[at + 1] = (value / 10) % 10;
        self.mem[at + 2] = value % 10;
        self.pc += 2;
        Ok(Signal::Continue)
    }

    /// `Fx55`: the registers `0..=x` to memory at `I`.
    fn dump_registers(&mut self, x: usize) -> (r: Result<Signal, Fault>)
        requires
            old(self).pc <= 4094,
            x < 16,
        ensures
            matches_outcome(
                old(self)@,
                final(self)@,
                r,
                commit(
                    if old(self)@.index + x < 4096 {
                        go(
                            Machine {
                                memory: with_dump(
                                    old(self)@.memory,
                                    old(self)@.registers,
                                    old(self)@.index as int,
                                    x as int,
                                ),
                                ..old(self)@.next()
                            },
                        )
                    } else {
                        Err(Fault::Bounds)
                    },
                ),
            ),
            old(self)@.wf() ==> final(self)@.wf(),
    {
        let at: usize = self.i as usize;
        if at + x >= MEMORY_SIZE || self.pc + 2 >= MEMORY_SIZE {
            return Err(Fault::Bounds);
        }
        let mut k: usize = 0;
        while k <= x
            invariant
                k <= x + 1,
                x < 16,
                at + x < 4096,
                at == old(self).i,
                self@ == (Machine { memory: self.mem@, ..old(self)@ }),
                forall|a: int| at <= a < at + k ==> self.mem@[a] == old(self).v@[a - at],
                forall|a: int|
                    0 <= a < 4096 && !(at <= a < at + k) ==> self.mem@[a] == old(self).mem@[a],
            decreases x + 1 - k,
        {
            self.mem[at + k] = self.v[k];
            k += 1;
        }
        self.pc += 2;
        assert(self.mem@ =~= with_dump(old(self)@.memory, old(self)@.registers, at as int, x as int));
        Ok(Signal::Continue)
    }

    /// `Fx65`: the registers `0..=x` from memory at `I`.
    fn load_registers(&mut self, x: usize) -> (r: Result<Signal, Fault>)
        requires
            old(self).pc <= 4094,
            x < 16,
        ensures
            matches_outcome(
                old(self)@,
                final(self)@,
                r,
                commit(
                    if old(self)@.index + x < 4096 {
                        go(
                            Machine {
                                registers: with_load(
                                    old(self)@.registers,
                                    old(self)@.memory,
                                    old(self)@.index as int,
                                    x as int,
                                ),
                                ..old(self)@.next()
                            },
                        )
                    } else {
                        Err(Fault::Bounds)
                    },
                ),
            ),
            old(self)@.wf() ==> final(self)@.wf(),
    {
        let at: usize = self.i as usize;
        if at + x >= MEMORY_SIZE || self.pc + 2 >= MEMORY_SIZE {
            return Err(Fault::Bounds);
        }
        let mut k: usize = 0;
        while k <= x
            invariant
                k <= x + 1,
                x < 16,
                at + x < 4096,
                at == old(self).i,
                self@ == (Machine { registers: self.v@, ..old(self)@ }),
                forall|j: int| 0 <= j < k ==> self.v@[j] == old(self).mem@[at + j],
                forall|j: int| k <= j < 16 ==> self.v@[j] == old(self).v@[j],
            decreases x + 1 - k,
        {
            self.v[k] = self.mem[at + k];
            k += 1;
        }
        self.pc += 2;
        assert(self.v@ =~= with_load(old(self)@.registers, old(self)@.memory, at as int, x as int));
        Ok(Signal::Continue)
    }

    /// `Fxnn`: timers, the address register, digits and register transfer.
    fn op_fxnn(&mut self, opcode: u16, inputs: Inputs) -> (r: Result<Signal, Fault>)
        requires
            old(self).pc <= 4094,
        ensures
            matches_outcome(
                old(self)@,
                final(self)@,
                r,
                commit(misc_op(old(self)@, opcode, inputs)),
            ),
            old(self)@.wf() ==> final(self)@.wf(),
    {
        let x = get_x(opcode);
        let nn = get_nn(opcode);
        match nn {
            0x07 => self.store(x, self.dt),
            0x0A => {
                if inputs.keys == 0 {
                    Ok(Signal::AwaitKey)
                } else {
                    self.store(x, lowest_key(inputs.keys))
                }
            },
            0x15 => {
                if self.pc + 2 >= MEMORY_SIZE {
                    return Err(Fault::Bounds);
                }
                self.dt = self.v[x];
                self.pc += 2;
                Ok(Signal::Continue)
            },
            0x18 => {
                if self.pc + 2 >= MEMORY_SIZE {
                    return Err(Fault::Bounds);
                }
                self.st = self.v[x];
                self.pc += 2;
                Ok(Signal::Continue)
            },
            0x1E => {
                let sum: u32 = self.i as u32 + self.v[x] as u32;
                self.point((sum % 65536) as u16)
            },
            0x29 => self.point(GLYPH_HEIGHT * (self.v[x] % 16) as u16),
            0x33 => self.store_digits(x),
            0x55 => self.dump_registers(x),
            0x65 => self.load_registers(x),
            _ => Err(Fault::Decode),
        }
    }
}

} // verus!
