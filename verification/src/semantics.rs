//! What one instruction does to the machine: a function from the state, the
//! instruction word and the inputs to the next state and a signal, or a fault.

use vstd::prelude::*;
use crate::decode::{family, field_n, field_nn, field_nnn, field_x, field_y, word};
use crate::machine::{Fault, Inputs, Machine, Signal};

verus! {

/// The outcome of an instruction: the next state and the signal for the
/// driver, or the fault.
pub type Outcome = Result<(Machine, Signal), Fault>;

/// The outcome "go on in state `m`".
pub open spec fn go(m: Machine) -> Outcome {
    Ok((m, Signal::Continue))
}

/// Whether key `k` is held down in the key mask `keys`.
pub open spec fn key_down(keys: u16, k: int) -> bool {
    0 <= k < 16 && (keys >> (k as u16)) & 1 == 1
}

/// The lowest key at or above `k` that is held down; 15 if there is none.
pub open spec fn lowest_key_from(keys: u16, k: int) -> int
    decreases 15 - k,
{
    if k >= 15 {
        15
    } else if key_down(keys, k) {
        k
    } else {
        lowest_key_from(keys, k + 1)
    }
}

/// `00E0` and `00EE`: clear the display; return from a subroutine.
pub open spec fn system_op(s: Machine, op: u16) -> Outcome {
    if op == 0x00E0 {
        Ok((s.next(), Signal::ClearDisplay))
    } else if op == 0x00EE {
        if 0 < s.sp <= 16 {
            go(Machine { sp: s.sp - 1, pc: s.stack[s.sp - 1] as int, ..s })
        } else {
            Err(Fault::Bounds)
        }
    } else {
        Err(Fault::Decode)
    }
}

/// `2nnn`: push the address of the following instruction and jump.
pub open spec fn call_op(s: Machine, op: u16) -> Outcome {
    if 0 <= s.sp < 16 {
        go(
            Machine {
                stack: s.stack.update(s.sp, (s.pc + 2) as u16),
                sp: s.sp + 1,
                pc: field_nnn(op),
                ..s
            },
        )
    } else {
        Err(Fault::Bounds)
    }
}

/// `5xy0` and `9xy0`: skip on equal (`on_equal`) or unequal registers.
pub open spec fn compare_op(s: Machine, op: u16, on_equal: bool) -> Outcome {
    if field_n(op) == 0 {
        go(s.skip((s.v(field_x(op)) == s.v(field_y(op))) == on_equal))
    } else {
        Err(Fault::Decode)
    }
}

/// `8xyN`: the arithmetic and logic group. The flag is written last.
pub open spec fn alu_op(s: Machine, op: u16) -> Outcome {
    let x = field_x(op);
    let n = field_n(op);
    let vx = s.registers[x];
    let vy = s.registers[field_y(op)];
    let a = vx as int;
    let b = vy as int;
    let m = s.next();
    if n == 0 {
        go(m.set_v(x, b))
    } else if n == 1 {
        go(m.set_v(x, (vx | vy) as int))
    } else if n == 2 {
        go(m.set_v(x, (vx & vy) as int))
    } else if n == 3 {
        go(m.set_v(x, (vx ^ vy) as int))
    } else if n == 4 {
        go(m.set_v(x, (a + b) % 256).set_flag(a + b > 255))
    } else if n == 5 {
        go(m.set_v(x, (a - b + 256) % 256).set_flag(a >= b))
    } else if n == 6 {
        go(m.set_v(x, a / 2).set_flag(a % 2 == 1))
    } else if n == 7 {
        go(m.set_v(x, (b - a + 256) % 256).set_flag(b >= a))
    } else if n == 0xE {
        go(m.set_v(x, (a * 2) % 256).set_flag(a >= 128))
    } else {
        Err(Fault::Decode)
    }
}

/// `Dxyn`: hand the sprite at the address register to the display.
pub open spec fn draw_op(s: Machine, op: u16) -> Outcome {
    if s.index + field_n(op) <= 4096 {
        Ok(
            (
                s.next(),
                Signal::Draw {
                    x: s.registers[field_x(op)],
                    y: s.registers[field_y(op)],
                    address: s.index,
                    rows: field_n(op) as u8,
                },
            ),
        )
    } else {
        Err(Fault::Bounds)
    }
}

/// `Ex9E` and `ExA1`: skip if the key named by `V[x]` is, or is not, down.
pub open spec fn key_op(s: Machine, op: u16, inputs: Inputs) -> Outcome {
    let down = key_down(inputs.keys, s.v(field_x(op)));
    if field_nn(op) == 0x9E {
        go(s.skip(down))
    } else if field_nn(op) == 0xA1 {
        go(s.skip(!down))
    } else {
        Err(Fault::Decode)
    }
}

/// Memory with the three decimal digits of `value` at `at`, `at + 1` and
/// `at + 2`: hundreds, tens, units.
pub open spec fn with_digits(memory: Seq<u8>, at: int, value: int) -> Seq<u8> {
    memory.update(at, (value / 100) as u8).update(at + 1, ((value / 10) % 10) as u8).update(
        at + 2,
        (value % 10) as u8,
    )
}

/// Memory with the registers `0..=x` at `at..=at + x`.
pub open spec fn with_dump(memory: Seq<u8>, registers: Seq<u8>, at: int, x: int) -> Seq<u8> {
    Seq::new(
        memory.len(),
        |a: int|
            if at <= a <= at + x {
                registers[a - at]
            } else {
                memory[a]
            },
    )
}

/// The registers with `0..=x` read from memory at `at..=at + x`.
pub open spec fn with_load(registers: Seq<u8>, memory: Seq<u8>, at: int, x: int) -> Seq<u8> {
    Seq::new(
        registers.len(),
        |k: int|
            if k <= x {
                memory[at + k]
            } else {
                registers[k]
            },
    )
}

/// `Fxnn`: timers, the address register, digits and register transfer.
pub open spec fn misc_op(s: Machine, op: u16, inputs: Inputs) -> Outcome {
    let x = field_x(op);
    let nn = field_nn(op);
    let i = s.index as int;
    let m = s.next();
    if nn == 0x07 {
        go(m.set_v(x, s.delay_timer as int))
    } else if nn == 0x0A {
        if inputs.keys == 0 {
            Ok((s, Signal::AwaitKey))
        } else {
            go(m.set_v(x, lowest_key_from(inputs.keys, 0)))
        }
    } else if nn == 0x15 {
        go(Machine { delay_timer: s.registers[x], ..m })
    } else if nn == 0x18 {
        go(Machine { sound_timer: s.registers[x], ..m })
    } else if nn == 0x1E {
        go(m.set_index((i + s.v(x)) % 65536))
    } else if nn == 0x29 {
        go(m.set_index(5 * (s.v(x) % 16)))
    } else if nn == 0x33 {
        if i + 2 < 4096 {
            go(Machine { memory: with_digits(s.memory, i, s.v(x)), ..m })
        } else {
            Err(Fault::Bounds)
        }
    } else if nn == 0x55 {
        if i + x < 4096 {
            go(Machine { memory: with_dump(s.memory, s.registers, i, x), ..m })
        } else {
            Err(Fault::Bounds)
        }
    } else if nn == 0x65 {
        if i + x < 4096 {
            go(Machine { registers: with_load(s.registers, s.memory, i, x), ..m })
        } else {
            Err(Fault::Bounds)
        }
    } else {
        Err(Fault::Decode)
    }
}

/// The effect of the instruction `op`, before the new program counter is
/// held to the address space.
pub open spec fn apply(s: Machine, op: u16, inputs: Inputs) -> Outcome {
    let f = family(op);
    let x = field_x(op);
    let nn = field_nn(op);
    let nnn = field_nnn(op);
    if f == 0x0 {
        system_op(s, op)
    } else if f == 0x1 {
        go(s.jump(nnn))
    } else if f == 0x2 {
        call_op(s, op)
    } else if f == 0x3 {
        go(s.skip(s.v(x) == nn))
    } else if f == 0x4 {
        go(s.skip(s.v(x) != nn))
    } else if f == 0x5 {
        compare_op(s, op, true)
    } else if f == 0x6 {
        go(s.next().set_v(x, nn))
    } else if f == 0x7 {
        go(s.next().set_v(x, (s.v(x) + nn) % 256))
    } else if f == 0x8 {
        alu_op(s, op)
    } else if f == 0x9 {
        compare_op(s, op, false)
    } else if f == 0xA {
        go(s.next().set_index(nnn))
    } else if f == 0xB {
        go(s.jump(nnn + s.v(0)))
    } else if f == 0xC {
        go(s.next().set_v(x, (inputs.random & (nn as u8)) as int))
    } else if f == 0xD {
        draw_op(s, op)
    } else if f == 0xE {
        key_op(s, op, inputs)
    } else {
        misc_op(s, op, inputs)
    }
}

/// An outcome is committed only if the program counter stays inside the
/// address space; otherwise the instruction faults.
pub open spec fn commit(o: Outcome) -> Outcome {
    match o {
        Ok((m, signal)) => if 0 <= m.pc < 4096 {
            o
        } else {
            Err(Fault::Bounds)
        },
        Err(f) => o,
    }
}

/// Executing the instruction `op` in state `s`: a fault if no whole
/// instruction fits at the program counter, else the committed effect.
pub open spec fn execute(s: Machine, op: u16, inputs: Inputs) -> Outcome {
    if 0 <= s.pc && s.pc + 2 <= 4096 {
        commit(apply(s, op, inputs))
    } else {
        Err(Fault::Bounds)
    }
}

/// The instruction word at the program counter of `s`.
pub open spec fn fetch(s: Machine) -> u16 {
    word(s.memory[s.pc], s.memory[s.pc + 1])
}

/// One step: fetch the instruction at the program counter and execute it.
pub open spec fn step(s: Machine, inputs: Inputs) -> Outcome {
    execute(s, fetch(s), inputs)
}

/// An executable result and final state `after` match the outcome `want`
/// from the state `before`: on a fault nothing has changed.
pub open spec fn matches_outcome(
    before: Machine,
    after: Machine,
    result: Result<Signal, Fault>,
    want: Outcome,
) -> bool {
    match want {
        Ok((m, signal)) => result == Ok::<Signal, Fault>(signal) && after == m,
        Err(f) => result == Err::<Signal, Fault>(f) && after == before,
    }
}

} // verus!
