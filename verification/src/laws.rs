//! Laws of the instruction set, proved from the semantics that the
//! interpreter's contracts are stated in. A step is `execute` at the fetched
//! word, so each law about `execute` holds of every step.

use vstd::prelude::*;
use crate::decode::{family, field_n, field_nn, field_nnn, field_x, field_y};
use crate::machine::{loaded, Fault, Inputs, Machine, Signal};
use crate::semantics::{alu_op, apply, execute, go, key_down, lowest_key_from, step};

verus! {

/// The flag that an arithmetic instruction with sub-opcode `n` leaves
/// behind for the operands `a = V[x]` and `b = V[y]`.
pub open spec fn alu_flag(n: int, a: int, b: int) -> bool {
    if n == 4 {
        a + b > 255
    } else if n == 5 {
        a >= b
    } else if n == 6 {
        a % 2 == 1
    } else if n == 7 {
        b >= a
    } else {
        a >= 128
    }
}

/// Executing an instruction keeps the state well-formed: the program counter
/// stays inside memory and the stack pointer between 0 and 16.
pub proof fn execute_keeps_well_formed(s: Machine, op: u16, inputs: Inputs)
    requires
        s.wf(),
    ensures
        execute(s, op, inputs) matches Ok((m, _)) ==> m.wf(),
{
}

/// A step keeps the state well-formed, whatever the instruction.
pub proof fn step_keeps_well_formed(s: Machine, inputs: Inputs)
    requires
        s.wf(),
    ensures
        step(s, inputs) matches Ok((m, _)) ==> m.wf(),
{
}

/// With the program counter past the last place where a whole instruction
/// fits, a step is a bounds fault.
pub proof fn fetch_past_end_faults(s: Machine, inputs: Inputs)
    requires
        s.pc > 4094,
    ensures
        step(s, inputs) == Err::<(Machine, Signal), Fault>(Fault::Bounds),
{
}

/// `6xnn` then reading `V[x]` gives `nn`, for every `x`; nothing else but
/// the program counter changes.
pub proof fn load_immediate_reads_back(s: Machine, op: u16, inputs: Inputs)
    requires
        s.wf(),
        family(op) == 6,
        s.pc + 2 < 4096,
    ensures
        execute(s, op, inputs) matches Ok((m, signal)) && signal == Signal::Continue && m.v(
            field_x(op),
        ) == field_nn(op) && m.pc == s.pc + 2 && (forall|k: int|
            0 <= k < 16 && k != field_x(op) ==> m.registers[k] == s.registers[k]),
{
}

/// `7xnn` adds modulo 256 and leaves every other register, the flag
/// among them, as it was.
pub proof fn add_immediate_wraps(s: Machine, op: u16, inputs: Inputs)
    requires
        s.wf(),
        family(op) == 7,
        s.pc + 2 < 4096,
    ensures
        execute(s, op, inputs) matches Ok((m, _)) && m.v(field_x(op)) == (s.v(field_x(op))
            + field_nn(op)) % 256 && (forall|k: int|
            0 <= k < 16 && k != field_x(op) ==> m.registers[k] == s.registers[k]),
{
}

/// A call succeeds exactly when fewer than sixteen calls are open; at
/// sixteen it is a bounds fault.
pub proof fn call_depth(s: Machine, op: u16, inputs: Inputs)
    requires
        s.wf(),
        family(op) == 2,
        s.pc + 2 <= 4096,
    ensures
        s.sp < 16 ==> (execute(s, op, inputs) matches Ok((m, _)) && m.sp == s.sp + 1 && m.pc
            == field_nnn(op)),
        s.sp == 16 ==> execute(s, op, inputs) == Err::<(Machine, Signal), Fault>(Fault::Bounds),
{
}

/// A call pushes the address of the instruction after it and jumps.
pub proof fn call_pushes(s: Machine, op: u16, inputs: Inputs)
    requires
        s.wf(),
        family(op) == 2,
        s.sp < 16,
        s.pc + 2 <= 4096,
    ensures
        execute(s, op, inputs) == go(
            Machine {
                stack: s.stack.update(s.sp, (s.pc + 2) as u16),
                sp: s.sp + 1,
                pc: field_nnn(op),
                ..s
            },
        ),
{
}

/// A return pops the newest return address and continues there; with no
/// call open, or with an address outside memory, it is a bounds fault.
pub proof fn return_pops(s: Machine, inputs: Inputs)
    requires
        s.wf(),
        s.pc + 2 <= 4096,
    ensures
        execute(s, 0x00EE, inputs) == if s.sp > 0 && s.stack[s.sp - 1] < 4096 {
            go(Machine { sp: s.sp - 1, pc: s.stack[s.sp - 1] as int, ..s })
        } else {
            Err(Fault::Bounds)
        },
{
    assert(family(0x00EEu16) == 0);
}

/// A call followed at once by a return continues at the instruction after
/// the call, with the stack pointer, the registers and memory as before the
/// call. Both the instruction after the call and the return instruction at
/// the call's target have to lie inside memory.
pub proof fn call_then_return(s: Machine, op: u16, inputs: Inputs, later: Inputs)
    requires
        s.wf(),
        family(op) == 2,
        s.sp < 16,
        s.pc + 2 < 4096,
        field_nnn(op) + 2 <= 4096,
    ensures
        execute(s, op, inputs) matches Ok((m, _)) && (execute(m, 0x00EE, later) matches Ok(
            (t, _),
        ) && t.pc == s.pc + 2 && t.sp == s.sp && t.registers == s.registers && t.memory
            == s.memory && t.index == s.index),
{
    let m = Machine {
        stack: s.stack.update(s.sp, (s.pc + 2) as u16),
        sp: s.sp + 1,
        pc: field_nnn(op),
        ..s
    };
    call_pushes(s, op, inputs);
    return_pops(m, later);
}

/// Whether the skip instruction `op` skips in state `s`.
pub open spec fn skips(s: Machine, op: u16) -> bool {
    let f = family(op);
    let vx = s.v(field_x(op));
    if f == 3 {
        vx == field_nn(op)
    } else if f == 4 {
        vx != field_nn(op)
    } else if f == 5 {
        vx == s.v(field_y(op))
    } else {
        vx != s.v(field_y(op))
    }
}

/// The skip instructions `3xnn`, `4xnn`, `5xy0` and `9xy0` move the program
/// counter by 4 where their condition holds and by 2 where it does not, and
/// change nothing else.
pub proof fn skip_advances(s: Machine, op: u16, inputs: Inputs)
    requires
        s.wf(),
        family(op) == 3 || family(op) == 4 || ((family(op) == 5 || family(op) == 9) && field_n(op)
            == 0),
        skips(s, op) ==> s.pc + 4 < 4096,
        !skips(s, op) ==> s.pc + 2 < 4096,
    ensures
        execute(s, op, inputs) == go(
            s.jump(
                if skips(s, op) {
                    s.pc + 4
                } else {
                    s.pc + 2
                },
            ),
        ),
{
}

/// The arithmetic instructions that set the flag (`8xy4`, `8xy5`, `8xy6`,
/// `8xy7`, `8xyE`) leave their flag in `VF` whichever registers `x` and `y`
/// name, `VF` itself included.
pub proof fn flag_write_wins(s: Machine, op: u16, inputs: Inputs)
    requires
        s.wf(),
        family(op) == 8,
        field_n(op) == 4 || field_n(op) == 5 || field_n(op) == 6 || field_n(op) == 7 || field_n(
            op,
        ) == 0xE,
        s.pc + 2 < 4096,
    ensures
        execute(s, op, inputs) matches Ok((m, _)) && m.v(15) == (if alu_flag(
            field_n(op),
            s.v(field_x(op)),
            s.v(field_y(op)),
        ) {
            1int
        } else {
            0int
        }),
{
}

/// Loading keeps the length of memory, puts the leading bytes of the
/// program at the origin as far as memory reaches, and leaves what lies
/// below the origin alone.
pub proof fn load_keeps_prefix(memory: Seq<u8>, data: Seq<u8>)
    requires
        memory.len() == 4096,
    ensures
        loaded(memory, data).len() == 4096,
        forall|k: int|
            0 <= k < data.len() && k < 4096 - 0x200 ==> loaded(memory, data)[0x200 + k] == data[k],
        forall|a: int| 0 <= a < 0x200 ==> loaded(memory, data)[a] == memory[a],
{
}


/// The value that an arithmetic instruction with sub-opcode `n` computes
/// from the operands `a = V[x]` and `b = V[y]`.
pub open spec fn alu_value(n: int, a: int, b: int) -> int {
    if n == 4 {
        (a + b) % 256
    } else if n == 5 {
        if a >= b {
            a - b
        } else {
            a - b + 256
        }
    } else if n == 6 {
        a / 2
    } else if n == 7 {
        if b >= a {
            b - a
        } else {
            b - a + 256
        }
    } else {
        (a * 2) % 256
    }
}

/// The arithmetic instructions that set the flag leave their wrapped result
/// in `V[x]`, unless `x` names the flag register, and touch no register but
/// `V[x]` and `VF`.
pub proof fn arithmetic_result(s: Machine, op: u16, inputs: Inputs)
    requires
        s.wf(),
        family(op) == 8,
        field_n(op) == 4 || field_n(op) == 5 || field_n(op) == 6 || field_n(op) == 7 || field_n(
            op,
        ) == 0xE,
        s.pc + 2 < 4096,
    ensures
        execute(s, op, inputs) matches Ok((m, _)) && (field_x(op) != 15 ==> m.v(field_x(op))
            == alu_value(field_n(op), s.v(field_x(op)), s.v(field_y(op)))) && (forall|k: int|
            0 <= k < 15 && k != field_x(op) ==> m.registers[k] == s.registers[k]),
{
    let a = s.v(field_x(op));
    let b = s.v(field_y(op));
    assert((a - b + 256) % 256 == alu_value(5, a, b));
    assert((b - a + 256) % 256 == alu_value(7, a, b));
    assert(apply(s, op, inputs) == alu_op(s, op));
}

/// Copy and the bitwise instructions (`8xy0` to `8xy3`) change `V[x]` and
/// nothing else: the flag stays as it was unless `x` names it.
pub proof fn logic_leaves_flag(s: Machine, op: u16, inputs: Inputs)
    requires
        s.wf(),
        family(op) == 8,
        0 <= field_n(op) <= 3,
        s.pc + 2 < 4096,
    ensures
        execute(s, op, inputs) matches Ok((m, _)) && (forall|k: int|
            0 <= k < 16 && k != field_x(op) ==> m.registers[k] == s.registers[k]),
{
}

/// While any key is down, the lowest key from 0 is one that is down, and no
/// key below it is.
pub proof fn lowest_key_is_lowest(keys: u16)
    requires
        keys != 0,
    ensures
        key_down(keys, lowest_key_from(keys, 0)),
        forall|j: int| 0 <= j < lowest_key_from(keys, 0) ==> !key_down(keys, j),
{
    lowest_key_scan(keys, 0);
    let r = lowest_key_from(keys, 0);
    if r == 15 {
        assert(!key_down(keys, 0) && !key_down(keys, 1) && !key_down(keys, 2) && !key_down(keys, 3)
            && !key_down(keys, 4) && !key_down(keys, 5) && !key_down(keys, 6) && !key_down(
            keys,
            7,
        ) && !key_down(keys, 8) && !key_down(keys, 9) && !key_down(keys, 10) && !key_down(keys, 11)
            && !key_down(keys, 12) && !key_down(keys, 13) && !key_down(keys, 14));
        assert((keys >> 15) & 1 == 1) by (bit_vector)
            requires
                keys != 0,
                (keys >> 0) & 1 != 1,
                (keys >> 1) & 1 != 1,
                (keys >> 2) & 1 != 1,
                (keys >> 3) & 1 != 1,
                (keys >> 4) & 1 != 1,
                (keys >> 5) & 1 != 1,
                (keys >> 6) & 1 != 1,
                (keys >> 7) & 1 != 1,
                (keys >> 8) & 1 != 1,
                (keys >> 9) & 1 != 1,
                (keys >> 10) & 1 != 1,
                (keys >> 11) & 1 != 1,
                (keys >> 12) & 1 != 1,
                (keys >> 13) & 1 != 1,
                (keys >> 14) & 1 != 1,
        ;
    }
}

/// The scan from `k` stops at the first key that is down, or at 15.
proof fn lowest_key_scan(keys: u16, k: int)
    requires
        0 <= k <= 15,
    ensures
        k <= lowest_key_from(keys, k) <= 15,
        lowest_key_from(keys, k) < 15 ==> key_down(keys, lowest_key_from(keys, k)),
        forall|j: int| k <= j < lowest_key_from(keys, k) ==> !key_down(keys, j),
    decreases 15 - k,
{
    if k < 15 && !key_down(keys, k) {
        lowest_key_scan(keys, k + 1);
    }
}

} // verus!
