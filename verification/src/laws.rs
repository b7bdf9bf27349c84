//! Laws of the machine, proved of the model in `state`.

use vstd::prelude::*;
use crate::instruction::Instruction;
use crate::state::{first_pressed, Sprite, State};

verus! {

/// Carrying out an instruction that does not fault keeps the machine well
/// formed. In particular the stack pointer stays between 0 and 16.
pub proof fn execute_preserves_wf(s: State, instr: Instruction)
    requires
        s.wf(),
        instr.wf(),
        s.fault(instr) is None,
    ensures
        s.execute(instr).wf(),
        0 <= s.execute(instr).sp <= 16,
{
}

/// A fetch that stays inside memory keeps the machine well formed.
pub proof fn fetch_preserves_wf(s: State)
    requires
        s.wf(),
        s.pc + 1 < 4096,
    ensures
        s.after_fetch().wf(),
{
}

/// A tick keeps the machine well formed, whatever time has passed, as long
/// as the instruction that it runs, if any, does not fault.
pub proof fn tick_preserves_wf(s: State, delta: nat)
    requires
        s.wf(),
        s.instruction_due(delta) ==> s.step_fault() is None,
    ensures
        s.tick(delta).wf(),
        0 <= s.tick(delta).sp <= 16,
{
    if s.instruction_due(delta) {
        let instr = Instruction::decode_spec(s.opcode_at_pc()).unwrap();
        Instruction::decoded_is_wf(s.opcode_at_pc());
        execute_preserves_wf(s.after_fetch(), instr);
    }
}

/// The instructions that write `I` from an operand leave a 12-bit value in
/// it: `LD I, nnn` the address itself, `ADD I, Vx` the sum reduced modulo
/// 4096, `LD F, Vx` a glyph address.
pub proof fn index_writes_fit_twelve_bits(s: State, instr: Instruction)
    requires
        s.wf(),
        instr.wf(),
        instr is LdI || instr is AddI || instr is LdF,
    ensures
        0 <= s.execute(instr).i < 0x1000,
        instr matches Instruction::LdI { nnn } ==> s.execute(instr).i == nnn,
        instr matches Instruction::AddI { x } ==> s.execute(instr).i == (s.i + s.v[x as int])
            % 0x1000,
{
}

/// `ADD I, Vx` that reaches or passes 0x1000 sets `VF` to 1 and keeps the
/// low 12 bits of the sum; one that does not sets `VF` to 0 and keeps the
/// sum.
pub proof fn add_index_overflow(s: State, x: u8)
    requires
        s.wf(),
        x < 16,
    ensures
        s.i + s.v[x as int] >= 0x1000 ==> s.execute(Instruction::AddI { x }).v[0xF] == 1
            && s.execute(Instruction::AddI { x }).i == s.i + s.v[x as int] - 0x1000,
        s.i + s.v[x as int] < 0x1000 ==> s.execute(Instruction::AddI { x }).v[0xF] == 0
            && s.execute(Instruction::AddI { x }).i == s.i + s.v[x as int],
{
}

/// However much time has passed, a tick runs no more than one instruction
/// and fires no more than one timer event: its result is the state with
/// nothing, one instruction, one timer event, or one instruction followed
/// by one timer event applied to it, apart from the time that is left on
/// the two delays.
pub proof fn tick_runs_at_most_one_of_each(s: State, delta: nat)
    requires
        s.wf(),
    ensures
        ({
            let cpu = if s.instruction_due(delta) {
                State { vram_changed: false, ..s.step() }
            } else {
                State { next_instruction_delay: s.tick(delta).next_instruction_delay, ..s }
            };
            s.tick(delta) == if s.timer_due(delta) {
                cpu.timer_event()
            } else {
                State { next_timer_tick_delay: s.tick(delta).next_timer_tick_delay, ..cpu }
            }
        }),
{
}

/// Time beyond what both delays ask for is dropped: every tick long enough
/// for the instruction and the timer event to be due has the same result.
pub proof fn tick_drops_missed_cycles(s: State, delta: nat, longer: nat)
    requires
        s.wf(),
        s.next_instruction_delay <= delta <= longer,
        s.next_timer_tick_delay <= delta,
    ensures
        s.tick(longer) == s.tick(delta),
        s.tick_reports_change(longer) == s.tick_reports_change(delta),
        s.tick_beeps(longer) == s.tick_beeps(delta),
{
}

/// `DRW` changes no pixel outside the window of eight columns and `n` rows
/// that starts at (`Vx` modulo 64, `Vy` modulo 32), and none outside the
/// display.
pub proof fn draw_stays_in_window(s: State, x: u8, y: u8, n: u8)
    requires
        s.wf(),
        x < 16,
        y < 16,
        n < 16,
        s.fault(Instruction::Drw { x, y, n }) is None,
    ensures
        s.execute(Instruction::Drw { x, y, n }).vram.len() == 2048,
        forall|k: int|
            0 <= k < 2048 && s.execute(Instruction::Drw { x, y, n }).vram[k] != s.vram[k] ==> {
                &&& s.v[x as int] % 64 <= k % 64 < s.v[x as int] % 64 + 8
                &&& s.v[y as int] % 32 <= k / 64 < s.v[y as int] % 32 + n
            },
{
    let sprite = s.sprite(x, y, n);
    assert forall|k: int|
        0 <= k < 2048 && s.execute(Instruction::Drw { x, y, n }).vram[k] != s.vram[k] implies {
        &&& s.v[x as int] % 64 <= k % 64 < s.v[x as int] % 64 + 8
        &&& s.v[y as int] % 32 <= k / 64 < s.v[y as int] % 32 + n
    } by {
        assert(sprite.lit_at(k));
    }
}

/// The flag of `ADD Vx, Vy`, `SUB Vx, Vy`, `SUBN Vx, Vy` and `ADD I, Vx` is
/// written after the result: `VF` ends up holding the carry, the absence of
/// a borrow or the overflow of the operands as they were before the
/// instruction, also where `x` is 15.
pub proof fn flag_is_written_last(s: State, instr: Instruction)
    requires
        s.wf(),
        instr.wf(),
        instr is AddReg || instr is Sub || instr is Subn || instr is AddI,
    ensures
        instr matches Instruction::AddI { x } ==> s.execute(instr).v[0xF] == (if s.i + s.v[x as int]
            >= 0x1000 {
            1u8
        } else {
            0u8
        }),
        instr matches Instruction::AddReg { x, y } ==> s.execute(instr).v[0xF] == (if s.v[x as int]
            + s.v[y as int] > 255 {
            1u8
        } else {
            0u8
        }),
        instr matches Instruction::Sub { x, y } ==> s.execute(instr).v[0xF] == (if s.v[x as int]
            >= s.v[y as int] {
            1u8
        } else {
            0u8
        }),
        instr matches Instruction::Subn { x, y } ==> s.execute(instr).v[0xF] == (if s.v[y as int]
            >= s.v[x as int] {
            1u8
        } else {
            0u8
        }),
{
}

/// Memory mirrors the registers: after `LD [I], Vx` has stored `V0..=Vx`,
/// setting `I` back to where it was and running `LD Vx, [I]` restores
/// them, whatever happened to the registers, and to everything but memory,
/// in between. Both instructions advance `I` by `x + 1`.
pub proof fn store_then_load_restores_registers(s: State, t: State, x: u8)
    requires
        s.wf(),
        t.wf(),
        x < 16,
        s.fault(Instruction::StoreRegs { x }) is None,
        t.ram == s.execute(Instruction::StoreRegs { x }).ram,
    ensures
        s.execute(Instruction::StoreRegs { x }).i == s.i + x + 1,
        ({
            let reset = t.execute(Instruction::LdI { nnn: s.i as u16 });
            let loaded = reset.execute(Instruction::LoadRegs { x });
            &&& reset.fault(Instruction::LoadRegs { x }) is None
            &&& loaded.i == s.i + x + 1
            &&& forall|k: int| 0 <= k <= x ==> loaded.v[k] == s.v[k]
            &&& forall|k: int| x < k < 16 ==> loaded.v[k] == t.v[k]
        }),
{
}

/// The three digits that `LD B, Vx` stores at `I`, `I + 1` and `I + 2` are
/// decimal digits, and read back as hundreds, tens and ones they give `Vx`.
pub proof fn bcd_round_trip(s: State, x: u8)
    requires
        s.wf(),
        x < 16,
        s.fault(Instruction::LdB { x }) is None,
    ensures
        ({
            let after = s.execute(Instruction::LdB { x });
            &&& after.ram[s.i] < 10
            &&& after.ram[s.i + 1] < 10
            &&& after.ram[s.i + 2] < 10
            &&& 100 * after.ram[s.i] + 10 * after.ram[s.i + 1] + after.ram[s.i + 2] == s.v[x as int]
        }),
{
}

/// Drawing a sprite twice at the same position gives back the framebuffer
/// as it was. The second drawing collides exactly if the sprite has a set
/// pixel on the display that was off before the first drawing.
pub proof fn blend_twice_restores(sprite: Sprite, vram: Seq<bool>)
    requires
        vram.len() == 2048,
    ensures
        sprite.blend(sprite.blend(vram)) == vram,
        sprite.collides(sprite.blend(vram)) <==> exists|k: int|
            0 <= k < 2048 && !vram[k] && #[trigger] sprite.lit_at(k),
{
    let once = sprite.blend(vram);
    assert(sprite.blend(once) =~= vram);
    if sprite.collides(once) {
        let k = choose|k: int| 0 <= k < 2048 && once[k] && #[trigger] sprite.lit_at(k);
        assert(!vram[k] && sprite.lit_at(k));
    }
    if exists|k: int| 0 <= k < 2048 && !vram[k] && #[trigger] sprite.lit_at(k) {
        let k = choose|k: int| 0 <= k < 2048 && !vram[k] && #[trigger] sprite.lit_at(k);
        assert(once[k] && sprite.lit_at(k));
    }
}

/// `DRW Vx, Vy, n` carried out twice in a row at the same position gives
/// back the framebuffer as it was, and leaves 1 in `VF` exactly if the
/// sprite has a set pixel on the display that was off before the first of
/// the two. The position is the same whenever neither coordinate is taken
/// from `VF`, which the first drawing overwrites.
pub proof fn draw_twice_restores(s: State, x: u8, y: u8, n: u8)
    requires
        s.wf(),
        x < 16,
        y < 16,
        n < 16,
        s.fault(Instruction::Drw { x, y, n }) is None,
        s.execute(Instruction::Drw { x, y, n }).v[x as int] == s.v[x as int],
        s.execute(Instruction::Drw { x, y, n }).v[y as int] == s.v[y as int],
    ensures
        ({
            let instr = Instruction::Drw { x, y, n };
            let twice = s.execute(instr).execute(instr);
            &&& s.execute(instr).fault(instr) is None
            &&& twice.vram == s.vram
            &&& twice.v[0xF] == 1 <==> exists|k: int|
                0 <= k < 2048 && !s.vram[k] && #[trigger] s.sprite(x, y, n).lit_at(k)
            &&& twice.v[0xF] == 0 || twice.v[0xF] == 1
        }),
{
    let instr = Instruction::Drw { x, y, n };
    let once = s.execute(instr);
    assert(once.sprite(x, y, n) == s.sprite(x, y, n));
    blend_twice_restores(s.sprite(x, y, n), s.vram);
}

/// Neither coordinate of `DRW Vx, Vy, n` is taken from `VF` where `x` and
/// `y` are below 15: the drawing then leaves both where they were.
pub proof fn draw_keeps_position_registers(s: State, x: u8, y: u8, n: u8)
    requires
        s.wf(),
        x < 15,
        y < 15,
    ensures
        s.execute(Instruction::Drw { x, y, n }).v[x as int] == s.v[x as int],
        s.execute(Instruction::Drw { x, y, n }).v[y as int] == s.v[y as int],
{
}

/// The value that `first_pressed` finds from 0 on: a pressed key with no
/// pressed key below it, or 16 where no key is pressed.
pub proof fn first_pressed_is_lowest(keys: Seq<bool>, from: int)
    requires
        keys.len() == 16,
        0 <= from <= 16,
    ensures
        from <= first_pressed(keys, from) <= 16,
        first_pressed(keys, from) < 16 ==> keys[first_pressed(keys, from)],
        forall|k: int| from <= k < first_pressed(keys, from) ==> !keys[k],
    decreases 16 - from,
{
    if from < 16 && !keys[from] {
        first_pressed_is_lowest(keys, from + 1);
    }
}

/// `LD Vx, K` waits: fetched and carried out with no key pressed, it
/// leaves the program counter where it was before the fetch, asks for no
/// delay, and changes nothing else, so the next tick runs it again. With
/// a key pressed it moves on and `Vx` holds the lowest pressed key.
pub proof fn wait_key_holds_pc(s: State, x: u8)
    requires
        s.wf(),
        x < 16,
        s.pc + 1 < 4096,
    ensures
        ({
            let after = s.after_fetch().execute(Instruction::LdVxK { x });
            let none_pressed = forall|k: int| 0 <= k < 16 ==> !s.keys[k];
            &&& s.after_fetch().fault(Instruction::LdVxK { x }) is None
            &&& none_pressed ==> after == (State { next_instruction_delay: 0, ..s })
            &&& !none_pressed ==> {
                &&& after.pc == s.pc + 2
                &&& after.v[x as int] < 16
                &&& s.keys[after.v[x as int] as int]
                &&& forall|k: int| 0 <= k < after.v[x as int] ==> !s.keys[k]
            }
        }),
{
    first_pressed_is_lowest(s.keys, 0);
}

/// While no key is pressed, a tick that finds `LD Vx, K` due at the program
/// counter leaves the program counter, the registers and memory as they
/// were, and the instruction due again at the next tick, however short.
pub proof fn waiting_tick_holds_pc(s: State, x: u8, delta: nat)
    requires
        s.wf(),
        s.pc + 1 < 4096,
        Instruction::decode_spec(s.opcode_at_pc()) == Some(Instruction::LdVxK { x }),
        forall|k: int| 0 <= k < 16 ==> !s.keys[k],
        s.instruction_due(delta),
    ensures
        s.step_fault() is None,
        s.tick(delta).pc == s.pc,
        s.tick(delta).v == s.v,
        s.tick(delta).ram == s.ram,
        forall|next: nat| s.tick(delta).instruction_due(next),
{
    Instruction::decoded_is_wf(s.opcode_at_pc());
    wait_key_holds_pc(s, x);
}

} // verus!
