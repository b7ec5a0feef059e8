//! The machine as a whole: one instruction with the PPU and timer advanced by
//! the cycles it took, and a frame's worth of such steps.
use vstd::prelude::*;
use crate::cpu::{Cpu, Machine, mach, step_spec};
use crate::gpu::{gpu_step, GpuModel};
use crate::joypad::Joypad;
use crate::memory::{Bus, BusModel, timer_step, INT_JOYPAD, INT_STAT, INT_VBLANK};

verus! {

/// T-cycles of one frame (154 lines of 456).
pub const CYCLES_PER_FRAME: u32 = 70224;

/// One system step: the CPU step, then the PPU for the T-cycles it took, then
/// the timer; a STAT request sets IF bit 1, VBlank entry IF bit 0, and a
/// latched key press IF bit 4 (the latch is then cleared). Gives the new
/// state, the T-cycles and whether a frame is ready.
#[verifier::opaque]
pub open spec fn system_step(s: Machine) -> (Machine, u32, bool) {
    let (s1, m) = step_spec(s);
    let t = (m * 4) as u32;
    let (g, ready) = gpu_step(s1.bus.gpu, t);
    let b1 = timer_step(BusModel { gpu: g, ..s1.bus }, m);
    let b2 = if g.stat_irq { BusModel { iflag: b1.iflag | INT_STAT, ..b1 } } else { b1 };
    let b3 = if ready { BusModel { iflag: b2.iflag | INT_VBLANK, ..b2 } } else { b2 };
    let b4 = if b3.joypad.interrupt_request {
        BusModel {
            iflag: b3.iflag | INT_JOYPAD,
            joypad: Joypad { interrupt_request: false, ..b3.joypad },
            ..b3
        }
    } else {
        b3
    };
    (Machine { cpu: s1.cpu, bus: b4 }, t, ready)
}

/// System steps until `remaining` T-cycles are used up or a frame is ready:
/// the final state and, where a frame became ready, its frame buffer.
pub open spec fn frame_run(s: Machine, remaining: int) -> (Machine, Option<Seq<u8>>)
    decreases remaining,
{
    if remaining <= 0 {
        (s, None)
    } else {
        let (s1, t, ready) = system_step(s);
        // A step takes at least four T-cycles; testing `t == 0` only bounds the recursion.
        if ready {
            (s1, Some(s1.bus.gpu.frame))
        } else if t == 0 || t >= remaining {
            (s1, None)
        } else {
            frame_run(s1, remaining - t)
        }
    }
}

/// Runs one CPU step and advances the PPU and the timer by the cycles it
/// took. Returns the T-cycles and whether a frame is ready.
#[verifier::spinoff_prover]
#[verifier::rlimit(60)]
pub fn step_system(cpu: &mut Cpu, bus: &mut Bus) -> (r: (u32, bool))
    requires
        old(bus).wf(),
    ensures
        final(bus).wf(),
        (mach(*final(cpu), final(bus)@), r.0, r.1) == system_step(mach(*old(cpu), old(bus)@)),
        4 <= r.0 <= 24,
{
    proof {
        reveal(system_step);
    }
    let m_cycles = cpu.step(bus);
    let t_cycles = m_cycles * 4;
    let frame_ready = bus.gpu.step(t_cycles);
    bus.step_timer(m_cycles);
    if bus.gpu.request_stat_interrupt {
        bus.interrupt_flag = bus.interrupt_flag | INT_STAT;
    }
    if frame_ready {
        bus.interrupt_flag = bus.interrupt_flag | INT_VBLANK;
    }
    if bus.joypad.interrupt_request {
        bus.interrupt_flag = bus.interrupt_flag | INT_JOYPAD;
        bus.joypad.interrupt_request = false;
    }
    (t_cycles, frame_ready)
}

/// Runs system steps until one frame's worth of T-cycles has passed or a
/// frame is ready. Returns a copy of the frame buffer when a frame is ready.
pub fn run_frame(cpu: &mut Cpu, bus: &mut Bus) -> (r: Option<Vec<u8>>)
    requires
        old(bus).wf(),
    ensures
        final(bus).wf(),
        mach(*final(cpu), final(bus)@) == frame_run(mach(*old(cpu), old(bus)@), CYCLES_PER_FRAME as int).0,
        match (r, frame_run(mach(*old(cpu), old(bus)@), CYCLES_PER_FRAME as int).1) {
            (Some(v), Some(f)) => v@ == f,
            (None, None) => true,
            _ => false,
        },
{
    let ghost s0 = mach(*cpu, bus@);
    let mut spent: u32 = 0;
    while spent < CYCLES_PER_FRAME
        invariant
            spent <= CYCLES_PER_FRAME + 24,
            bus.wf(),
            s0 == mach(*old(cpu), old(bus)@),
            frame_run(s0, CYCLES_PER_FRAME as int) == frame_run(mach(*cpu, bus@), CYCLES_PER_FRAME - spent),
        decreases CYCLES_PER_FRAME + 24 - spent,
    {
        let ghost before = mach(*cpu, bus@);
        let (t, ready) = step_system(cpu, bus);
        if ready {
            assert(frame_run(before, CYCLES_PER_FRAME - spent) == (mach(*cpu, bus@), Some(bus@.gpu.frame)));
            let copy = bus.gpu.frame_buffer.clone();
            assert(copy@ == bus.gpu.frame_buffer@);
            return Some(copy);
        }
        spent = spent + t;
    }
    None
}

} // verus!
