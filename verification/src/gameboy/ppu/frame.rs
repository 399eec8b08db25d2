//! The course of a frame: 70224 dots in which LY runs through the 154
//! scanlines once and the rest between two frames is entered once.

use super::{
    after_dot, after_stat_check, PPUMode, PpuView, HBLANK_DOTS, LAST_DRAWN_LINE, LAST_LINE,
    LINE_DOTS, OAM_SEARCH_DOTS, RENDERING_DOTS,
};
use crate::gameboy::memory::registers::{addresses, Interrupt};
use crate::gameboy::memory::MemoryView;
use crate::util::{bit_of, lemma_set_bit};
use vstd::prelude::*;

verus! {

/// Dots of one frame: 154 scanlines of 456 dots.
pub open spec fn frame_dots() -> int {
    70224
}

/// The dot of a frame on which the rest between two frames begins: the
/// first dot of scanline 144.
pub open spec fn vblank_dot() -> int {
    65664
}

/// Whether mode, countdown and LY fit together: a scanline that is drawn
/// is in one of the three modes of a drawn line, one of the last ten
/// scanlines is in the rest between two frames, and the countdown lies
/// within the length of the mode.
pub open spec fn in_step(ppu: PpuView, memory: MemoryView) -> bool {
    let ly = memory.read(addresses::LY);
    match ppu.mode {
        PPUMode::OAMSearch => ly <= LAST_DRAWN_LINE && 1 <= ppu.cycles <= OAM_SEARCH_DOTS,
        PPUMode::Rendering => ly <= LAST_DRAWN_LINE && 1 <= ppu.cycles <= RENDERING_DOTS,
        PPUMode::HBlank => ly <= LAST_DRAWN_LINE && 1 <= ppu.cycles <= HBLANK_DOTS,
        PPUMode::VBlank => LAST_DRAWN_LINE < ly <= LAST_LINE && 1 <= ppu.cycles <= LINE_DOTS,
    }
}

/// The number of dots of the frame that have passed.
pub open spec fn frame_dot(ppu: PpuView, memory: MemoryView) -> int {
    memory.read(addresses::LY) * 456 + match ppu.mode {
        PPUMode::OAMSearch => 80 - ppu.cycles,
        PPUMode::Rendering => 248 - ppu.cycles,
        PPUMode::HBlank => 456 - ppu.cycles,
        PPUMode::VBlank => 456 - ppu.cycles,
    }
}

/// Whether the coming dot enters the rest between two frames, and with it
/// requests the V-Blank interrupt and makes the two pictures change places.
pub open spec fn enters_vblank(ppu: PpuView, memory: MemoryView) -> bool {
    ppu.cycles <= 1 && ppu.mode == PPUMode::HBlank && memory.read(addresses::LY)
        >= LAST_DRAWN_LINE
}

/// The PPU and the memory `count` dots later, nothing else touching them.
pub open spec fn after_dots(ppu: PpuView, memory: MemoryView, count: nat) -> (PpuView, MemoryView)
    decreases count,
{
    if count == 0 {
        (ppu, memory)
    } else {
        after_dots(after_dot(ppu, memory).0, after_dot(ppu, memory).1, (count - 1) as nat)
    }
}

/// How often the coming `count` dots enter the rest between two frames.
pub open spec fn vblank_entries(ppu: PpuView, memory: MemoryView, count: nat) -> nat
    decreases count,
{
    if count == 0 {
        0
    } else {
        (if enters_vblank(ppu, memory) {
            1nat
        } else {
            0nat
        }) + vblank_entries(after_dot(ppu, memory).0, after_dot(ppu, memory).1, (count - 1) as nat)
    }
}

/// One dot moves a PPU that is in step one dot on in the frame and leaves
/// it in step; LY is the scanline of that dot. The V-Blank interrupt is
/// requested and the pictures change places on the dot that enters the
/// rest between two frames; on every other dot the picture that is shown
/// stays what it was.
#[verifier::rlimit(100)]
pub proof fn lemma_dot_advances(ppu: PpuView, memory: MemoryView)
    requires
        memory.wf(),
        in_step(ppu, memory),
    ensures
        in_step(after_dot(ppu, memory).0, after_dot(ppu, memory).1),
        after_dot(ppu, memory).1.wf(),
        frame_dot(after_dot(ppu, memory).0, after_dot(ppu, memory).1) == (frame_dot(ppu, memory)
            + 1) % frame_dots(),
        0 <= frame_dot(ppu, memory) < frame_dots(),
        after_dot(ppu, memory).1.read(addresses::LY) == frame_dot(
            after_dot(ppu, memory).0,
            after_dot(ppu, memory).1,
        ) / 456,
        enters_vblank(ppu, memory) <==> frame_dot(
            after_dot(ppu, memory).0,
            after_dot(ppu, memory).1,
        ) == vblank_dot(),
        enters_vblank(ppu, memory) ==> after_dot(ppu, memory).0.front == ppu.back && after_dot(
            ppu,
            memory,
        ).0.back == ppu.front && bit_of(
            after_dot(ppu, memory).1.interrupt_request(),
            Interrupt::VBlank.index_of(),
        ),
        !enters_vblank(ppu, memory) ==> after_dot(ppu, memory).0.front == ppu.front && bit_of(
            after_dot(ppu, memory).1.interrupt_request(),
            Interrupt::VBlank.index_of(),
        ) == bit_of(memory.interrupt_request(), Interrupt::VBlank.index_of()),
{
    reveal(after_dot);
    let checked = after_stat_check(ppu, memory);
    lemma_set_bit(memory.interrupt_request(), 1, 0);
    assert(checked.1.read(addresses::LY) == memory.read(addresses::LY));
    assert(bit_of(checked.1.interrupt_request(), 0) == bit_of(memory.interrupt_request(), 0));
    lemma_set_bit(checked.1.interrupt_request(), 0, 0);
}

/// How often the dots `first + 1` to `first + count` of a course that
/// repeats every frame are the dot that enters the rest between two frames.
pub open spec fn hits(first: int, count: nat) -> nat
    decreases count,
{
    if count == 0 {
        0
    } else {
        (if (first + 1) % frame_dots() == vblank_dot() {
            1nat
        } else {
            0nat
        }) + hits((first + 1) % frame_dots(), (count - 1) as nat)
    }
}

/// The dots from `dot` to the next entry into the rest between two frames.
pub open spec fn dots_to_vblank(dot: int) -> int {
    if dot < vblank_dot() {
        vblank_dot() - dot
    } else {
        vblank_dot() - dot + frame_dots()
    }
}

/// Within one frame the entry is hit once, as soon as the dots reach it.
#[verifier::rlimit(50)]
proof fn lemma_hits(first: int, count: nat)
    requires
        0 <= first < frame_dots(),
        count <= frame_dots(),
    ensures
        hits(first, count) == if count >= dots_to_vblank(first) {
            1nat
        } else {
            0nat
        },
    decreases count,
{
    if count > 0 {
        lemma_hits((first + 1) % frame_dots(), (count - 1) as nat);
    }
}

/// The course of a PPU that is in step: after `count` dots it is in
/// step, `count` dots further in the frame, and it has entered the rest
/// between two frames as often as the dot of the entry lies among them.
#[verifier::rlimit(50)]
pub proof fn lemma_course(ppu: PpuView, memory: MemoryView, count: nat)
    requires
        memory.wf(),
        in_step(ppu, memory),
    ensures
        in_step(after_dots(ppu, memory, count).0, after_dots(ppu, memory, count).1),
        after_dots(ppu, memory, count).1.wf(),
        frame_dot(after_dots(ppu, memory, count).0, after_dots(ppu, memory, count).1) == (
        frame_dot(ppu, memory) + count) % frame_dots(),
        vblank_entries(ppu, memory, count) == hits(frame_dot(ppu, memory), count),
    decreases count,
{
    lemma_dot_advances(ppu, memory);
    if count > 0 {
        let next = after_dot(ppu, memory);
        lemma_course(next.0, next.1, (count - 1) as nat);
        let dot = frame_dot(ppu, memory);
        assert(((dot + 1) % frame_dots() + (count - 1)) % frame_dots() == (dot + count)
            % frame_dots()) by {
            if dot + 1 == frame_dots() {
                vstd::arithmetic::div_mod::lemma_mod_add_multiples_vanish(
                    count as int - 1,
                    frame_dots(),
                );
            }
        }
    }
}

/// Across the 70224 dots of one frame a PPU that is in step enters the
/// rest between two frames, and requests the V-Blank interrupt, exactly
/// once, and it stands where it stood: on the same dot of the frame, with
/// the same scanline in LY.
#[verifier::rlimit(50)]
pub proof fn lemma_one_vblank_per_frame(ppu: PpuView, memory: MemoryView)
    requires
        memory.wf(),
        in_step(ppu, memory),
    ensures
        vblank_entries(ppu, memory, 70224) == 1,
        frame_dot(after_dots(ppu, memory, 70224).0, after_dots(ppu, memory, 70224).1)
            == frame_dot(ppu, memory),
        after_dots(ppu, memory, 70224).1.read(addresses::LY) == memory.read(addresses::LY),
{
    lemma_course(ppu, memory, 70224);
    lemma_dot_advances(ppu, memory);
    lemma_hits(frame_dot(ppu, memory), 70224);
    let dot = frame_dot(ppu, memory);
    assert((dot + 70224) % frame_dots() == dot) by {
        vstd::arithmetic::div_mod::lemma_mod_add_multiples_vanish(dot, frame_dots());
        vstd::arithmetic::div_mod::lemma_small_mod(dot as nat, frame_dots() as nat);
    }
    let end = after_dots(ppu, memory, 70224);
    lemma_line_of_dot(ppu, memory);
    lemma_line_of_dot(end.0, end.1);
}

/// LY is the scanline of the dot on which a PPU in step stands: through a
/// frame it runs from 0 to 153.
pub proof fn lemma_line_of_dot(ppu: PpuView, memory: MemoryView)
    requires
        in_step(ppu, memory),
    ensures
        memory.read(addresses::LY) == frame_dot(ppu, memory) / 456,
        0 <= frame_dot(ppu, memory) < frame_dots(),
{
}

/// The PPU writes to the I/O registers only: a dot leaves every byte
/// outside their page, and the size of every region, as it was.
#[verifier::rlimit(100)]
pub proof fn lemma_dot_keeps_memory(ppu: PpuView, memory: MemoryView, address: u16)
    requires
        memory.wf(),
        address < 0xFF00 || address >= 0xFF80,
    ensures
        after_dot(ppu, memory).1.wf(),
        after_dot(ppu, memory).1.read(address) == memory.read(address),
{
    reveal(after_dot);
}

} // verus!
