pub mod apu;
pub mod cpu;
pub mod memory;
pub mod ppu;
pub mod rom;
pub mod timer;

use self::apu::Apu;
use self::cpu::laws::cycle_keeps;
use self::cpu::{initial_cpu, state, Cpu, Machine, OnMachineCycle};
use self::memory::registers::{addresses, Interrupt, StatFlag};
use self::memory::{initial_memory, Memory, MemoryView};
use self::ppu::frame::{
    frame_dot, frame_dots, in_step, lemma_dot_advances, lemma_dot_keeps_memory,
};
use self::ppu::{initial_ppu, Ppu, PpuView};
use self::rom::{initial_cartridge, rom_error, Rom, RomCgbStatus, RomError, HEADER_START};
use self::timer::{lemma_timer_keeps_line, lemma_timer_keeps_memory, Timer, TimerView};
use crate::util::{bit_is_set, bit_of, clear_bit, clear_bit_spec, set_bit, set_bit_spec};
use vstd::prelude::*;

verus! {

/// The eight buttons.
#[derive(Clone, Copy, PartialEq, Eq, Debug, Structural)]
pub enum JoypadButton {
    Right,
    Left,
    Up,
    Down,
    A,
    B,
    Select,
    Start,
}

impl JoypadButton {
    /// The bit that stands for the button: the four directions in the low
    /// nibble, the four actions in the high nibble.
    pub open spec fn index_of(self) -> u8 {
        match self {
            JoypadButton::Right => 0,
            JoypadButton::Left => 1,
            JoypadButton::Up => 2,
            JoypadButton::Down => 3,
            JoypadButton::A => 4,
            JoypadButton::B => 5,
            JoypadButton::Select => 6,
            JoypadButton::Start => 7,
        }
    }

    #[verifier::when_used_as_spec(index_of)]
    pub fn index(self) -> (i: u8)
        ensures
            i == self.index_of(),
    {
        match self {
            JoypadButton::Right => 0,
            JoypadButton::Left => 1,
            JoypadButton::Up => 2,
            JoypadButton::Down => 3,
            JoypadButton::A => 4,
            JoypadButton::B => 5,
            JoypadButton::Select => 6,
            JoypadButton::Start => 7,
        }
    }
}

/// The buttons as the player holds them: a set bit is a button held down.
#[derive(Clone, Copy, Debug)]
pub struct Joypad {
    data: u8,
}

impl View for Joypad {
    type V = u8;

    closed spec fn view(&self) -> u8 {
        self.data
    }
}

/// The buttons of a console that was just switched on.
pub const INITIAL_BUTTONS: u8 = 0xE0;

impl Joypad {
    /// The joypad of a console that was just switched on.
    pub fn new() -> (joypad: Self)
        ensures
            joypad@ == INITIAL_BUTTONS,
    {
        Self { data: INITIAL_BUTTONS }
    }

    /// Notes that `button` is held down, or that it is not.
    pub fn set_button(&mut self, button: JoypadButton, value: bool)
        ensures
            final(self)@ == if value {
                set_bit_spec(button.index_of(), old(self)@)
            } else {
                clear_bit_spec(button.index_of(), old(self)@)
            },
    {
        if value {
            self.data = set_bit(button.index(), self.data);
        } else {
            self.data = clear_bit(button.index(), self.data);
        }
    }

    /// The four action buttons, as the low four bits: A, B, Select, Start.
    pub fn action_buttons(&self) -> (buttons: u8)
        ensures
            buttons == self@ / 16,
    {
        self.data / 16
    }

    /// The four directions, as the low four bits: right, left, up, down.
    pub fn directional_buttons(&self) -> (buttons: u8)
        ensures
            buttons == self@ % 16,
    {
        self.data % 16
    }
}

/// The buttons that the register `register` at 0xFF00 asks for and that
/// are held down in `buttons`, as four bits: the actions where bit 4 of
/// the register is clear, the directions where bit 5 is clear, both where
/// both are.
pub open spec fn exposed_buttons(register: u8, buttons: u8) -> u8 {
    (if !bit_of(register, 4) {
        buttons / 16
    } else {
        0
    }) | (if !bit_of(register, 5) {
        buttons % 16
    } else {
        0
    })
}

/// The register at 0xFF00 once it shows `exposed`: its high nibble stays,
/// and its low nibble has a zero for every button of `exposed`.
pub open spec fn joypad_register(register: u8, exposed: u8) -> u8 {
    (register - register % 16 + (15 - exposed % 16)) as u8
}

/// Whether one of the four low bits is set in `before` and clear in `after`.
pub open spec fn falling_edge(before: u8, after: u8) -> bool {
    ||| bit_of(before, 0) && !bit_of(after, 0)
    ||| bit_of(before, 1) && !bit_of(after, 1)
    ||| bit_of(before, 2) && !bit_of(after, 2)
    ||| bit_of(before, 3) && !bit_of(after, 3)
}

/// The memory after the register at 0xFF00 was brought up to date with
/// the buttons: a button that the register newly shows as held down
/// requests the joypad interrupt.
#[verifier::opaque]
pub open spec fn after_joypad(buttons: u8, memory: MemoryView) -> MemoryView {
    let register = memory.read(addresses::JOYP);
    let shown = joypad_register(register, exposed_buttons(register, buttons));
    if falling_edge(register, shown) {
        memory.write(addresses::JOYP, shown).request_interrupt(Interrupt::Joypad)
    } else {
        memory.write(addresses::JOYP, shown)
    }
}

/// The state of what a console has beside CPU and memory.
pub struct PeripheralsView {
    pub ppu: PpuView,
    pub timer: TimerView,
    /// The buttons as the player holds them.
    pub joypad: u8,
    /// The machine cycles that have passed.
    pub total: nat,
}

/// The rest of the console and the memory one dot later: the PPU moves,
/// then the timer.
#[verifier::opaque]
pub open spec fn after_console_dot(view: PeripheralsView, memory: MemoryView) -> (
    PeripheralsView,
    MemoryView,
) {
    let drawn = ppu::after_dot(view.ppu, memory);
    let timed = timer::after_dot(view.timer, drawn.1);
    (PeripheralsView { ppu: drawn.0, timer: timed.0, ..view }, timed.1)
}

/// The rest of the console and the memory one machine cycle later: four
/// dots pass, and the register of the joypad is brought up to date.
pub open spec fn after_machine_cycle(view: PeripheralsView, memory: MemoryView) -> (
    PeripheralsView,
    MemoryView,
) {
    let first = after_console_dot(view, memory);
    let second = after_console_dot(first.0, first.1);
    let third = after_console_dot(second.0, second.1);
    let fourth = after_console_dot(third.0, third.1);
    (
        PeripheralsView { total: fourth.0.total + 1, ..fourth.0 },
        after_joypad(fourth.0.joypad, fourth.1),
    )
}

/// What a console has beside CPU and memory: the PPU, the audio unit, the
/// timer and the joypad.
pub struct Peripherals {
    ppu: Ppu,
    apu: Apu,
    timer: Timer,
    joypad: Joypad,
    count: u64,
    total: Ghost<nat>,
}

impl Peripherals {
    pub fn new(memory: &mut Memory) -> (peripherals: Self)
        ensures
            peripherals.inv(),
            peripherals.model() == (PeripheralsView {
                ppu: initial_ppu(),
                timer: TimerView { div_counter: 0, tima_counter: 0 },
                joypad: INITIAL_BUTTONS,
                total: 0,
            }),
            final(memory)@ == after_ppu_start(old(memory)@),
    {
        Self {
            ppu: Ppu::new(memory),
            apu: Apu::new(),
            timer: Timer::new(),
            joypad: Joypad::new(),
            count: 0,
            total: Ghost(0),
        }
    }

    /// The machine cycles that have passed, on 64 bits.
    pub fn count(&self) -> (count: u64)
        requires
            self.inv(),
        ensures
            count == self.model().total % 0x1_0000_0000_0000_0000,
    {
        self.count
    }

    pub fn ppu(&self) -> (ppu: &Ppu)
        ensures
            ppu@ == self.model().ppu,
    {
        &self.ppu
    }

    pub fn joypad_mut(&mut self) -> (joypad: &mut Joypad)
        ensures
            joypad@ == old(self).model().joypad,
            final(self).model() == (PeripheralsView {
                joypad: final(joypad)@,
                ..old(self).model()
            }),
            old(self).inv() ==> final(self).inv(),
    {
        &mut self.joypad
    }

    /// Brings the register at 0xFF00 up to date with the buttons.
#[verifier::rlimit(50)]
    fn refresh_joypad(&self, memory: &mut Memory)
        ensures
            final(memory)@ == after_joypad(self.model().joypad, old(memory)@),
    {
        reveal(after_joypad);
        let register = memory.read(addresses::JOYP);
        let actions = if !bit_is_set(register, 4) {
            self.joypad.action_buttons()
        } else {
            0
        };
        let directions = if !bit_is_set(register, 5) {
            self.joypad.directional_buttons()
        } else {
            0
        };
        let exposed = actions | directions;
        let shown = register - register % 16 + (15 - exposed % 16);
        memory.write(addresses::JOYP, shown);
        if (bit_is_set(register, 0) && !bit_is_set(shown, 0)) || (bit_is_set(register, 1)
            && !bit_is_set(shown, 1)) || (bit_is_set(register, 2) && !bit_is_set(shown, 2)) || (
        bit_is_set(register, 3) && !bit_is_set(shown, 3)) {
            memory.request_interrupt(Interrupt::Joypad);
        }
    }

    /// Moves the PPU, the audio unit and the timer on by one dot.
#[verifier::rlimit(50)]
    fn dot(&mut self, memory: &mut Memory)
        requires
            old(self).inv(),
        ensures
            final(self).inv(),
            (final(self).model(), final(memory)@) == after_console_dot(
                old(self).model(),
                old(memory)@,
            ),
    {
        reveal(after_console_dot);
        self.ppu.cycle(memory);
        self.apu.cycle(memory);
        self.timer.cycle(memory);
    }
}

/// The memory after the PPU was switched on: STAT holds the mode of the
/// search, and LY, SCX and SCY are zero.
pub open spec fn after_ppu_start(memory: MemoryView) -> MemoryView {
    memory.write(addresses::STAT, StatFlag::OAMSearchMode.mask_of()).write(
        addresses::LY,
        0,
    ).write(addresses::SCX, 0).write(addresses::SCY, 0)
}

impl OnMachineCycle for Peripherals {
    type V = PeripheralsView;

    closed spec fn model(&self) -> PeripheralsView {
        PeripheralsView {
            ppu: self.ppu@,
            timer: self.timer@,
            joypad: self.joypad@,
            total: self.total@,
        }
    }

    closed spec fn inv(&self) -> bool {
        self.ppu@.wf() && self.count == self.total@ % 0x1_0000_0000_0000_0000
    }

    open spec fn after_cycle(model: PeripheralsView, memory: MemoryView) -> (
        PeripheralsView,
        MemoryView,
    ) {
        after_machine_cycle(model, memory)
    }

    open spec fn cycles(model: PeripheralsView) -> nat {
        model.total
    }

#[verifier::rlimit(50)]
    fn on_machine_cycle(&mut self, memory: &mut Memory) {
        proof {
            lemma_machine_cycle_counts(self.model(), memory@);
        }
        self.dot(memory);
        self.dot(memory);
        self.dot(memory);
        self.dot(memory);
        self.refresh_joypad(memory);
        self.count = if self.count == u64::MAX {
            0
        } else {
            self.count + 1
        };
        self.total = Ghost((self.total@ + 1) as nat);
    }
}

/// The console that a ROM image and a boot ROM make when it is switched on.
pub open spec fn initial_console(rom: Seq<u8>, boot: Seq<u8>) -> Machine<Peripherals> {
    Machine {
        cpu: initial_cpu(),
        memory: after_ppu_start(
            initial_memory(
                initial_cartridge(rom),
                boot,
                rom::cgb_status_of(rom[HEADER_START + 16]) != RomCgbStatus::NoCGB,
            ),
        ),
        ticker: PeripheralsView {
            ppu: initial_ppu(),
            timer: TimerView { div_counter: 0, tima_counter: 0 },
            joypad: INITIAL_BUTTONS,
            total: 0,
        },
    }
}

/// A Gameboy emulator.
pub struct Gameboy {
    memory: Memory,
    cpu: Cpu,
    peripherals: Peripherals,
}

impl View for Gameboy {
    type V = Machine<Peripherals>;

    closed spec fn view(&self) -> Machine<Peripherals> {
        state(self.cpu, self.memory, self.peripherals)
    }
}

impl Gameboy {
    /// What holds of every emulator between two steps.
    pub closed spec fn wf(&self) -> bool {
        self.peripherals.inv()
    }

    /// Returns a new gameboy emulator instance with the given rom and bootrom.
#[verifier::rlimit(50)]
    pub fn new(rom: Vec<u8>, boot: Vec<u8>) -> (r: Result<Self, RomError>)
        ensures
            r is Ok <==> rom_error(rom@) is None,
            r matches Err(e) ==> rom_error(rom@) == Some(e),
            r matches Ok(gameboy) ==> gameboy.wf() && gameboy@ == initial_console(rom@, boot@),
    {
        let rom = match Rom::try_from_bytes(rom) {
            Ok(rom) => rom,
            Err(e) => {
                return Err(e);
            },
        };
        let mut memory = Memory::new(rom, boot);
        let cpu = Cpu::new();
        let peripherals = Peripherals::new(&mut memory);
        Ok(Self { memory, cpu, peripherals })
    }

    /// Steps the emulation forward by 1 cpu step. Returns how many machine cycles have been executed.
#[verifier::rlimit(50)]
    pub fn step(&mut self) -> (m_cycles: u8)
        requires
            old(self).wf(),
        ensures
            final(self).wf(),
            final(self)@ == old(self)@.step(),
            m_cycles == old(self)@.step_cycles(),
            1 <= m_cycles <= 6,
    {
        let before = self.peripherals.count();
        self.cpu.step(&mut self.memory, &mut self.peripherals);
        let after = self.peripherals.count();
        let passed = if after >= before {
            after - before
        } else {
            (u64::MAX - before) + after + 1
        };
        passed as u8
    }

    /// Returns an reference to the [Cpu] instance of this emulator.
    pub fn cpu(&self) -> (cpu: &Cpu)
        ensures
            cpu@ == self@.cpu,
    {
        &self.cpu
    }

    /// Returns an reference to the [Ppu] instance of this emulator.
    pub fn ppu(&self) -> (ppu: &Ppu)
        ensures
            ppu@ == self@.ticker.ppu,
    {
        self.peripherals.ppu()
    }

    /// Returns an reference to the [Memory] instance of this emulator.
    pub fn memory(&self) -> (memory: &Memory)
        ensures
            memory@ == self@.memory,
    {
        &self.memory
    }

    /// Returns an reference to the [Joypad] instance of this emulator.
    pub fn joypad_mut(&mut self) -> (joypad: &mut Joypad)
        ensures
            joypad@ == old(self)@.ticker.joypad,
            final(self)@ == (Machine {
                ticker: PeripheralsView { joypad: final(joypad)@, ..old(self)@.ticker },
                ..old(self)@
            }),
            old(self).wf() ==> final(self).wf(),
    {
        self.peripherals.joypad_mut()
    }

    /// The picture that is shown: 160 by 144 shades from 0 to 3.
    pub fn screen(&self) -> (screen: &[u8; 23040])
        requires
            self.wf(),
        ensures
            screen@ == self@.ticker.ppu.front,
            forall|i: int| 0 <= i < 23040 ==> #[trigger] screen@[i] <= 3,
    {
        self.peripherals.ppu().screen().pixels()
    }

    /// Tells the emulator that `button` is held down, or that it is not.
    /// The register at 0xFF00 shows it from the next machine cycle on.
    pub fn set_button(&mut self, button: JoypadButton, pressed: bool)
        requires
            old(self).wf(),
        ensures
            final(self).wf(),
            final(self)@ == (Machine {
                ticker: PeripheralsView {
                    joypad: if pressed {
                        set_bit_spec(button.index_of(), old(self)@.ticker.joypad)
                    } else {
                        clear_bit_spec(button.index_of(), old(self)@.ticker.joypad)
                    },
                    ..old(self)@.ticker
                },
                ..old(self)@
            }),
    {
        self.peripherals.joypad_mut().set_button(button, pressed);
    }
}

/// A dot leaves the buttons and the count of machine cycles as they were,
/// and a machine cycle adds one to the count.
pub proof fn lemma_machine_cycle_counts(view: PeripheralsView, memory: MemoryView)
    ensures
        after_console_dot(view, memory).0.joypad == view.joypad,
        after_console_dot(view, memory).0.total == view.total,
        after_machine_cycle(view, memory).0.joypad == view.joypad,
        after_machine_cycle(view, memory).0.total == view.total + 1,
{
    reveal(after_console_dot);
    let first = after_console_dot(view, memory);
    let second = after_console_dot(first.0, first.1);
    let third = after_console_dot(second.0, second.1);
    assert(after_console_dot(third.0, third.1).0.joypad == view.joypad);
}

/// A dot of the whole console moves a PPU that is in step one dot on in
/// the frame and leaves it in step: the timer does not touch LY.
#[verifier::rlimit(50)]
pub proof fn lemma_console_dot_advances(view: PeripheralsView, memory: MemoryView)
    requires
        memory.wf(),
        in_step(view.ppu, memory),
    ensures
        after_console_dot(view, memory).1.wf(),
        in_step(after_console_dot(view, memory).0.ppu, after_console_dot(view, memory).1),
        frame_dot(after_console_dot(view, memory).0.ppu, after_console_dot(view, memory).1) == (
        frame_dot(view.ppu, memory) + 1) % frame_dots(),
        0 <= frame_dot(view.ppu, memory) < frame_dots(),
{
    reveal(after_console_dot);
    lemma_dot_advances(view.ppu, memory);
    let drawn = ppu::after_dot(view.ppu, memory);
    lemma_timer_keeps_line(view.timer, drawn.1);
}

/// A machine cycle moves a PPU that is in step four dots on in the frame
/// and leaves it in step: neither the timer nor the joypad touches LY. A
/// frame is 17556 machine cycles long.
#[verifier::rlimit(50)]
pub proof fn lemma_machine_cycle_advances(view: PeripheralsView, memory: MemoryView)
    requires
        memory.wf(),
        in_step(view.ppu, memory),
    ensures
        after_machine_cycle(view, memory).1.wf(),
        in_step(after_machine_cycle(view, memory).0.ppu, after_machine_cycle(view, memory).1),
        frame_dot(after_machine_cycle(view, memory).0.ppu, after_machine_cycle(view, memory).1)
            == (frame_dot(view.ppu, memory) + 4) % frame_dots(),
        4 * 17556 == frame_dots(),
{
    lemma_console_dot_advances(view, memory);
    let first = after_console_dot(view, memory);
    lemma_console_dot_advances(first.0, first.1);
    let second = after_console_dot(first.0, first.1);
    lemma_console_dot_advances(second.0, second.1);
    let third = after_console_dot(second.0, second.1);
    lemma_console_dot_advances(third.0, third.1);
    let fourth = after_console_dot(third.0, third.1);
    lemma_joypad_keeps_line(fourth.0.joypad, fourth.1);
    lemma_four_dots(
        frame_dot(view.ppu, memory),
        frame_dot(first.0.ppu, first.1),
        frame_dot(second.0.ppu, second.1),
        frame_dot(third.0.ppu, third.1),
        frame_dot(fourth.0.ppu, fourth.1),
    );
}

/// Bringing the register of the joypad up to date leaves LY and the size
/// of every region as they were.
#[verifier::rlimit(50)]
pub proof fn lemma_joypad_keeps_line(buttons: u8, memory: MemoryView)
    requires
        memory.wf(),
    ensures
        after_joypad(buttons, memory).wf(),
        after_joypad(buttons, memory).read(addresses::LY) == memory.read(addresses::LY),
{
    reveal(after_joypad);
}

/// Four dots, one after the other, are four dots.
proof fn lemma_four_dots(start: int, first: int, second: int, third: int, fourth: int)
    requires
        0 <= start < frame_dots(),
        first == (start + 1) % frame_dots(),
        second == (first + 1) % frame_dots(),
        third == (second + 1) % frame_dots(),
        fourth == (third + 1) % frame_dots(),
    ensures
        fourth == (start + 4) % frame_dots(),
{
}

/// PPU, timer and joypad write to the I/O registers only: a machine cycle
/// of the console leaves every byte outside their page as it was.
#[verifier::rlimit(50)]
pub proof fn lemma_machine_cycle_keeps_memory(
    view: PeripheralsView,
    memory: MemoryView,
    address: u16,
)
    requires
        memory.wf(),
        address < 0xFF00 || address >= 0xFF80,
    ensures
        after_machine_cycle(view, memory).1.wf(),
        after_machine_cycle(view, memory).1.read(address) == memory.read(address),
{
    lemma_console_dot_keeps_memory(view, memory, address);
    let first = after_console_dot(view, memory);
    lemma_console_dot_keeps_memory(first.0, first.1, address);
    let second = after_console_dot(first.0, first.1);
    lemma_console_dot_keeps_memory(second.0, second.1, address);
    let third = after_console_dot(second.0, second.1);
    lemma_console_dot_keeps_memory(third.0, third.1, address);
    let fourth = after_console_dot(third.0, third.1);
    lemma_joypad_keeps_memory(fourth.0.joypad, fourth.1, address);
}

/// A dot of the console leaves every byte outside the page of the I/O
/// registers as it was.
proof fn lemma_console_dot_keeps_memory(view: PeripheralsView, memory: MemoryView, address: u16)
    requires
        memory.wf(),
        address < 0xFF00 || address >= 0xFF80,
    ensures
        after_console_dot(view, memory).1.wf(),
        after_console_dot(view, memory).1.read(address) == memory.read(address),
{
    reveal(after_console_dot);
    lemma_dot_keeps_memory(view.ppu, memory, address);
    lemma_timer_keeps_memory(view.timer, ppu::after_dot(view.ppu, memory).1, address);
}

/// Bringing the register of the joypad up to date leaves every byte
/// outside the page of the I/O registers as it was.
#[verifier::rlimit(50)]
proof fn lemma_joypad_keeps_memory(buttons: u8, memory: MemoryView, address: u16)
    requires
        memory.wf(),
        address < 0xFF00 || address >= 0xFF80,
    ensures
        after_joypad(buttons, memory).wf(),
        after_joypad(buttons, memory).read(address) == memory.read(address),
{
    reveal(after_joypad);
}

/// The console leaves the stack alone: on its machine cycles no byte
/// outside the page of the I/O registers changes, so that what the CPU
/// pushes is what it pops.
pub proof fn lemma_console_keeps(address: u16)
    requires
        address < 0xFF00 || address >= 0xFF80,
    ensures
        cycle_keeps::<Peripherals>(address),
{
    assert forall|model: PeripheralsView, memory: MemoryView| memory.wf() implies (
    #[trigger] Peripherals::after_cycle(model, memory)).1.wf() && Peripherals::after_cycle(
        model,
        memory,
    ).1.read(address) == memory.read(address) by {
        lemma_machine_cycle_keeps_memory(model, memory, address);
    }
}

} // verus!
