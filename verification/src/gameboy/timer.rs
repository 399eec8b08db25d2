use super::memory::registers::{addresses, Interrupt, InvalidBits};
use super::memory::{Memory, MemoryView};
use vstd::prelude::*;

verus! {

/// Whether the timer control `tac` lets TIMA count.
pub open spec fn timer_enabled_of(tac: u8) -> bool {
    (tac / 4) % 2 == 1
}

/// The number of dots between two increments of TIMA under the timer
/// control `tac`.
pub open spec fn tima_divider_of(tac: u8) -> u16 {
    if tac % 4 == 0 {
        1024
    } else if tac % 4 == 1 {
        16
    } else if tac % 4 == 2 {
        64
    } else {
        256
    }
}

/// The timer control register.
#[derive(Clone, Copy, Debug)]
pub struct Tac {
    data: u8,
}

impl View for Tac {
    type V = u8;

    closed spec fn view(&self) -> u8 {
        self.data
    }
}

impl Tac {
    /// The timer control with the bits `data`, of which only the low three may
    /// be set.
    pub fn new(data: u8) -> (r: Result<Self, InvalidBits>)
        ensures
            r is Ok <==> data < 8,
            r matches Ok(tac) ==> tac@ == data,
    {
        if data >= 8 {
            return Err(InvalidBits);
        }
        Ok(Self { data })
    }

    /// Whether TIMA counts.
    pub fn timer_enabled(&self) -> (enabled: bool)
        ensures
            enabled == timer_enabled_of(self@),
    {
        (self.data / 4) % 2 == 1
    }

    /// The number of dots between two increments of TIMA.
    pub fn tima_divider(&self) -> (divider: u16)
        ensures
            divider == tima_divider_of(self@),
    {
        let select = self.data % 4;
        if select == 0 {
            1024
        } else if select == 1 {
            16
        } else if select == 2 {
            64
        } else {
            256
        }
    }
}

/// The two counters of the timer, in dots.
pub struct TimerView {
    /// Dots since DIV last changed.
    pub div_counter: u16,
    /// Dots since TIMA last changed.
    pub tima_counter: u16,
}

/// Dots between two increments of DIV.
pub const DIV_PERIOD: u16 = 256;

/// The byte after `value`, 0xFF being followed by zero.
pub open spec fn next_byte(value: u8) -> u8 {
    if value == 0xFF {
        0
    } else {
        (value + 1) as u8
    }
}

/// The timer and the memory after the divider moved on by one dot. A write
/// of the CPU to DIV starts the count anew; every 256 dots DIV goes up by
/// one.
pub open spec fn after_div(timer: TimerView, memory: MemoryView) -> (TimerView, MemoryView) {
    let noted = memory.clear_divider_reset();
    let counter = if memory.divider_reset {
        0
    } else {
        timer.div_counter as int
    };
    if counter + 1 >= DIV_PERIOD {
        (
            TimerView { div_counter: 0, ..timer },
            noted.write(addresses::DIV, next_byte(noted.read(addresses::DIV))),
        )
    } else {
        (TimerView { div_counter: (counter + 1) as u16, ..timer }, noted)
    }
}

/// The timer and the memory after TIMA moved on by one dot. TIMA counts
/// where TAC enables it, once in as many dots as TAC selects; when it
/// overflows, the timer interrupt is requested and TIMA starts from TMA.
pub open spec fn after_tima(timer: TimerView, memory: MemoryView) -> (TimerView, MemoryView) {
    let tac = memory.read(addresses::TAC) % 8;
    if !timer_enabled_of(tac) {
        (timer, memory)
    } else if timer.tima_counter + 1 < tima_divider_of(tac) {
        (TimerView { tima_counter: (timer.tima_counter + 1) as u16, ..timer }, memory)
    } else if memory.read(addresses::TIMA) == 0xFF {
        (
            TimerView { tima_counter: 0, ..timer },
            memory.request_interrupt(Interrupt::Timer).write(
                addresses::TIMA,
                memory.request_interrupt(Interrupt::Timer).read(addresses::TMA),
            ),
        )
    } else {
        (
            TimerView { tima_counter: 0, ..timer },
            memory.write(addresses::TIMA, (memory.read(addresses::TIMA) + 1) as u8),
        )
    }
}

/// The timer and the memory one dot later.
pub open spec fn after_dot(timer: TimerView, memory: MemoryView) -> (TimerView, MemoryView) {
    after_tima(after_div(timer, memory).0, after_div(timer, memory).1)
}

/// The timer: the divider DIV and the counter TIMA.
pub struct Timer {
    div_cycle_count: u16,
    tima_cycle_count: u16,
}

impl View for Timer {
    type V = TimerView;

    closed spec fn view(&self) -> TimerView {
        TimerView { div_counter: self.div_cycle_count, tima_counter: self.tima_cycle_count }
    }
}

impl Timer {
    /// A timer whose two counts start now.
    pub fn new() -> (timer: Self)
        ensures
            timer@ == (TimerView { div_counter: 0, tima_counter: 0 }),
    {
        Self { div_cycle_count: 0, tima_cycle_count: 0 }
    }

    /// Moves the divider on by one dot.
#[verifier::rlimit(50)]
    pub fn update_div(&mut self, memory: &mut Memory)
        ensures
            (final(self)@, final(memory)@) == after_div(old(self)@, old(memory)@),
    {
        if memory.take_divider_reset() {
            self.div_cycle_count = 0;
        }
        if self.div_cycle_count >= DIV_PERIOD - 1 {
            self.div_cycle_count = 0;
            let div = memory.read(addresses::DIV);
            let new_div = if div == 0xFF {
                0
            } else {
                div + 1
            };
            memory.write(addresses::DIV, new_div);
        } else {
            self.div_cycle_count = self.div_cycle_count + 1;
        }
    }

    /// Moves TIMA on by one dot.
#[verifier::rlimit(50)]
    pub fn update_tima(&mut self, memory: &mut Memory)
        ensures
            (final(self)@, final(memory)@) == after_tima(old(self)@, old(memory)@),
    {
        let tac = match Tac::new(memory.read(addresses::TAC) % 8) {
            Ok(tac) => tac,
            Err(_) => {
                return ;
            },
        };
        if !tac.timer_enabled() {
            return ;
        }
        if (self.tima_cycle_count as u32) + 1 < tac.tima_divider() as u32 {
            self.tima_cycle_count = self.tima_cycle_count + 1;
            return ;
        }
        self.tima_cycle_count = 0;
        let tima = memory.read(addresses::TIMA);
        let new_tima = if tima == 0xFF {
            memory.request_interrupt(Interrupt::Timer);
            memory.read(addresses::TMA)
        } else {
            tima + 1
        };
        memory.write(addresses::TIMA, new_tima);
    }

    /// Moves the timer on by one dot.
    pub fn cycle(&mut self, memory: &mut Memory)
        ensures
            (final(self)@, final(memory)@) == after_dot(old(self)@, old(memory)@),
    {
        self.update_div(memory);
        self.update_tima(memory);
    }
}

/// While the timer counts, TIMA changes on the dot on which the counter
/// reaches the selected period and on no other: it goes up by one or, from
/// 0xFF, starts again from TMA with the timer interrupt requested.
#[verifier::rlimit(50)]
pub proof fn lemma_tima_period(timer: TimerView, memory: MemoryView)
    requires
        memory.wf(),
        timer_enabled_of(memory.read(addresses::TAC) % 8),
    ensures
        ({
            let period = tima_divider_of(memory.read(addresses::TAC) % 8);
            let after = after_tima(timer, memory);
            let tima = memory.read(addresses::TIMA);
            &&& timer.tima_counter + 1 < period ==> after.1 == memory && after.0.tima_counter
                == timer.tima_counter + 1
            &&& timer.tima_counter + 1 >= period ==> after.0.tima_counter == 0
            &&& timer.tima_counter + 1 >= period && tima < 0xFF ==> after.1.read(addresses::TIMA)
                == tima + 1 && after.1.interrupt_request() == memory.interrupt_request()
            &&& timer.tima_counter + 1 >= period && tima == 0xFF ==> after.1.read(addresses::TIMA)
                == memory.read(addresses::TMA) && crate::util::bit_of(
                after.1.interrupt_request(),
                Interrupt::Timer.index_of(),
            )
        }),
{
    crate::util::lemma_set_bit(memory.interrupt_request(), 2, 0);
}

/// The timer writes to its own registers and to the interrupt requests
/// only: a dot of the timer leaves LY and the size of every region as they
/// were.
#[verifier::rlimit(50)]
pub proof fn lemma_timer_keeps_line(timer: TimerView, memory: MemoryView)
    requires
        memory.wf(),
    ensures
        after_dot(timer, memory).1.wf(),
        after_dot(timer, memory).1.read(addresses::LY) == memory.read(addresses::LY),
{
}

/// The timer writes to the I/O registers only: a dot leaves every byte
/// outside their page as it was.
#[verifier::rlimit(50)]
pub proof fn lemma_timer_keeps_memory(timer: TimerView, memory: MemoryView, address: u16)
    requires
        memory.wf(),
        address < 0xFF00 || address >= 0xFF80,
    ensures
        after_dot(timer, memory).1.wf(),
        after_dot(timer, memory).1.read(address) == memory.read(address),
{
}

} // verus!
