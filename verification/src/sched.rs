//! The scheduler composition and the priority-ceiling resource arbiter.
//!
//! The firmware is a fixed set of interrupt handlers with static
//! priorities: serial dispatch lowest, the periodic tick above it, the
//! four transfer-completion handlers highest. State shared between
//! priorities is guarded by the ceiling discipline: entering a critical
//! section on a resource raises the running context's effective priority
//! to the resource's declared ceiling, so every handler that could touch
//! the resource is deferred until the section closes. The arbiter here is
//! the model of that mechanism: a single effective-priority mask, raised
//! on entry and restored on exit.
//!
//! `WordCell` and its session type carry the mutual-exclusion argument
//! down to instruction granularity: a 16-bit value written as two separate
//! bytes can never be observed half-written, because the mask holds off
//! every reader that could legally reach the cell until both halves are
//! in place.

use vstd::prelude::*;

verus! {

/// Static priority of the two serial dispatch handlers, the lowest in
/// the system.
pub const PRIO_SERIAL: u8 = 1;

/// Static priority of the periodic tick handler.
pub const PRIO_TICK: u8 = 2;

/// Static priority of the four transfer-completion handlers, the highest
/// in the system.
pub const PRIO_COMPLETION: u8 = 3;

/// Ceiling of a channel's throttle/driver state: shared by serial
/// dispatch, the tick and the completion handlers, so the ceiling is the
/// highest of their priorities.
pub const CEILING_CHANNEL: u8 = 3;

/// Ceiling of a channel's transfer handle: shared by the tick and the
/// completion handlers.
pub const CEILING_TRANSFER: u8 = 3;

/// Ceiling of the periodic timer: reached from the tick handler alone.
pub const CEILING_TIMER: u8 = 2;

/// Ceiling of a serial port and its decoder: reached from the owning
/// serial dispatch handler alone.
pub const CEILING_SERIAL: u8 = 1;

/// The interrupt arbiter: dispatch by static priority, masked up to the
/// ceiling of whatever critical section is open.
///
/// `mask` is the current effective priority: 0 when no section is open
/// and no handler runs, otherwise the maximum of the running handler's
/// static priority and the ceilings of the sections it has entered.
#[derive(Clone, Copy, PartialEq, Eq, Structural, Debug)]
pub struct Arbiter {
    /// Current effective priority; handlers at or below it are deferred.
    pub mask: u8,
}

impl Arbiter {
    /// True when a pending handler of static priority `prio` would be
    /// dispatched now: it must stand strictly above the effective
    /// priority.
    pub open spec fn may_dispatch(self, prio: u8) -> bool {
        prio > self.mask
    }

    /// The arbiter at rest: nothing masked.
    pub fn new() -> (a: Arbiter)
        ensures
            a == (Arbiter { mask: 0 }),
    {
        Arbiter { mask: 0 }
    }

    /// Enter a critical section on a resource with ceiling `ceiling`,
    /// from a context of static priority `caller_prio`.
    ///
    /// A context may only lock a resource whose ceiling covers its own
    /// priority; the `requires` is the build-time legality check the
    /// design demands. The returned value is the mask to restore on exit.
    pub fn enter(&mut self, caller_prio: u8, ceiling: u8) -> (saved: u8)
        requires
            caller_prio <= ceiling,
        ensures
            saved == old(self).mask,
            final(self).mask == if ceiling > old(self).mask { ceiling } else { old(self).mask },
            final(self).mask >= ceiling,
    {
        let saved = self.mask;
        if ceiling > self.mask {
            self.mask = ceiling;
        }
        saved
    }

    /// Leave a critical section, restoring the mask saved on entry. Runs
    /// on every exit path of a section, so a lock is never left held.
    pub fn exit(&mut self, saved: u8)
        ensures
            final(self).mask == saved,
    {
        self.mask = saved;
    }
}

/// Mutual exclusion, the heart of the ceiling discipline: while any
/// context is inside a critical section on a resource (so the mask is at
/// least the resource's ceiling), no other context that may legally
/// access that resource (its static priority is at most the ceiling) can
/// be dispatched. Both contexts therefore never stand inside a section on
/// the same resource at once.
pub proof fn lemma_lock_mutual_exclusion(a: Arbiter, other_prio: u8, ceiling: u8)
    requires
        a.mask >= ceiling,
        other_prio <= ceiling,
    ensures
        !a.may_dispatch(other_prio),
{
}

/// A 16-bit shared value as the hardware stores it: two separately
/// written bytes. Writing it is not atomic; only the ceiling discipline
/// keeps a reader from seeing one new byte next to one old byte.
#[derive(Clone, Copy, PartialEq, Eq, Structural, Debug)]
pub struct WordCell {
    /// Low-order byte.
    pub lo: u8,
    /// High-order byte.
    pub hi: u8,
}

/// The whole value a cell holds.
pub open spec fn word_value(w: WordCell) -> int {
    w.lo + 256 * w.hi
}

/// How far a writer's critical section over a `WordCell` has advanced.
#[derive(Clone, Copy, PartialEq, Eq, Structural, Debug)]
pub enum WritePhase {
    /// The section is not yet entered; the cell holds the old value.
    NotStarted,
    /// The section is entered; nothing written yet.
    Entered,
    /// The low byte of the new value is in place, the high byte is not:
    /// the cell is torn.
    HalfWritten,
    /// Both bytes of the new value are in place.
    Written,
    /// The section has closed over the new value.
    Done,
}

/// The phase a write session moves to on its next instruction; a closed
/// session stays closed.
pub open spec fn next_write_phase(p: WritePhase) -> WritePhase {
    match p {
        WritePhase::NotStarted => WritePhase::Entered,
        WritePhase::Entered => WritePhase::HalfWritten,
        WritePhase::HalfWritten => WritePhase::Written,
        WritePhase::Written => WritePhase::Done,
        WritePhase::Done => WritePhase::Done,
    }
}

/// A writer's critical section over a shared `WordCell`, advanced one
/// instruction at a time so that every interleaving point between the
/// byte writes can be examined.
pub struct WriteSession {
    /// The shared cell.
    pub cell: WordCell,
    /// The interrupt arbiter guarding the cell.
    pub arbiter: Arbiter,
    /// The mask to restore when the section closes.
    pub saved: u8,
    /// The writer's static priority.
    pub writer_prio: u8,
    /// How far the write has advanced.
    pub phase: WritePhase,
    /// The whole value the cell held before the write.
    pub old_value: u16,
    /// The whole value the write is installing.
    pub new_value: u16,
}

impl WriteSession {
    /// The session invariant. The load-bearing clause: whenever the cell
    /// is torn (`HalfWritten`), the mask stands at the cell's ceiling, so
    /// no legal reader can be dispatched.
    pub open spec fn wf(self) -> bool {
        &&& match self.phase {
            WritePhase::NotStarted => word_value(self.cell) == self.old_value,
            WritePhase::Entered => word_value(self.cell) == self.old_value,
            WritePhase::HalfWritten => self.cell.lo == self.new_value % 256,
            WritePhase::Written => word_value(self.cell) == self.new_value,
            WritePhase::Done => word_value(self.cell) == self.new_value,
        }
        &&& (self.phase is Entered || self.phase is HalfWritten || self.phase is Written)
            ==> self.arbiter.mask >= CEILING_CHANNEL
        &&& self.writer_prio <= CEILING_CHANNEL
    }

    /// Open a session: the cell holds `old_value`, the writer runs at
    /// `writer_prio`, which must legally reach the cell.
    pub fn begin(cell: WordCell, arbiter: Arbiter, writer_prio: u8, new_value: u16) -> (s:
        WriteSession)
        requires
            writer_prio <= CEILING_CHANNEL,
        ensures
            s.wf(),
            s.phase is NotStarted,
            s.old_value == word_value(cell),
            s.new_value == new_value,
            s.arbiter == arbiter,
            s.writer_prio == writer_prio,
    {
        WriteSession {
            cell,
            arbiter,
            saved: 0,
            writer_prio,
            phase: WritePhase::NotStarted,
            old_value: (cell.lo as u16) + 256 * (cell.hi as u16),
            new_value,
        }
    }

    /// The writer's next instruction: enter the section, write the low
    /// byte, write the high byte, or close the section. A step past
    /// `Done` is a no-op.
    pub fn writer_step(&mut self)
        requires
            old(self).wf(),
        ensures
            final(self).wf(),
            final(self).old_value == old(self).old_value,
            final(self).new_value == old(self).new_value,
            final(self).writer_prio == old(self).writer_prio,
            final(self).phase == next_write_phase(old(self).phase),
            old(self).phase is Done ==> *final(self) == *old(self),
            old(self).phase is NotStarted ==> final(self).cell == old(self).cell
                && final(self).saved == old(self).arbiter.mask,
            old(self).phase is Entered ==> final(self).cell.hi == old(self).cell.hi
                && final(self).arbiter == old(self).arbiter,
            old(self).phase is HalfWritten ==> final(self).arbiter == old(self).arbiter,
            old(self).phase is Written ==> final(self).cell == old(self).cell
                && final(self).arbiter.mask == old(self).saved,
    {
        match self.phase {
            WritePhase::NotStarted => {
                self.saved = self.arbiter.enter(self.writer_prio, CEILING_CHANNEL);
                self.phase = WritePhase::Entered;
            },
            WritePhase::Entered => {
                self.cell.lo = (self.new_value % 256) as u8;
                self.phase = WritePhase::HalfWritten;
            },
            WritePhase::HalfWritten => {
                self.cell.hi = (self.new_value / 256) as u8;
                self.phase = WritePhase::Written;
                assert(self.new_value == 256 * (self.new_value / 256) + self.new_value % 256);
            },
            WritePhase::Written => {
                self.arbiter.exit(self.saved);
                self.phase = WritePhase::Done;
            },
            WritePhase::Done => {},
        }
    }

    /// A reader at static priority `reader_prio` attempts to observe the
    /// cell. It is dispatched only if its priority clears the mask; when
    /// it is, the value it reads is whole — the old value or the new one,
    /// never a mixture.
    pub fn try_observe(&self, reader_prio: u8) -> (r: Option<u16>)
        requires
            self.wf(),
            reader_prio <= CEILING_CHANNEL,
        ensures
            r is Some <==> self.arbiter.may_dispatch(reader_prio),
            r matches Some(v) ==> v == word_value(self.cell),
            r matches Some(v) ==> v == self.old_value || v == self.new_value,
    {
        if reader_prio > self.arbiter.mask {
            Some(((self.cell.lo as u16) + 256 * (self.cell.hi as u16)) as u16)
        } else {
            None
        }
    }
}

/// Dispatch latency of a pending handler while a critical section is in
/// progress, measured in the caller's time unit.
///
/// A handler of priority `handler_prio` becomes pending at
/// `pending_at`, during a critical section that spans
/// `[section_start, section_end)` over resources whose combined ceiling
/// is `section_ceiling`. If the ceiling covers the handler it waits for
/// the section to close, otherwise it preempts at once; either way its
/// latency never exceeds the section's own length — the bounded
/// priority-inversion guarantee.
pub fn dispatch_latency(
    pending_at: u64,
    section_start: u64,
    section_end: u64,
    handler_prio: u8,
    section_ceiling: u8,
) -> (latency: u64)
    requires
        section_start <= pending_at < section_end,
    ensures
        handler_prio > section_ceiling ==> latency == 0,
        handler_prio <= section_ceiling ==> latency == section_end - pending_at,
        latency <= section_end - section_start,
{
    if handler_prio > section_ceiling {
        0
    } else {
        section_end - pending_at
    }
}

/// The fixed priority table is consistent: serial dispatch sits below
/// the tick, the tick below completion, and every lock site in the
/// system is legal — each handler's static priority is covered by the
/// ceiling of every resource it locks.
pub proof fn lemma_configuration_legal()
    ensures
        PRIO_SERIAL < PRIO_TICK < PRIO_COMPLETION,
        PRIO_SERIAL <= CEILING_CHANNEL,
        PRIO_TICK <= CEILING_CHANNEL,
        PRIO_COMPLETION <= CEILING_CHANNEL,
        PRIO_TICK <= CEILING_TRANSFER,
        PRIO_COMPLETION <= CEILING_TRANSFER,
        PRIO_TICK <= CEILING_TIMER,
        PRIO_SERIAL <= CEILING_SERIAL,
{
}

} // verus!
