//! Readiness interest of a socket in the poll loop: whether the loop waits for
//! it to become readable, writable, both, or neither.
use vstd::prelude::*;

verus! {

/// The flag a socket's poll events carry when it is readable.
pub const POLLIN: i16 = 1;

/// The flag a socket's poll events carry when it is writable.
pub const POLLOUT: i16 = 2;

/// A set of poll event flags, as a bit set over `POLLIN` and `POLLOUT`.
#[derive(Clone, Copy, PartialEq, Eq, Structural, Debug)]
pub struct PollEvents {
    pub bits: i16,
}

impl PollEvents {
    /// The empty set of events.
    pub fn empty() -> (e: PollEvents)
        ensures
            e.bits == 0,
    {
        PollEvents { bits: 0 }
    }

    /// Whether every flag of `flag` is set in `self`.
    pub fn contains(&self, flag: i16) -> (b: bool)
        ensures
            b == (self.bits & flag == flag),
    {
        self.bits & flag == flag
    }
}

/// What the poll loop waits for on one socket.
#[allow(non_camel_case_types)]
#[derive(Clone, Copy, PartialEq, Eq, Structural, Debug)]
pub enum PollKind {
    SendMsg,
    RecvMsg,
    SendRecv,
    UNUSED,
}

/// The event bits that a kind of interest stands for.
pub open spec fn kind_events(k: PollKind) -> i16 {
    match k {
        PollKind::SendMsg => POLLOUT,
        PollKind::RecvMsg => POLLIN,
        PollKind::SendRecv => 3,
        PollKind::UNUSED => 0,
    }
}

/// Whether the kind waits for readability.
pub open spec fn kind_reads(k: PollKind) -> bool {
    k is RecvMsg || k is SendRecv
}

/// Whether the kind waits for writability.
pub open spec fn kind_writes(k: PollKind) -> bool {
    k is SendMsg || k is SendRecv
}

/// The kind that `read` leaves: `SendMsg` gains reading, every other kind
/// becomes reading only.
pub open spec fn spec_read(k: PollKind) -> PollKind {
    match k {
        PollKind::SendMsg => PollKind::SendRecv,
        _ => PollKind::RecvMsg,
    }
}

/// The kind that `clear_read` leaves: a writing kind keeps writing only,
/// every other kind becomes unused.
pub open spec fn spec_clear_read(k: PollKind) -> PollKind {
    match k {
        PollKind::SendRecv | PollKind::SendMsg => PollKind::SendMsg,
        _ => PollKind::UNUSED,
    }
}

/// The kind that `write` leaves: `RecvMsg` gains writing, every other kind
/// becomes writing only.
pub open spec fn spec_write(k: PollKind) -> PollKind {
    match k {
        PollKind::RecvMsg => PollKind::SendRecv,
        _ => PollKind::SendMsg,
    }
}

/// The kind that `clear_write` leaves: a reading kind keeps reading only,
/// every other kind becomes unused.
pub open spec fn spec_clear_write(k: PollKind) -> PollKind {
    match k {
        PollKind::SendRecv | PollKind::RecvMsg => PollKind::RecvMsg,
        _ => PollKind::UNUSED,
    }
}

proof fn lemma_event_bits()
    ensures
        (POLLOUT & POLLIN) != POLLIN,
        (POLLOUT & POLLOUT) == POLLOUT,
        (POLLIN & POLLIN) == POLLIN,
        (POLLIN & POLLOUT) != POLLOUT,
        (3i16 & POLLIN) == POLLIN,
        (3i16 & POLLOUT) == POLLOUT,
        (0i16 & POLLIN) != POLLIN,
        (0i16 & POLLOUT) != POLLOUT,
{
    assert((2i16 & 1i16) != 1i16) by (bit_vector);
    assert((2i16 & 2i16) == 2i16) by (bit_vector);
    assert((1i16 & 1i16) == 1i16) by (bit_vector);
    assert((1i16 & 2i16) != 2i16) by (bit_vector);
    assert((3i16 & 1i16) == 1i16) by (bit_vector);
    assert((3i16 & 2i16) == 2i16) by (bit_vector);
    assert((0i16 & 1i16) != 1i16) by (bit_vector);
    assert((0i16 & 2i16) != 2i16) by (bit_vector);
}

impl PollKind {
    /// The poll events to wait for on a socket of this kind.
    pub fn as_events(&self) -> (e: PollEvents)
        ensures
            e.bits == kind_events(*self),
    {
        match *self {
            PollKind::SendMsg => PollEvents { bits: POLLOUT },
            PollKind::RecvMsg => PollEvents { bits: POLLIN },
            PollKind::SendRecv => {
                assert((1i16 | 2i16) == 3i16) by (bit_vector);
                PollEvents { bits: POLLIN | POLLOUT }
            },
            _ => PollEvents::empty(),
        }
    }

    /// Whether the events of this kind include readability.
    pub fn is_read(&self) -> (b: bool)
        ensures
            b == kind_reads(*self),
    {
        proof {
            lemma_event_bits();
        }
        self.as_events().contains(POLLIN)
    }

    /// Whether the events of this kind include writability.
    pub fn is_write(&self) -> (b: bool)
        ensures
            b == kind_writes(*self),
    {
        proof {
            lemma_event_bits();
        }
        self.as_events().contains(POLLOUT)
    }

    /// Start waiting for readability.
    pub fn read(&mut self)
        ensures
            *final(self) == spec_read(*old(self)),
            kind_reads(*final(self)),
            !(*old(self) is SendRecv) ==> kind_writes(*final(self)) == kind_writes(*old(self)),
    {
        match *self {
            PollKind::SendMsg => *self = PollKind::SendRecv,
            _ => *self = PollKind::RecvMsg,
        }
    }

    /// Stop waiting for readability.
    pub fn clear_read(&mut self)
        ensures
            *final(self) == spec_clear_read(*old(self)),
            !kind_reads(*final(self)),
            kind_writes(*final(self)) == kind_writes(*old(self)),
    {
        match *self {
            PollKind::SendRecv | PollKind::SendMsg => *self = PollKind::SendMsg,
            _ => *self = PollKind::UNUSED,
        }
    }

    /// Start waiting for writability.
    pub fn write(&mut self)
        ensures
            *final(self) == spec_write(*old(self)),
            kind_writes(*final(self)),
            !(*old(self) is SendRecv) ==> kind_reads(*final(self)) == kind_reads(*old(self)),
    {
        match *self {
            PollKind::RecvMsg => *self = PollKind::SendRecv,
            _ => *self = PollKind::SendMsg,
        }
    }

    /// Stop waiting for writability.
    pub fn clear_write(&mut self)
        ensures
            *final(self) == spec_clear_write(*old(self)),
            !kind_writes(*final(self)),
            kind_reads(*final(self)) == kind_reads(*old(self)),
    {
        match *self {
            PollKind::SendRecv | PollKind::RecvMsg => *self = PollKind::RecvMsg,
            _ => *self = PollKind::UNUSED,
        }
    }
}

/// The events of a kind carry `POLLIN` exactly when the kind reads, and
/// `POLLOUT` exactly when it writes.
pub proof fn law_events_match_interest(k: PollKind)
    ensures
        (kind_events(k) & POLLIN == POLLIN) == kind_reads(k),
        (kind_events(k) & POLLOUT == POLLOUT) == kind_writes(k),
{
    lemma_event_bits();
}

/// Clearing readability right after starting it gives back the kind one
/// started from, when that kind was not reading.
pub proof fn law_clear_read_undoes_read(k: PollKind)
    requires
        !kind_reads(k),
    ensures
        spec_clear_read(spec_read(k)) == k,
{
}

/// Clearing writability right after starting it gives back the kind one
/// started from, when that kind was not writing.
pub proof fn law_clear_write_undoes_write(k: PollKind)
    requires
        !kind_writes(k),
    ensures
        spec_clear_write(spec_write(k)) == k,
{
}

/// Clearing an interest twice gives the same kind as clearing it once.
pub proof fn law_clearing_idempotent(k: PollKind)
    ensures
        spec_clear_read(spec_clear_read(k)) == spec_clear_read(k),
        spec_clear_write(spec_clear_write(k)) == spec_clear_write(k),
{
}

/// Starting readability twice gives the same kind as starting it once,
/// except from `SendMsg`: the first `read` gives `SendRecv`, and `read` on
/// `SendRecv` gives `RecvMsg`.
pub proof fn law_read_idempotent(k: PollKind)
    requires
        !(k is SendMsg),
    ensures
        spec_read(spec_read(k)) == spec_read(k),
{
}

/// Starting writability twice gives the same kind as starting it once,
/// except from `RecvMsg`: the first `write` gives `SendRecv`, and `write` on
/// `SendRecv` gives `SendMsg`.
pub proof fn law_write_idempotent(k: PollKind)
    requires
        !(k is RecvMsg),
    ensures
        spec_write(spec_write(k)) == spec_write(k),
{
}

/// Clearing both interests, in either order, leaves the socket unused.
pub proof fn law_clear_both_is_unused(k: PollKind)
    ensures
        spec_clear_write(spec_clear_read(k)) == PollKind::UNUSED,
        spec_clear_read(spec_clear_write(k)) == PollKind::UNUSED,
{
}

/// Starting an interest makes the kind wait for it, and stopping one makes
/// it stop waiting; the other interest is kept, except that starting
/// readability on a kind that waits both ways leaves it waiting for
/// readability only, and starting writability on such a kind leaves it
/// waiting for writability only.
pub proof fn law_interest_changes(k: PollKind)
    ensures
        kind_reads(spec_read(k)),
        kind_writes(spec_write(k)),
        !kind_reads(spec_clear_read(k)),
        !kind_writes(spec_clear_write(k)),
        kind_writes(spec_clear_read(k)) == kind_writes(k),
        kind_reads(spec_clear_write(k)) == kind_reads(k),
        !(k is SendRecv) ==> kind_writes(spec_read(k)) == kind_writes(k),
        !(k is SendRecv) ==> kind_reads(spec_write(k)) == kind_reads(k),
        k is SendRecv ==> spec_read(k) == PollKind::RecvMsg && spec_write(k) == PollKind::SendMsg,
{
}

/// A kind is determined by what it waits for.
pub proof fn law_kind_by_interest(a: PollKind, b: PollKind)
    ensures
        (kind_reads(a) == kind_reads(b) && kind_writes(a) == kind_writes(b)) <==> a == b,
{
}

} // verus!
