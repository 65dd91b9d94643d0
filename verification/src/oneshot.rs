//! A one-shot channel: a single-use cell that hands exactly one value from
//! one producer to one consumer.
//!
//! The channel's life passes through the phases
//! `Empty -> Writing -> Ready -> Reading`, each transition taken at most
//! once.  The phase tag is the single source of truth for whether the slot
//! holds a live value: every access to the slot is gated by a transition of
//! the tag, never by inspecting the slot itself.

use vstd::prelude::*;

verus! {

/// The phase a one-shot channel is in.  Over the channel's whole life the
/// phase moves one way along `Empty -> Writing -> Ready -> Reading`;
/// `Writing` is transient inside [`Channel::send`] and is never seen between
/// calls.
#[derive(Clone, Copy, PartialEq, Eq, Structural)]
pub enum Lifecycle {
    /// Fresh: nothing sent yet.
    Empty,
    /// A send has claimed the slot and is writing the value.
    Writing,
    /// A send has completed; the slot holds the value.
    Ready,
    /// A receive has claimed the slot and moved the value out.
    Reading,
}

/// The mathematical model of a one-shot channel: the phase tag together with
/// the slot's contents.
pub struct ChannelModel<T> {
    /// The lifecycle phase.
    pub state: Lifecycle,
    /// The slot: `Some` exactly while a sent value waits to be received.
    pub slot: Option<T>,
}

impl<T> ChannelModel<T> {
    /// Well-formedness between calls: the slot holds a value exactly in the
    /// `Ready` phase, and the transient `Writing` phase is never at rest.
    pub open spec fn wf(self) -> bool {
        &&& self.slot is Some <==> self.state is Ready
        &&& self.state !is Writing
    }

    /// What the readiness probe reports: a send has completed and no receive
    /// has claimed the value yet.
    pub open spec fn is_ready(self) -> bool {
        self.state is Ready
    }

    /// Send may start only on a channel nothing was ever sent through.
    pub open spec fn send_enabled(self) -> bool {
        self.state is Empty
    }

    /// Receive may start only after a completed send that nothing has yet
    /// received.
    pub open spec fn receive_enabled(self) -> bool {
        self.state is Ready
    }
}

/// The model of a channel as constructed: `Empty`, holding nothing.
pub open spec fn fresh_model<T>() -> ChannelModel<T> {
    ChannelModel { state: Lifecycle::Empty, slot: None }
}

/// The model a completed send leaves behind: `Ready`, holding exactly the
/// sent message.
pub open spec fn sent_model<T>(message: T) -> ChannelModel<T> {
    ChannelModel { state: Lifecycle::Ready, slot: Some(message) }
}

/// The model a completed receive leaves behind: `Reading`, the slot handed
/// over to the receiver and so empty again.
pub open spec fn drained_model<T>() -> ChannelModel<T> {
    ChannelModel { state: Lifecycle::Reading, slot: None }
}

/// A single-use cell carrying one value from one producer to one consumer.
///
/// The phase tag gates every access to the slot.  On destruction the slot is
/// dropped as an ordinary `Option`, which by well-formedness holds a value
/// exactly when the channel is `Ready` — a value sent and never received is
/// destroyed exactly once, and nothing else is.
pub struct Channel<T> {
    slot: Option<T>,
    state: Lifecycle,
}

impl<T> View for Channel<T> {
    type V = ChannelModel<T>;

    closed spec fn view(&self) -> ChannelModel<T> {
        ChannelModel { state: self.state, slot: self.slot }
    }
}

impl<T> Channel<T> {
    /// Creates a channel in the `Empty` phase, holding nothing.
    pub fn new() -> (c: Self)
        ensures
            c@ == fresh_model::<T>(),
    {
        Channel { slot: None, state: Lifecycle::Empty }
    }

    /// Sends the one message: claims the slot by entering the `Writing`
    /// phase, writes the value, then publishes the `Ready` phase.  A channel
    /// accepts only one send over its whole life, so the `Empty` phase is
    /// required; a second send has no phase it could start from.
    pub fn send(&mut self, message: T)
        requires
            old(self)@.wf(),
            old(self)@.send_enabled(),
        ensures
            final(self)@ == sent_model(message),
    {
        self.state = Lifecycle::Writing;
        self.slot = Some(message);
        self.state = Lifecycle::Ready;
    }

    /// Reports whether the channel is in the `Ready` phase: a message has
    /// been sent and not yet received.  A mere snapshot: it changes nothing
    /// and never fails, and licenses nothing but a call to
    /// [`Channel::receive`].
    pub fn is_ready(&self) -> (r: bool)
        ensures
            r == self@.is_ready(),
    {
        match self.state {
            Lifecycle::Ready => true,
            _ => false,
        }
    }

    /// Receives the one message: claims the slot by entering the `Reading`
    /// phase and moves the value out to the caller, leaving the slot empty.
    /// Requires the `Ready` phase — a completed send that nothing has yet
    /// received; too early or a second time, there is no phase it could
    /// start from.
    pub fn receive(&mut self) -> (message: T)
        requires
            old(self)@.wf(),
            old(self)@.receive_enabled(),
        ensures
            final(self)@ == drained_model::<T>(),
            old(self)@.slot == Some(message),
    {
        self.state = Lifecycle::Reading;
        match self.slot.take() {
            Some(message) => message,
            None => unreached(),
        }
    }
}

/// One send followed by one receive hands the very value sent across: for
/// every message, a completed send leaves a well-formed channel whose slot
/// holds exactly that message, and that slot is what receive moves out —
/// by move, never by copy.
pub proof fn lemma_send_receive_round_trip<T>(message: T)
    ensures
        sent_model(message).wf(),
        sent_model(message).slot == Some(message),
{
}

/// The readiness probe tracks the life of the channel: false on a fresh
/// channel, true exactly after a completed send, and false again after a
/// completed receive.
pub proof fn lemma_probe_tracks_life<T>(message: T)
    ensures
        !fresh_model::<T>().is_ready(),
        sent_model(message).is_ready(),
        !drained_model::<T>().is_ready(),
{
}

/// A channel accepts exactly one send: a fresh channel enables it, and once
/// a send has completed — or a receive after it — nothing enables a second
/// one, so the first send's effect stands untouched.
pub proof fn lemma_single_send<T>(message: T)
    ensures
        fresh_model::<T>().send_enabled(),
        !sent_model(message).send_enabled(),
        !drained_model::<T>().send_enabled(),
{
}

/// A channel hands its value out exactly once: receive is enabled only
/// after a completed send, and never again once the value has been claimed.
pub proof fn lemma_single_receive<T>(message: T)
    ensures
        !fresh_model::<T>().receive_enabled(),
        sent_model(message).receive_enabled(),
        !drained_model::<T>().receive_enabled(),
{
}

/// Every well-formed channel at rest sits at exactly one point on the
/// lifecycle line: it is fresh, or it holds exactly one sent message, or it
/// has been drained.  The transient `Writing` phase is never at rest, so
/// every legal observation between calls is one of these three.
pub proof fn lemma_lifecycle_line<T>(m: ChannelModel<T>)
    requires
        m.wf(),
    ensures
        m.state is Empty ==> m == fresh_model::<T>(),
        m.state is Ready ==> m == sent_model(m.slot->0),
        m.state is Reading ==> m == drained_model::<T>(),
        m.state is Empty || m.state is Ready || m.state is Reading,
{
}

/// The probe licenses a receive and nothing more: it reports exactly the
/// phase in which receive is enabled.
pub proof fn lemma_probe_licenses_receive<T>(m: ChannelModel<T>)
    ensures
        m.is_ready() == m.receive_enabled(),
{
}

/// The slot holds a live value exactly in the `Ready` phase.  Dropping a
/// well-formed channel therefore destroys a stored value exactly once when
/// it was sent and never received, and destroys nothing when the channel is
/// fresh or its value was already handed out.
pub proof fn lemma_slot_live_iff_ready<T>(m: ChannelModel<T>)
    requires
        m.wf(),
    ensures
        m.slot is Some <==> m.state is Ready,
{
}

} // verus!
