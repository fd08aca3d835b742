//! Stream splicer.
//!
//! A relay copies bytes in both directions between the inbound and the
//! outbound stream until both directions are exhausted, half-closing each
//! write side as its read side reports end-of-stream. The reads, writes
//! and shutdowns themselves are asynchronous work done at the network
//! edge; what this module holds is the per-direction copy state machine
//! that decides, after each completed operation, what to do next — and
//! the proofs that driving it faithfully relays every byte sequence
//! unchanged, and that the two directions are independent of each other.
//!
//! One [`Pump`] moves bytes one way: it hands out each chunk read from
//! its source exactly as it came in, orders a half-close of its sink when
//! the source reports end-of-stream, and stops on the first failure. The
//! ghost fields `carried` and `delivered` record the bytes taken from the
//! source and the bytes confirmed into the sink, so the contracts can
//! state fidelity exactly.

use vstd::prelude::*;

verus! {

/// Where a copy direction stands.
#[derive(Debug, Clone, Copy, PartialEq, Eq, Structural)]
pub enum PumpState {
    /// Waiting for the next read of the source to complete.
    Reading,
    /// A chunk has been handed out; waiting for its write to complete.
    Writing,
    /// End-of-stream was read; waiting for the sink's half-close.
    Closing,
    /// The sink is half-closed: this direction is exhausted.
    Done,
    /// A read, write or half-close failed; this direction is abandoned.
    Failed,
}

/// The mathematical model of one copy direction.
pub struct PumpModel {
    /// Where the direction stands.
    pub state: PumpState,
    /// Every byte taken from the source so far, in order.
    pub carried: Seq<u8>,
    /// Every byte confirmed written to the sink so far, in order.
    pub delivered: Seq<u8>,
    /// Bytes handed out for writing whose write has not completed yet.
    pub pending: Seq<u8>,
}

/// What the network edge reports back for one completed operation.
pub enum PumpEvent {
    /// A read completed with a chunk of bytes.
    Chunk(Seq<u8>),
    /// A read completed with end-of-stream.
    Eof,
    /// A read failed.
    ReadFailed,
    /// The write of the pending chunk completed.
    WriteOk,
    /// The write of the pending chunk failed.
    WriteFailed,
    /// The half-close of the sink completed.
    ShutdownOk,
    /// The half-close of the sink failed.
    ShutdownFailed,
}

/// A fresh direction: nothing read, nothing written.
pub open spec fn pump_init() -> PumpModel {
    PumpModel { state: PumpState::Reading, carried: Seq::empty(), delivered: Seq::empty(), pending: Seq::empty() }
}

/// One transition of the copy state machine. An event that cannot occur
/// in the current state (the edge completes one operation at a time, and
/// only the one that was ordered) leaves the model unchanged.
pub open spec fn pump_step(m: PumpModel, e: PumpEvent) -> PumpModel {
    match (m.state, e) {
        (PumpState::Reading, PumpEvent::Chunk(b)) => PumpModel {
            state: PumpState::Writing,
            carried: m.carried + b,
            delivered: m.delivered,
            pending: b,
        },
        (PumpState::Reading, PumpEvent::Eof) => PumpModel { state: PumpState::Closing, ..m },
        (PumpState::Reading, PumpEvent::ReadFailed) => PumpModel { state: PumpState::Failed, ..m },
        (PumpState::Writing, PumpEvent::WriteOk) => PumpModel {
            state: PumpState::Reading,
            carried: m.carried,
            delivered: m.delivered + m.pending,
            pending: Seq::empty(),
        },
        (PumpState::Writing, PumpEvent::WriteFailed) => PumpModel { state: PumpState::Failed, ..m },
        (PumpState::Closing, PumpEvent::ShutdownOk) => PumpModel { state: PumpState::Done, ..m },
        (PumpState::Closing, PumpEvent::ShutdownFailed) => PumpModel { state: PumpState::Failed, ..m },
        _ => m,
    }
}

/// The state machine run over a whole sequence of events.
pub open spec fn pump_run(m: PumpModel, es: Seq<PumpEvent>) -> PumpModel
    decreases es.len(),
{
    if es.len() == 0 {
        m
    } else {
        pump_run(pump_step(m, es[0]), es.skip(1))
    }
}

/// What always holds of a reachable direction: while a write is pending
/// the carried bytes are the delivered ones plus the pending chunk;
/// otherwise everything carried has been delivered — except after a
/// failure, where the delivered bytes are still a prefix of the carried
/// ones (a failed direction loses at most its last, unconfirmed chunk,
/// and never corrupts what went before).
pub open spec fn pump_inv(m: PumpModel) -> bool {
    match m.state {
        PumpState::Writing => m.carried == m.delivered + m.pending,
        PumpState::Failed => m.delivered.is_prefix_of(m.carried),
        _ => m.carried == m.delivered && m.pending == Seq::<u8>::empty(),
    }
}

/// The invariant holds initially and every step preserves it.
pub proof fn lemma_pump_step_preserves_inv(m: PumpModel, e: PumpEvent)
    requires
        pump_inv(m),
    ensures
        pump_inv(pump_init()),
        pump_inv(pump_step(m, e)),
{
    assert(pump_init().carried =~= pump_init().delivered);
    let m2 = pump_step(m, e);
    match (m.state, e) {
        (PumpState::Reading, PumpEvent::Chunk(b)) => {
            assert(m2.carried =~= m2.delivered + m2.pending);
        },
        (PumpState::Writing, PumpEvent::WriteOk) => {
            assert(m2.carried =~= m2.delivered);
        },
        (PumpState::Writing, PumpEvent::WriteFailed) => {
            assert(m2.delivered =~= m2.carried.subrange(0, m2.delivered.len() as int));
        },
        _ => {},
    }
}

/// What a read of the source reported, as handed back by the network edge.
#[derive(Debug)]
pub enum ReadOutcome {
    /// The read completed with this chunk of bytes.
    Data(Vec<u8>),
    /// The source reported end-of-stream.
    Eof,
    /// The read failed.
    Failed,
}

/// What the driver of a direction must do next.
#[derive(Debug)]
pub enum PumpAction {
    /// Read the next chunk from the source.
    ReadMore,
    /// Write this chunk — the one just read, unchanged — to the sink.
    Write(Vec<u8>),
    /// Half-close the sink: the source is exhausted.
    Shutdown,
    /// Give up on this direction.
    Stop,
}

/// The ghost event a read outcome corresponds to.
pub open spec fn read_event(r: ReadOutcome) -> PumpEvent {
    match r {
        ReadOutcome::Data(v) => PumpEvent::Chunk(v@),
        ReadOutcome::Eof => PumpEvent::Eof,
        ReadOutcome::Failed => PumpEvent::ReadFailed,
    }
}

/// The ghost event a write result corresponds to.
pub open spec fn write_event(ok: bool) -> PumpEvent {
    if ok {
        PumpEvent::WriteOk
    } else {
        PumpEvent::WriteFailed
    }
}

/// The ghost event a half-close result corresponds to.
pub open spec fn shutdown_event(ok: bool) -> PumpEvent {
    if ok {
        PumpEvent::ShutdownOk
    } else {
        PumpEvent::ShutdownFailed
    }
}

/// One copy direction of a live relay. The driver performs the reads,
/// writes and half-closes it is told to and reports each result back; the
/// pump decides what comes next and accounts for every byte.
pub struct Pump {
    state: PumpState,
    carried: Ghost<Seq<u8>>,
    delivered: Ghost<Seq<u8>>,
    pending: Ghost<Seq<u8>>,
}

impl View for Pump {
    type V = PumpModel;

    closed spec fn view(&self) -> PumpModel {
        PumpModel {
            state: self.state,
            carried: self.carried@,
            delivered: self.delivered@,
            pending: self.pending@,
        }
    }
}

impl Pump {
    /// A fresh direction, ready for its first read.
    pub fn new() -> (p: Pump)
        ensures
            p@ == pump_init(),
    {
        Pump {
            state: PumpState::Reading,
            carried: Ghost(Seq::empty()),
            delivered: Ghost(Seq::empty()),
            pending: Ghost(Seq::empty()),
        }
    }

    /// Where this direction stands.
    pub fn state(&self) -> (s: PumpState)
        ensures
            s == self@.state,
    {
        self.state
    }

    /// Feed the result of the read that was ordered. A chunk is handed
    /// back to be written exactly as it came in; end-of-stream orders the
    /// half-close of the sink; a failed read abandons the direction.
    pub fn on_read(&mut self, r: ReadOutcome) -> (a: PumpAction)
        requires
            old(self)@.state is Reading,
        ensures
            final(self)@ == pump_step(old(self)@, read_event(r)),
            match r {
                ReadOutcome::Data(v) => a matches PumpAction::Write(w) && w == v,
                ReadOutcome::Eof => a is Shutdown,
                ReadOutcome::Failed => a is Stop,
            },
    {
        match r {
            ReadOutcome::Data(v) => {
                self.state = PumpState::Writing;
                self.carried = Ghost(self.carried@ + v@);
                self.pending = Ghost(v@);
                PumpAction::Write(v)
            },
            ReadOutcome::Eof => {
                self.state = PumpState::Closing;
                PumpAction::Shutdown
            },
            ReadOutcome::Failed => {
                self.state = PumpState::Failed;
                PumpAction::Stop
            },
        }
    }

    /// Feed the result of the write that was ordered: on success the
    /// pending chunk counts as delivered and the next read is ordered; on
    /// failure the direction is abandoned.
    pub fn on_write_result(&mut self, ok: bool) -> (a: PumpAction)
        requires
            old(self)@.state is Writing,
        ensures
            final(self)@ == pump_step(old(self)@, write_event(ok)),
            ok ==> a is ReadMore,
            !ok ==> a is Stop,
    {
        if ok {
            self.state = PumpState::Reading;
            self.delivered = Ghost(self.delivered@ + self.pending@);
            self.pending = Ghost(Seq::empty());
            PumpAction::ReadMore
        } else {
            self.state = PumpState::Failed;
            PumpAction::Stop
        }
    }

    /// Feed the result of the half-close that was ordered: on success
    /// this direction is exhausted and done; on failure it is abandoned.
    pub fn on_shutdown_result(&mut self, ok: bool)
        requires
            old(self)@.state is Closing,
        ensures
            final(self)@ == pump_step(old(self)@, shutdown_event(ok)),
    {
        if ok {
            self.state = PumpState::Done;
        } else {
            self.state = PumpState::Failed;
        }
    }
}

/// Where a whole relay — two directions over one connection — stands.
#[derive(Debug, Clone, Copy, PartialEq, Eq, Structural)]
pub enum RelayStatus {
    /// At least one direction still has work to do.
    Running,
    /// Both directions are exhausted and half-closed: the relay is over.
    Complete,
    /// A direction failed; the relay fails without waiting for the other.
    Failed,
}

/// The relay completes only when both directions are done (a peer that
/// has finished sending can still receive), and fails as soon as either
/// direction has failed.
pub fn relay_status(forward: &Pump, backward: &Pump) -> (s: RelayStatus)
    ensures
        (s is Failed) <==> (forward@.state is Failed || backward@.state is Failed),
        (s is Complete) <==> (forward@.state is Done && backward@.state is Done),
{
    match (forward.state(), backward.state()) {
        (PumpState::Failed, _) => RelayStatus::Failed,
        (_, PumpState::Failed) => RelayStatus::Failed,
        (PumpState::Done, PumpState::Done) => RelayStatus::Complete,
        _ => RelayStatus::Running,
    }
}

// ---------------------------------------------------------------------
// Round-trip byte fidelity
// ---------------------------------------------------------------------

/// The event script of a direction that runs to completion: each chunk is
/// read and its write completes, then end-of-stream is read and the
/// half-close completes.
pub open spec fn chunk_script(chunks: Seq<Seq<u8>>) -> Seq<PumpEvent>
    decreases chunks.len(),
{
    if chunks.len() == 0 {
        seq![PumpEvent::Eof, PumpEvent::ShutdownOk]
    } else {
        seq![PumpEvent::Chunk(chunks[0]), PumpEvent::WriteOk] + chunk_script(chunks.drop_first())
    }
}

/// Running the machine over concatenated scripts is running it over one,
/// then the other.
pub proof fn lemma_pump_run_app(m: PumpModel, es1: Seq<PumpEvent>, es2: Seq<PumpEvent>)
    ensures
        pump_run(m, es1 + es2) == pump_run(pump_run(m, es1), es2),
    decreases es1.len(),
{
    if es1.len() == 0 {
        assert(es1 + es2 =~= es2);
    } else {
        assert((es1 + es2)[0] == es1[0]);
        assert((es1 + es2).skip(1) =~= es1.skip(1) + es2);
        lemma_pump_run_app(pump_step(m, es1[0]), es1.skip(1), es2);
    }
}

/// Round-trip byte fidelity (law): a direction that starts fresh — or
/// with everything carried so far already delivered — and is driven to
/// completion delivers exactly the bytes it read, in order, with no
/// truncation or duplication, and ends done. Both directions of a relay
/// are instances of this, so it holds of each independently.
pub proof fn lemma_round_trip_fidelity(m: PumpModel, chunks: Seq<Seq<u8>>)
    requires
        m.state is Reading,
        m.carried == m.delivered,
        m.pending == Seq::<u8>::empty(),
    ensures
        ({
            let end = pump_run(m, chunk_script(chunks));
            &&& end.state is Done
            &&& end.delivered == m.delivered + chunks.flatten()
            &&& end.carried == end.delivered
        }),
    decreases chunks.len(),
{
    if chunks.len() == 0 {
        let s = chunk_script(chunks);
        let m1 = pump_step(m, PumpEvent::Eof);
        let m2 = pump_step(m1, PumpEvent::ShutdownOk);
        assert(s.skip(1) =~= seq![PumpEvent::ShutdownOk]);
        assert(seq![PumpEvent::ShutdownOk].skip(1) =~= Seq::<PumpEvent>::empty());
        assert(pump_run(m, s) == m2) by {
            reveal_with_fuel(pump_run, 3);
        }
        assert(m.delivered + chunks.flatten() =~= m.delivered);
    } else {
        let c = chunks[0];
        let rest = chunks.drop_first();
        let pre = seq![PumpEvent::Chunk(c), PumpEvent::WriteOk];
        lemma_pump_run_app(m, pre, chunk_script(rest));
        let m1 = pump_step(m, PumpEvent::Chunk(c));
        let m2 = pump_step(m1, PumpEvent::WriteOk);
        assert(pre.skip(1) =~= seq![PumpEvent::WriteOk]);
        assert(seq![PumpEvent::WriteOk].skip(1) =~= Seq::<PumpEvent>::empty());
        assert(pump_run(m, pre) == m2) by {
            reveal_with_fuel(pump_run, 3);
        }
        assert(m2.carried =~= m2.delivered);
        assert(m2.pending == Seq::<u8>::empty());
        lemma_round_trip_fidelity(m2, rest);
        assert(chunks.flatten() == c + rest.flatten());
        assert(m.delivered + chunks.flatten() =~= (m.delivered + c) + rest.flatten());
    }
}

// ---------------------------------------------------------------------
// Independence of the two directions
// ---------------------------------------------------------------------

/// The mathematical model of a whole relay: one direction each way, with
/// no shared state between them.
pub struct RelayModel {
    /// Inbound peer to forward peer.
    pub forward: PumpModel,
    /// Forward peer back to inbound peer.
    pub backward: PumpModel,
}

/// A fresh relay: both directions fresh.
pub open spec fn relay_init() -> RelayModel {
    RelayModel { forward: pump_init(), backward: pump_init() }
}

/// One completed operation of a live relay, tagged with the direction it
/// belongs to.
pub enum RelayEvent {
    /// An event of the inbound-to-forward direction.
    Forward(PumpEvent),
    /// An event of the forward-to-inbound direction.
    Backward(PumpEvent),
}

/// One transition of the relay: the event steps its own direction and
/// leaves the other untouched.
pub open spec fn relay_step(r: RelayModel, e: RelayEvent) -> RelayModel {
    match e {
        RelayEvent::Forward(pe) => RelayModel { forward: pump_step(r.forward, pe), backward: r.backward },
        RelayEvent::Backward(pe) => RelayModel { forward: r.forward, backward: pump_step(r.backward, pe) },
    }
}

/// The relay run over a whole interleaving of events.
pub open spec fn relay_run(r: RelayModel, es: Seq<RelayEvent>) -> RelayModel
    decreases es.len(),
{
    if es.len() == 0 {
        r
    } else {
        relay_run(relay_step(r, es[0]), es.skip(1))
    }
}

/// The events of the forward direction, in order, within an interleaving.
pub open spec fn forward_events(es: Seq<RelayEvent>) -> Seq<PumpEvent>
    decreases es.len(),
{
    if es.len() == 0 {
        Seq::empty()
    } else {
        match es[0] {
            RelayEvent::Forward(pe) => seq![pe] + forward_events(es.skip(1)),
            RelayEvent::Backward(_) => forward_events(es.skip(1)),
        }
    }
}

/// The events of the backward direction, in order, within an interleaving.
pub open spec fn backward_events(es: Seq<RelayEvent>) -> Seq<PumpEvent>
    decreases es.len(),
{
    if es.len() == 0 {
        Seq::empty()
    } else {
        match es[0] {
            RelayEvent::Forward(_) => backward_events(es.skip(1)),
            RelayEvent::Backward(pe) => seq![pe] + backward_events(es.skip(1)),
        }
    }
}

/// Concurrent direction isolation (law): however the two directions'
/// events interleave, each direction ends exactly where running it alone
/// on its own events would end. Nothing one direction does — data,
/// half-close or failure — constrains the other.
pub proof fn lemma_directions_independent(r: RelayModel, es: Seq<RelayEvent>)
    ensures
        relay_run(r, es).forward == pump_run(r.forward, forward_events(es)),
        relay_run(r, es).backward == pump_run(r.backward, backward_events(es)),
    decreases es.len(),
{
    if es.len() == 0 {
    } else {
        let r1 = relay_step(r, es[0]);
        lemma_directions_independent(r1, es.skip(1));
        match es[0] {
            RelayEvent::Forward(pe) => {
                let tailf = forward_events(es.skip(1));
                assert((seq![pe] + tailf)[0] == pe);
                assert((seq![pe] + tailf).skip(1) =~= tailf);
            },
            RelayEvent::Backward(pe) => {
                let tailb = backward_events(es.skip(1));
                assert((seq![pe] + tailb)[0] == pe);
                assert((seq![pe] + tailb).skip(1) =~= tailb);
            },
        }
    }
}

/// Independent half-close (law): in any interleaving in which the
/// inbound peer finishes sending — the forward direction reads B, then
/// end-of-stream, and half-closes the forward peer's write side — the
/// forward peer observes end-of-stream after receiving exactly B, and the
/// backward direction still delivers every byte the forward peer sends,
/// whether it sends before or after that half-close.
pub proof fn lemma_independent_half_close(es: Seq<RelayEvent>, b: Seq<Seq<u8>>, c: Seq<Seq<u8>>)
    requires
        forward_events(es) == chunk_script(b),
        backward_events(es) == chunk_script(c),
    ensures
        relay_run(relay_init(), es).forward.state is Done,
        relay_run(relay_init(), es).forward.delivered == b.flatten(),
        relay_run(relay_init(), es).backward.state is Done,
        relay_run(relay_init(), es).backward.delivered == c.flatten(),
{
    lemma_directions_independent(relay_init(), es);
    lemma_round_trip_fidelity(pump_init(), b);
    lemma_round_trip_fidelity(pump_init(), c);
    assert(pump_init().delivered + b.flatten() =~= b.flatten());
    assert(pump_init().delivered + c.flatten() =~= c.flatten());
}

/// Every event of a script, tagged as belonging to the forward direction.
pub open spec fn tag_forward(es: Seq<PumpEvent>) -> Seq<RelayEvent> {
    es.map_values(|pe: PumpEvent| RelayEvent::Forward(pe))
}

/// Every event of a script, tagged as belonging to the backward direction.
pub open spec fn tag_backward(es: Seq<PumpEvent>) -> Seq<RelayEvent> {
    es.map_values(|pe: PumpEvent| RelayEvent::Backward(pe))
}

proof fn lemma_projections_of_tagged(es: Seq<PumpEvent>)
    ensures
        forward_events(tag_forward(es)) == es,
        backward_events(tag_forward(es)) == Seq::<PumpEvent>::empty(),
        forward_events(tag_backward(es)) == Seq::<PumpEvent>::empty(),
        backward_events(tag_backward(es)) == es,
    decreases es.len(),
{
    if es.len() == 0 {
        assert(tag_forward(es) =~= Seq::<RelayEvent>::empty());
        assert(tag_backward(es) =~= Seq::<RelayEvent>::empty());
    } else {
        lemma_projections_of_tagged(es.skip(1));
        assert(tag_forward(es).skip(1) =~= tag_forward(es.skip(1)));
        assert(tag_backward(es).skip(1) =~= tag_backward(es.skip(1)));
        assert(seq![es[0]] + es.skip(1) =~= es);
    }
}

proof fn lemma_forward_events_app(es1: Seq<RelayEvent>, es2: Seq<RelayEvent>)
    ensures
        forward_events(es1 + es2) == forward_events(es1) + forward_events(es2),
        backward_events(es1 + es2) == backward_events(es1) + backward_events(es2),
    decreases es1.len(),
{
    if es1.len() == 0 {
        assert(es1 + es2 =~= es2);
        assert(forward_events(es1) + forward_events(es2) =~= forward_events(es2));
        assert(backward_events(es1) + backward_events(es2) =~= backward_events(es2));
    } else {
        assert((es1 + es2)[0] == es1[0]);
        assert((es1 + es2).skip(1) =~= es1.skip(1) + es2);
        lemma_forward_events_app(es1.skip(1), es2);
        match es1[0] {
            RelayEvent::Forward(pe) => {
                assert(seq![pe] + (forward_events(es1.skip(1)) + forward_events(es2)) =~= (seq![pe]
                    + forward_events(es1.skip(1))) + forward_events(es2));
            },
            RelayEvent::Backward(pe) => {
                assert(seq![pe] + (backward_events(es1.skip(1)) + backward_events(es2)) =~= (seq![
                    pe,
                ] + backward_events(es1.skip(1))) + backward_events(es2));
            },
        }
    }
}

/// The half-close-then-respond scenario, as one run: the inbound peer
/// sends B and shuts down its write side; only afterwards does the
/// forward peer send C. The forward peer receives exactly B before its
/// end-of-stream, and the inbound peer still receives exactly C before
/// the connection fully closes.
pub proof fn lemma_half_close_then_respond(b: Seq<Seq<u8>>, c: Seq<Seq<u8>>)
    ensures
        ({
            let end = relay_run(
                relay_init(),
                tag_forward(chunk_script(b)) + tag_backward(chunk_script(c)),
            );
            &&& end.forward.state is Done
            &&& end.forward.delivered == b.flatten()
            &&& end.backward.state is Done
            &&& end.backward.delivered == c.flatten()
        }),
{
    let fwd = tag_forward(chunk_script(b));
    let bwd = tag_backward(chunk_script(c));
    lemma_forward_events_app(fwd, bwd);
    lemma_projections_of_tagged(chunk_script(b));
    lemma_projections_of_tagged(chunk_script(c));
    assert(forward_events(fwd + bwd) =~= chunk_script(b));
    assert(backward_events(fwd + bwd) =~= chunk_script(c));
    lemma_independent_half_close(fwd + bwd, b, c);
}

} // verus!
