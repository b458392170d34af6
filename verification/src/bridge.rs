//! The encoding bridge: what one encode call has to do next, given what the
//! encoder and the sink have answered so far.
//!
//! The bridge performs none of the boundary operations itself. It names the
//! next one as an [`Action`]; the caller performs it and hands the answer
//! back as an [`Event`].

use vstd::prelude::*;
use crate::error::EncodeError;
use crate::sink::Accumulator;
use crate::sink::concat;
use crate::sink::CHUNK_ACCEPTED;
use crate::sink::CHUNK_REFUSED;

verus! {

/// The selector of the one quantization profile that is used.
pub const QUANTIZATION_PROFILE: i32 = 3;

/// The status with which the encoder reports success.
pub const STATUS_OK: i32 = 0;

/// How far one encode call has come.
#[derive(Copy, Clone, Debug, PartialEq, Eq, Structural)]
pub enum Phase {
    /// Nothing is acquired yet.
    Idle,
    /// The output session exists.
    SessionCreated,
    /// The quantization profile is held and the encoder is at work.
    Encoding,
    /// The encoder reported success; the output is on its way to the sink.
    Delivering,
    /// The sink has the whole output.
    Succeeded,
    /// The call has failed, and why.
    Failed(EncodeError),
}

/// What a boundary operation answered.
#[derive(Copy, Clone, Debug, PartialEq, Eq, Structural)]
pub enum Event {
    /// The status with which the encoder answered the request for a session.
    SessionStatus(i32),
    /// Whether the encoder gave a handle for the quantization profile.
    ProfileHandle(bool),
    /// The status with which the encode operation returned.
    EncodeStatus(i32),
    /// Whether the sink took the output.
    SinkStatus(bool),
}

/// The boundary operation that is due.
#[derive(Copy, Clone, Debug, PartialEq, Eq, Structural)]
pub enum Action {
    /// Ask the encoder for an output session that hands its chunks to
    /// this bridge.
    CreateSession,
    /// Ask the encoder for the quantization profile with this selector.
    AcquireProfile(i32),
    /// Run the encode operation on the pixel buffer.
    Encode,
    /// Write the bridge's output to the sink, in one piece.
    Deliver,
    /// The call is over: release the handles named here and read the outcome.
    Finish { release_session: bool, release_profile: bool },
}

/// One encode call as the contracts see it.
pub struct BridgeState {
    /// How far the call has come.
    pub phase: Phase,
    /// The bytes accumulated so far.
    pub accumulated: Seq<u8>,
}

/// Something that reaches the bridge: an answer, or a chunk of output.
pub enum Input {
    /// The answer to the pending action.
    Answer(Event),
    /// A chunk that the encoder pushes out.
    Chunk(Seq<u8>),
}

/// The state in which every encode call starts.
pub open spec fn initial() -> BridgeState {
    BridgeState { phase: Phase::Idle, accumulated: Seq::empty() }
}

/// The state that a failure leaves: nothing of the output is kept.
pub open spec fn failed(error: EncodeError) -> BridgeState {
    BridgeState { phase: Phase::Failed(error), accumulated: Seq::empty() }
}

/// Whether the call is over.
pub open spec fn is_terminal(phase: Phase) -> bool {
    phase == Phase::Succeeded || phase is Failed
}

/// Whether the output session is held in this phase.
pub open spec fn holds_session(phase: Phase) -> bool {
    match phase {
        Phase::Idle => false,
        Phase::Failed(error) => error != EncodeError::SessionCreationFailed,
        _ => true,
    }
}

/// Whether the quantization profile is held in this phase.
pub open spec fn holds_profile(phase: Phase) -> bool {
    match phase {
        Phase::Idle | Phase::SessionCreated => false,
        Phase::Failed(error) => error != EncodeError::SessionCreationFailed && error
            != EncodeError::ProfileUnavailable,
        _ => true,
    }
}

/// What holds of every state that a call can reach: output exists only from
/// the encode operation on, and a failure is one of the four that the bridge
/// itself detects.
pub open spec fn well_formed(s: BridgeState) -> bool {
    match s.phase {
        Phase::Idle | Phase::SessionCreated => s.accumulated.len() == 0,
        Phase::Failed(error) => s.accumulated.len() == 0 && (error
            == EncodeError::SessionCreationFailed || error == EncodeError::ProfileUnavailable
            || error == EncodeError::EncodeFailed || error == EncodeError::SinkWriteFailed),
        _ => true,
    }
}

/// The boundary operation that is due in a phase.
pub open spec fn pending(phase: Phase) -> Action {
    match phase {
        Phase::Idle => Action::CreateSession,
        Phase::SessionCreated => Action::AcquireProfile(QUANTIZATION_PROFILE),
        Phase::Encoding => Action::Encode,
        Phase::Delivering => Action::Deliver,
        _ => (Action::Finish {
            release_session: holds_session(phase),
            release_profile: holds_profile(phase),
        }),
    }
}

/// The state after an answer. An answer to anything but the pending action
/// changes nothing.
pub open spec fn step(s: BridgeState, event: Event) -> BridgeState {
    match (s.phase, event) {
        (Phase::Idle, Event::SessionStatus(status)) => if status == STATUS_OK {
            BridgeState { phase: Phase::SessionCreated, accumulated: s.accumulated }
        } else {
            failed(EncodeError::SessionCreationFailed)
        },
        (Phase::SessionCreated, Event::ProfileHandle(available)) => if available {
            BridgeState { phase: Phase::Encoding, accumulated: s.accumulated }
        } else {
            failed(EncodeError::ProfileUnavailable)
        },
        (Phase::Encoding, Event::EncodeStatus(status)) => if status == STATUS_OK {
            BridgeState { phase: Phase::Delivering, accumulated: s.accumulated }
        } else {
            failed(EncodeError::EncodeFailed)
        },
        (Phase::Delivering, Event::SinkStatus(written)) => if written {
            BridgeState { phase: Phase::Succeeded, accumulated: s.accumulated }
        } else {
            failed(EncodeError::SinkWriteFailed)
        },
        _ => s,
    }
}

/// The state after a chunk. Chunks are taken while the encoder is at work,
/// and at no other time.
pub open spec fn take(s: BridgeState, chunk: Seq<u8>) -> BridgeState {
    if s.phase == Phase::Encoding {
        BridgeState { phase: s.phase, accumulated: s.accumulated + chunk }
    } else {
        s
    }
}

/// The state after one input.
pub open spec fn feed(s: BridgeState, input: Input) -> BridgeState {
    match input {
        Input::Answer(event) => step(s, event),
        Input::Chunk(chunk) => take(s, chunk),
    }
}

/// The state after each of `inputs` in turn.
pub open spec fn run(s: BridgeState, inputs: Seq<Input>) -> BridgeState
    decreases inputs.len(),
{
    if inputs.len() == 0 {
        s
    } else {
        feed(run(s, inputs.drop_last()), inputs.last())
    }
}

/// What a call that is over hands to its caller: the output, or the failure.
/// A call that is not over has no outcome.
pub open spec fn outcome_of(s: BridgeState) -> Option<Result<Seq<u8>, EncodeError>> {
    match s.phase {
        Phase::Succeeded => Some(Ok(s.accumulated)),
        Phase::Failed(error) => Some(Err(error)),
        _ => None,
    }
}

/// One encode call: its phase and the output accumulated so far.
pub struct Bridge {
    phase: Phase,
    accumulator: Accumulator,
}

impl View for Bridge {
    type V = BridgeState;

    closed spec fn view(&self) -> BridgeState {
        BridgeState { phase: self.phase, accumulated: self.accumulator@ }
    }
}

impl Bridge {
    #[verifier::type_invariant]
    spec fn reachable(self) -> bool {
        well_formed(self@)
    }

    /// A call that has not begun: nothing acquired, nothing accumulated.
    pub fn new() -> (bridge: Bridge)
        ensures
            bridge@ == initial(),
    {
        Bridge { phase: Phase::Idle, accumulator: Accumulator::new() }
    }

    /// How far the call has come.
    pub fn phase(&self) -> (phase: Phase)
        ensures
            phase == self@.phase,
            well_formed(self@),
    {
        proof {
            use_type_invariant(self);
        }
        self.phase
    }

    /// The boundary operation that the caller has to perform next.
    pub fn pending(&self) -> (action: Action)
        ensures
            action == pending(self@.phase),
    {
        match self.phase {
            Phase::Idle => Action::CreateSession,
            Phase::SessionCreated => Action::AcquireProfile(QUANTIZATION_PROFILE),
            Phase::Encoding => Action::Encode,
            Phase::Delivering => Action::Deliver,
            Phase::Succeeded => Action::Finish { release_session: true, release_profile: true },
            Phase::Failed(error) => {
                let release_session = match error {
                    EncodeError::SessionCreationFailed => false,
                    _ => true,
                };
                let release_profile = match error {
                    EncodeError::SessionCreationFailed | EncodeError::ProfileUnavailable => false,
                    _ => true,
                };
                Action::Finish { release_session, release_profile }
            },
        }
    }

    /// Takes the answer to the pending action and names the next one.
    ///
    /// A status other than [`STATUS_OK`], a missing profile handle or a sink
    /// that did not take the output ends the call with the matching failure
    /// and throws the accumulated bytes away. An answer to an action that is
    /// not pending is ignored.
    pub fn advance(&mut self, event: Event) -> (action: Action)
        ensures
            final(self)@ == step(old(self)@, event),
            action == pending(final(self)@.phase),
            well_formed(final(self)@),
    {
        proof {
            use_type_invariant(&*self);
        }
        match (self.phase, event) {
            (Phase::Idle, Event::SessionStatus(status)) => {
                if status == STATUS_OK {
                    self.phase = Phase::SessionCreated;
                } else {
                    self.fail(EncodeError::SessionCreationFailed);
                }
            },
            (Phase::SessionCreated, Event::ProfileHandle(available)) => {
                if available {
                    self.phase = Phase::Encoding;
                } else {
                    self.fail(EncodeError::ProfileUnavailable);
                }
            },
            (Phase::Encoding, Event::EncodeStatus(status)) => {
                if status == STATUS_OK {
                    self.phase = Phase::Delivering;
                } else {
                    self.fail(EncodeError::EncodeFailed);
                }
            },
            (Phase::Delivering, Event::SinkStatus(written)) => {
                if written {
                    self.phase = Phase::Succeeded;
                } else {
                    self.fail(EncodeError::SinkWriteFailed);
                }
            },
            _ => {},
        }
        assert(self@.accumulated =~= step(old(self)@, event).accumulated);
        self.pending()
    }

    /// Ends the call with `error` and an empty accumulator.
    fn fail(&mut self, error: EncodeError)
        requires
            error == EncodeError::SessionCreationFailed || error
                == EncodeError::ProfileUnavailable || error == EncodeError::EncodeFailed || error
                == EncodeError::SinkWriteFailed,
        ensures
            final(self)@ == failed(error),
    {
        proof {
            use_type_invariant(&*self);
        }
        self.accumulator = Accumulator::new();
        self.phase = Phase::Failed(error);
        assert(self@.accumulated =~= Seq::<u8>::empty());
    }

    /// The operation that the encoder calls with each piece of output.
    ///
    /// While the encoder is at work the chunk is appended whole, behind all
    /// earlier chunks, and the status is [`CHUNK_ACCEPTED`]. At any other
    /// time nothing is appended and the status is [`CHUNK_REFUSED`].
    pub fn accept_chunk(&mut self, chunk: &[u8]) -> (status: i32)
        ensures
            final(self)@ == take(old(self)@, chunk@),
            status == if old(self)@.phase == Phase::Encoding {
                CHUNK_ACCEPTED
            } else {
                CHUNK_REFUSED
            },
            well_formed(final(self)@),
    {
        proof {
            use_type_invariant(&*self);
        }
        match self.phase {
            Phase::Encoding => {
                let mut accumulator = Accumulator::new();
                core::mem::swap(&mut self.accumulator, &mut accumulator);
                let status = accumulator.accept_chunk(chunk);
                self.accumulator = accumulator;
                status
            },
            _ => CHUNK_REFUSED,
        }
    }

    /// The bytes accumulated so far. When [`Action::Deliver`] is pending
    /// they are the whole output.
    pub fn output(&self) -> (bytes: &[u8])
        ensures
            bytes@ == self@.accumulated,
    {
        self.accumulator.as_slice()
    }

    /// What the call hands to its caller: the output after success, the
    /// failure after a failure, nothing while the call is not over.
    pub fn outcome(self) -> (outcome: Option<Result<Vec<u8>, EncodeError>>)
        ensures
            match outcome_of(self@) {
                Some(Ok(bytes)) => outcome matches Some(Ok(v)) && v@ == bytes,
                Some(Err(error)) => outcome == Some(Err::<Vec<u8>, EncodeError>(error)),
                None => outcome is None,
            },
    {
        match self.phase {
            Phase::Succeeded => Some(Ok(self.accumulator.into_bytes())),
            Phase::Failed(error) => Some(Err(error)),
            _ => None,
        }
    }
}

/// The inputs that a run of chunks amounts to.
pub open spec fn chunk_inputs(chunks: Seq<Seq<u8>>) -> Seq<Input> {
    Seq::new(chunks.len(), |i: int| Input::Chunk(chunks[i]))
}

/// Everything that reaches the bridge in a call that is carried through:
/// the answer on the session, the answer on the profile, the chunks, the
/// status of the encode operation and the answer of the sink.
pub open spec fn transcript(
    session: i32,
    profile: bool,
    chunks: Seq<Seq<u8>>,
    encode: i32,
    sink: bool,
) -> Seq<Input> {
    (seq![Input::Answer(Event::SessionStatus(session)), Input::Answer(Event::ProfileHandle(profile))]
        + chunk_inputs(chunks)).push(Input::Answer(Event::EncodeStatus(encode))).push(
        Input::Answer(Event::SinkStatus(sink)),
    )
}

/// What such a call comes to: the first failure in the order of the steps,
/// or else the chunks in the order they came.
pub open spec fn verdict(
    session: i32,
    profile: bool,
    chunks: Seq<Seq<u8>>,
    encode: i32,
    sink: bool,
) -> Result<Seq<u8>, EncodeError> {
    if session != STATUS_OK {
        Err(EncodeError::SessionCreationFailed)
    } else if !profile {
        Err(EncodeError::ProfileUnavailable)
    } else if encode != STATUS_OK {
        Err(EncodeError::EncodeFailed)
    } else if !sink {
        Err(EncodeError::SinkWriteFailed)
    } else {
        Ok(concat(chunks))
    }
}

/// No input leads out of the states that a call can reach.
pub proof fn lemma_feed_well_formed(s: BridgeState, input: Input)
    requires
        well_formed(s),
    ensures
        well_formed(feed(s, input)),
{
}

/// Every state that a call reaches from its start is well formed.
pub proof fn lemma_run_well_formed(inputs: Seq<Input>)
    ensures
        well_formed(run(initial(), inputs)),
    decreases inputs.len(),
{
    if inputs.len() > 0 {
        lemma_run_well_formed(inputs.drop_last());
        lemma_feed_well_formed(run(initial(), inputs.drop_last()), inputs.last());
    }
}

/// A call that is over stays as it is, whatever reaches it afterwards.
pub proof fn lemma_over_is_over(s: BridgeState, inputs: Seq<Input>)
    requires
        is_terminal(s.phase),
    ensures
        run(s, inputs) == s,
    decreases inputs.len(),
{
    if inputs.len() > 0 {
        lemma_over_is_over(s, inputs.drop_last());
    }
}

/// Running one list of inputs after another is running the two as one.
pub proof fn lemma_run_append(s: BridgeState, first: Seq<Input>, second: Seq<Input>)
    ensures
        run(s, first + second) == run(run(s, first), second),
    decreases second.len(),
{
    if second.len() == 0 {
        assert(first + second =~= first);
    } else {
        lemma_run_append(s, first, second.drop_last());
        assert((first + second).drop_last() =~= first + second.drop_last());
        assert((first + second).last() == second.last());
    }
}

/// While the encoder is at work the bridge holds the chunks in the order
/// they came, behind what it held before; at any other time chunks leave it
/// as it is.
pub proof fn lemma_run_chunks(s: BridgeState, chunks: Seq<Seq<u8>>)
    ensures
        run(s, chunk_inputs(chunks)) == if s.phase == Phase::Encoding {
            BridgeState { phase: Phase::Encoding, accumulated: s.accumulated + concat(chunks) }
        } else {
            s
        },
    decreases chunks.len(),
{
    if chunks.len() == 0 {
        assert(s.accumulated + concat(chunks) =~= s.accumulated);
    } else {
        lemma_run_chunks(s, chunks.drop_last());
        assert(chunk_inputs(chunks).drop_last() =~= chunk_inputs(chunks.drop_last()));
        assert(chunk_inputs(chunks).last() == Input::Chunk(chunks.last()));
        assert((s.accumulated + concat(chunks.drop_last())) + chunks.last() =~= s.accumulated
            + concat(chunks));
    }
}

/// The sink is asked for a delivery in one phase only, and a call enters
/// that phase only when the encode operation reports success.
pub proof fn lemma_delivery_follows_success(s: BridgeState, input: Input)
    ensures
        pending(s.phase) == Action::Deliver <==> s.phase == Phase::Delivering,
        feed(s, input).phase == Phase::Delivering && s.phase != Phase::Delivering ==> s.phase
            == Phase::Encoding && input == Input::Answer(Event::EncodeStatus(STATUS_OK)),
{
}

/// When the encode operation reports a failure, the call fails with
/// `EncodeFailed`, keeps none of the output, and never asks for a delivery
/// to the sink, whatever reaches the bridge afterwards.
pub proof fn lemma_encode_failure(s: BridgeState, status: i32, later: Seq<Input>)
    requires
        s.phase == Phase::Encoding,
        status != STATUS_OK,
    ensures
        run(step(s, Event::EncodeStatus(status)), later) == failed(EncodeError::EncodeFailed),
        outcome_of(run(step(s, Event::EncodeStatus(status)), later)) == Some(
            Err::<Seq<u8>, EncodeError>(EncodeError::EncodeFailed),
        ),
        pending(run(step(s, Event::EncodeStatus(status)), later).phase) == (Action::Finish {
            release_session: true,
            release_profile: true,
        }),
{
    lemma_over_is_over(step(s, Event::EncodeStatus(status)), later);
}

/// The outcome of a call is decided by what the encoder and the sink answer
/// and by the chunks in their order, and by nothing else: the first failure
/// among the steps, or else every chunk, one after the other.
pub proof fn lemma_whole_call(
    session: i32,
    profile: bool,
    chunks: Seq<Seq<u8>>,
    encode: i32,
    sink: bool,
)
    ensures
        outcome_of(run(initial(), transcript(session, profile, chunks, encode, sink))) == Some(
            verdict(session, profile, chunks, encode, sink),
        ),
{
    let opening = seq![
        Input::Answer(Event::SessionStatus(session)),
        Input::Answer(Event::ProfileHandle(profile)),
    ];
    let first = seq![Input::Answer(Event::SessionStatus(session))];
    let none = Seq::<Input>::empty();
    assert(opening.drop_last() =~= first);
    assert(first.drop_last() =~= none);
    assert(run(initial(), none) == initial());
    assert(first.last() == Input::Answer(Event::SessionStatus(session)));
    assert(run(initial(), first) == step(initial(), Event::SessionStatus(session)));
    assert(opening.last() == Input::Answer(Event::ProfileHandle(profile)));
    let opened = run(initial(), opening);
    assert(opened == step(
        step(initial(), Event::SessionStatus(session)),
        Event::ProfileHandle(profile),
    ));
    let body = opening + chunk_inputs(chunks);
    lemma_run_append(initial(), opening, chunk_inputs(chunks));
    lemma_run_chunks(opened, chunks);
    let encoded = body.push(Input::Answer(Event::EncodeStatus(encode)));
    assert(encoded.drop_last() =~= body);
    assert(run(initial(), encoded) == step(run(initial(), body), Event::EncodeStatus(encode)));
    let whole = encoded.push(Input::Answer(Event::SinkStatus(sink)));
    assert(whole.drop_last() =~= encoded);
    assert(run(initial(), whole) == step(run(initial(), encoded), Event::SinkStatus(sink)));
    assert(whole == transcript(session, profile, chunks, encode, sink));
    if session == STATUS_OK && profile {
        assert(Seq::<u8>::empty() + concat(chunks) =~= concat(chunks));
    }
}

} // verus!
