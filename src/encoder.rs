use vstd::prelude::*;

verus! {

/// Where a stream encoder stands: open with no batch yet, open after at
/// least one batch, or finished with its end-of-stream marker written.
#[derive(Debug, Clone, Copy, PartialEq, Eq, Structural)]
pub enum EncoderState {
    Opened,
    BatchWritten,
    Finished,
}

/// One operation on a stream encoder.
#[derive(Debug, Clone, Copy, PartialEq, Eq, Structural)]
pub enum EncoderStep {
    WriteBatch,
    Flush,
    Finish,
}

/// An operation that the encoder's state does not allow.
#[derive(Debug, Clone, Copy, PartialEq, Eq, Structural)]
pub enum EncoderError {
    /// The stream is finished: nothing more can be written to it.
    AlreadyFinished,
}

/// The state after `step`, or `None` where `state` does not allow it.
pub open spec fn step_spec(state: EncoderState, step: EncoderStep) -> Option<EncoderState> {
    match (state, step) {
        (EncoderState::Finished, _) => None,
        (_, EncoderStep::WriteBatch) => Some(EncoderState::BatchWritten),
        (s, EncoderStep::Flush) => Some(s),
        (_, EncoderStep::Finish) => Some(EncoderState::Finished),
    }
}

/// The state after running `steps` from `state`, or `None` where one of them
/// is not allowed.
pub open spec fn run_spec(state: EncoderState, steps: Seq<EncoderStep>) -> Option<EncoderState>
    decreases steps.len(),
{
    if steps.len() == 0 {
        Some(state)
    } else {
        match step_spec(state, steps[0]) {
            Some(next) => run_spec(next, steps.drop_first()),
            None => None,
        }
    }
}

impl EncoderState {
    /// The state after `step`; an error once the stream is finished.
    pub fn apply(self, step: EncoderStep) -> (r: Result<EncoderState, EncoderError>)
        ensures
            r matches Ok(s) ==> step_spec(self, step) == Some(s),
            r is Err <==> step_spec(self, step) is None,
            r is Err <==> self == EncoderState::Finished,
    {
        match self {
            EncoderState::Finished => Err(EncoderError::AlreadyFinished),
            _ => match step {
                EncoderStep::WriteBatch => Ok(EncoderState::BatchWritten),
                EncoderStep::Flush => Ok(self),
                EncoderStep::Finish => Ok(EncoderState::Finished),
            },
        }
    }
}

/// The operations that deliver one batch: write it, flush the encoder's
/// buffer, then write the end-of-stream marker.
pub fn one_batch_steps() -> (r: Vec<EncoderStep>)
    ensures
        r@ == seq![EncoderStep::WriteBatch, EncoderStep::Flush, EncoderStep::Finish],
{
    vec![EncoderStep::WriteBatch, EncoderStep::Flush, EncoderStep::Finish]
}

/// Delivering one batch is allowed on a freshly opened encoder and leaves it
/// finished.
pub proof fn lemma_one_batch_finishes()
    ensures
        run_spec(
            EncoderState::Opened,
            seq![EncoderStep::WriteBatch, EncoderStep::Flush, EncoderStep::Finish],
        ) == Some(EncoderState::Finished),
{
    let s = seq![EncoderStep::WriteBatch, EncoderStep::Flush, EncoderStep::Finish];
    assert(s.drop_first() =~= seq![EncoderStep::Flush, EncoderStep::Finish]);
    assert(s.drop_first().drop_first() =~= seq![EncoderStep::Finish]);
    assert(s.drop_first().drop_first().drop_first() =~= Seq::<EncoderStep>::empty());
    reveal_with_fuel(run_spec, 4);
}

/// Once finished, an encoder allows no further operation, whatever follows.
pub proof fn lemma_finished_is_final(steps: Seq<EncoderStep>)
    requires
        steps.len() > 0,
    ensures
        run_spec(EncoderState::Finished, steps) is None,
{
}

} // verus!
