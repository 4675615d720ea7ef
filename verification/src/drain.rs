//! The drain loop's per-iteration decision.
//!
//! The background thread that owns the PTY read endpoint polls the child,
//! reads what is available, and hands both observations here. This module
//! decides what the iteration does: stop once the child is gone, absorb a
//! read through the reassembly buffer and append the result to the
//! display, or stay idle. The thread itself — the read call, the wake of
//! the UI event loop, the sleep between iterations — is the embedding
//! program's.

use vstd::prelude::*;

use crate::reassembly::Emission;
use crate::reassembly::ReassemblyBuffer;
use crate::reassembly::absorb_pending_spec;
use crate::reassembly::emission_for;

verus! {

/// What one polling iteration observed.
pub enum PollOutcome {
    /// The child process is no longer running.
    ChildGone,
    /// The read returned these bytes.
    BytesRead(Vec<u8>),
    /// Nothing was read this iteration.
    NothingRead,
}

/// What the drain thread must do with this iteration.
pub enum DrainStep {
    /// Leave the loop; read and mutate nothing further.
    Stop,
    /// Append the emission to the display, then wake the UI event loop.
    Append(Emission),
    /// Sleep and poll again.
    Idle,
}

/// Decide one iteration of the drain loop.
///
/// The loop stops exactly when the child is gone, and then touches the
/// buffer no further; bytes read are absorbed and their emission is
/// appended; an empty poll changes nothing.
pub fn drain_step(buffer: &mut ReassemblyBuffer, outcome: PollOutcome) -> (r: DrainStep)
    ensures
        (outcome is ChildGone ==> r is Stop && final(buffer)@ == old(buffer)@),
        (outcome matches PollOutcome::BytesRead(c) ==> {
            &&& r matches DrainStep::Append(e) && emission_for(e, old(buffer)@, c@)
            &&& final(buffer)@ == absorb_pending_spec(old(buffer)@, c@)
            &&& final(buffer).wf()
        }),
        (outcome is NothingRead ==> r is Idle && final(buffer)@ == old(buffer)@),
{
    match outcome {
        PollOutcome::ChildGone => DrainStep::Stop,
        PollOutcome::BytesRead(chunk) => DrainStep::Append(buffer.absorb(chunk.as_slice())),
        PollOutcome::NothingRead => DrainStep::Idle,
    }
}

} // verus!
