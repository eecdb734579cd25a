//! The output-stream driver: the one part of the backend with lifecycle
//! hazards.
//!
//! A live output stream owns a background rendering context and a one-shot
//! cancellation sender paired with it. The background context runs a tight
//! loop: poll the cancellation signal without blocking; if it arrived, exit
//! and invoke nothing further; otherwise invoke the rendering callback once
//! against a fixed synthetic buffer, with a fixed zero timestamp, and poll
//! again. Teardown releases each owned resource exactly once, sending the
//! cancellation signal strictly before waiting for the context, so that a
//! second teardown finds nothing left to release and the wait can never
//! precede the signal that ends the loop.
//!
//! This module holds the decisions of that protocol, verified: which
//! resources a stream owns, what a teardown must do in which order, and
//! whether one loop iteration exits or invokes the callback. Performing
//! the actions — spawning the context, sending on a real channel, joining —
//! is the unverified shell's part; it obeys the plans produced here.

use vstd::prelude::*;

use crate::config::SampleFormat;
use crate::config::StreamConfig;
use crate::errors::BuildStreamError;
use crate::errors::PauseStreamError;
use crate::errors::PlayStreamError;
use crate::host::Device;

verus! {

/// Number of samples in the synthetic buffer handed to the rendering
/// callback on every invocation.
pub const SYNTHETIC_BUFFER_LEN: usize = 128;

/// A point in a stream's timeline. The driver never advances it: every
/// callback sees the zero instant.
#[derive(Clone, Copy, Debug, PartialEq, Eq, Structural)]
pub struct StreamInstant {
    pub secs: i64,
    pub nanos: u32,
}

/// The pair of instants handed to an output callback: when the callback
/// runs and when the rendered samples would play.
#[derive(Clone, Copy, Debug, PartialEq, Eq, Structural)]
pub struct OutputStreamTimestamp {
    pub callback: StreamInstant,
    pub playback: StreamInstant,
}

/// Timing metadata for one invocation of the output callback.
#[derive(Clone, Copy, Debug, PartialEq, Eq, Structural)]
pub struct OutputCallbackInfo {
    pub timestamp: OutputStreamTimestamp,
}

/// Token standing for ownership of the background rendering context:
/// the joinable reference that teardown waits on.
#[derive(Debug)]
pub struct ContextHandle;

/// Token standing for ownership of the send side of the one-shot
/// cancellation channel paired with the context.
#[derive(Debug)]
pub struct CancelSender;

/// One step a teardown performs, each on a resource consumed by it.
#[derive(Clone, Copy, Debug, PartialEq, Eq, Structural)]
pub enum TeardownAction {
    /// Send the one-shot cancellation signal to the background context.
    SendCancel,
    /// Wait for the background context to observe the signal and exit.
    JoinContext,
}

/// The live handle to a stream, owning at most one background context and
/// at most one cancellation sender.
#[derive(Debug)]
pub struct Stream {
    audio_thread: Option<ContextHandle>,
    sender: Option<CancelSender>,
}

/// The ordered steps a teardown of a stream in state `s` must perform:
/// the cancellation signal, if still owned, strictly before the wait for
/// the context, if still owned.
pub open spec fn teardown_plan(s: Stream) -> Seq<TeardownAction> {
    let signal = if s.has_signal() {
        seq![TeardownAction::SendCancel]
    } else {
        Seq::<TeardownAction>::empty()
    };
    let wait = if s.has_context() {
        seq![TeardownAction::JoinContext]
    } else {
        Seq::<TeardownAction>::empty()
    };
    signal + wait
}

impl Stream {
    /// The stream still owns its background context.
    pub closed spec fn has_context(self) -> bool {
        self.audio_thread is Some
    }

    /// The stream still owns the send side of its cancellation channel.
    pub closed spec fn has_signal(self) -> bool {
        self.sender is Some
    }

    /// A stream with a running context always has a live way to signal it:
    /// the context is never owned without the paired sender.
    pub open spec fn wf(self) -> bool {
        self.has_context() ==> self.has_signal()
    }

    /// Both resources have been released (or never existed): a teardown
    /// of this stream has nothing to do.
    pub open spec fn released(self) -> bool {
        !self.has_context() && !self.has_signal()
    }

    /// Release both owned resources, each exactly once, and return the
    /// steps the caller must perform, in order. On a live stream the plan
    /// is: send the cancellation signal, then wait for the context. On a
    /// stream already released — by an earlier teardown, or built without
    /// a context — the plan is empty: a repeated teardown performs no
    /// operation and cannot fault.
    pub fn teardown(&mut self) -> (actions: Vec<TeardownAction>)
        ensures
            final(self).released(),
            actions@ == teardown_plan(*old(self)),
    {
        let mut actions: Vec<TeardownAction> = Vec::new();
        if self.sender.is_some() {
            self.sender = None;
            actions.push(TeardownAction::SendCancel);
        }
        if self.audio_thread.is_some() {
            self.audio_thread = None;
            actions.push(TeardownAction::JoinContext);
        }
        proof {
            assert(actions@ =~= teardown_plan(*old(self)));
        }
        actions
    }

    /// Starting playback always succeeds and changes nothing: the
    /// background loop is unconditional, not gated on a play state.
    pub fn play(&self) -> (r: Result<(), PlayStreamError>)
        ensures
            r is Ok,
    {
        Ok(())
    }

    /// Pausing always succeeds and changes nothing: the background loop
    /// keeps invoking the callback regardless.
    pub fn pause(&self) -> (r: Result<(), PauseStreamError>)
        ensures
            r is Ok,
    {
        Ok(())
    }
}

/// One decision of the background rendering loop.
#[derive(Clone, Copy, Debug, PartialEq, Eq, Structural)]
pub enum LoopStep {
    /// The cancellation signal was observed: exit the loop; no further
    /// callback invocation occurs.
    Exit,
    /// No cancellation is pending: invoke the rendering callback exactly
    /// once, then poll again.
    InvokeCallback,
}

/// Decide one iteration of the background loop from the result of the
/// non-blocking poll of the cancellation channel. The decision depends on
/// that poll alone — in particular not on any play or pause call.
pub fn loop_step(cancel_observed: bool) -> (step: LoopStep)
    ensures
        step == LoopStep::Exit <==> cancel_observed,
        step == LoopStep::InvokeCallback <==> !cancel_observed,
{
    if cancel_observed {
        LoopStep::Exit
    } else {
        LoopStep::InvokeCallback
    }
}

/// How many times the background loop invokes the rendering callback when
/// its successive polls of the cancellation channel observe `polls`: one
/// invocation per leading poll that saw no signal, none from the first
/// poll that saw it.
pub open spec fn invocations_before_exit(polls: Seq<bool>) -> nat
    decreases polls.len(),
{
    if polls.len() == 0 {
        0
    } else if polls[0] {
        0
    } else {
        (1 + invocations_before_exit(polls.skip(1))) as nat
    }
}

/// The loop stops at the cancellation signal: if the first poll that
/// observes the signal is poll `k`, the callback was invoked exactly `k`
/// times — once per earlier poll and never afterwards.
pub proof fn lemma_invocations_stop_at_cancel(polls: Seq<bool>, k: int)
    requires
        0 <= k < polls.len(),
        polls[k],
        forall|j: int| 0 <= j < k ==> !polls[j],
    ensures
        invocations_before_exit(polls) == k,
    decreases k,
{
    if k > 0 {
        assert(!polls[0]);
        let rest = polls.skip(1);
        assert(rest[k - 1] == polls[k]);
        assert forall|j: int| 0 <= j < k - 1 implies !rest[j] by {
            assert(rest[j] == polls[j + 1]);
        }
        lemma_invocations_stop_at_cancel(rest, k - 1);
    }
}

/// Tearing a stream down before its loop ever found the channel empty
/// freezes the callback: when the very first poll observes the signal,
/// the callback is never invoked.
pub proof fn lemma_immediate_cancel_no_invocation(polls: Seq<bool>)
    requires
        polls.len() > 0,
        polls[0],
    ensures
        invocations_before_exit(polls) == 0,
{
}

/// Liveness: a loop whose first poll finds the channel still empty
/// invokes the rendering callback at least once before it can exit.
pub proof fn lemma_running_loop_invokes(polls: Seq<bool>)
    requires
        polls.len() > 0,
        !polls[0],
    ensures
        invocations_before_exit(polls) >= 1,
{
}

/// In every teardown plan the cancellation signal is sent strictly before
/// the wait for the background context; waiting first would block forever,
/// since the loop exits only on the signal.
pub proof fn lemma_cancel_precedes_join(s: Stream)
    ensures
        forall|i: int, j: int|
            0 <= i < teardown_plan(s).len() && 0 <= j < teardown_plan(s).len()
                && #[trigger] teardown_plan(s)[i] == TeardownAction::SendCancel
                && #[trigger] teardown_plan(s)[j] == TeardownAction::JoinContext ==> i < j,
{
}

/// A teardown is idempotent: once a stream is released, the plan of any
/// further teardown is empty — there is no resource left whose second
/// release could fault.
pub proof fn lemma_teardown_idempotent(s: Stream)
    requires
        s.released(),
    ensures
        teardown_plan(s).len() == 0,
{
}

impl Device {
    /// Build an output stream: pair a fresh background rendering context
    /// with a fresh one-shot cancellation sender and hand both to the
    /// returned handle. Never fails, never blocks waiting for the context
    /// to run. The requested configuration and sample format do not
    /// constrain this backend: any request is accepted.
    pub fn build_output_stream_raw(
        &self,
        _config: &StreamConfig,
        _sample_format: SampleFormat,
    ) -> (r: Result<Stream, BuildStreamError>)
        ensures
            r is Ok,
            r->Ok_0.has_context(),
            r->Ok_0.has_signal(),
            r->Ok_0.wf(),
    {
        Ok(Stream { audio_thread: Some(ContextHandle), sender: Some(CancelSender) })
    }

    /// Build an input stream: this backend never produces input callbacks,
    /// so the handle owns no background context and no sender — its
    /// teardown has nothing to do. Never fails.
    pub fn build_input_stream_raw(
        &self,
        _config: &StreamConfig,
        _sample_format: SampleFormat,
    ) -> (r: Result<Stream, BuildStreamError>)
        ensures
            r is Ok,
            r->Ok_0.released(),
            r->Ok_0.wf(),
    {
        Ok(Stream { audio_thread: None, sender: None })
    }
}

/// The timing metadata handed to every output-callback invocation: a
/// fixed, non-advancing zero timestamp for both the callback time and the
/// synthetic playback time.
pub fn callback_info() -> (info: OutputCallbackInfo)
    ensures
        info.timestamp.callback == (StreamInstant { secs: 0, nanos: 0 }),
        info.timestamp.playback == (StreamInstant { secs: 0, nanos: 0 }),
{
    OutputCallbackInfo {
        timestamp: OutputStreamTimestamp {
            callback: StreamInstant { secs: 0, nanos: 0 },
            playback: StreamInstant { secs: 0, nanos: 0 },
        },
    }
}

} // verus!
