//! The decisions taken around each `lzma_code` call by the encoders and decoders.
//!
//! A coding step alternates calls into liblzma with decisions: whether to call at
//! all, which input to hand over, whether to call again, what to report and
//! whether the stream has ended. The calls are made by the caller, who hands each
//! outcome back; the decisions are the functions below.

use crate::error::{
    spec_error_of_code, spec_result_of_code, Error, Result, LZMA_BUF_ERROR, LZMA_OK,
    LZMA_STREAM_END,
};
use crate::Action;
use vstd::prelude::*;

verus! {

/// What liblzma reports after one `lzma_code` call.
#[derive(Debug, Clone, Copy, PartialEq, Eq, Structural)]
pub struct CodeOutcome {
    /// The `lzma_ret` status code returned.
    pub ret: u32,
    /// Input bytes still available after the call.
    pub avail_in: usize,
    /// Output space still available after the call.
    pub avail_out: usize,
    /// Total input consumed by the stream so far.
    pub total_in: u64,
    /// Total output produced by the stream so far.
    pub total_out: u64,
}

/// Which input the stream is to see before the call: always this call's
/// input, so that liblzma never reads what an earlier call handed over.
#[derive(Debug, Clone, Copy, PartialEq, Eq, Structural)]
pub enum InputChange {
    /// Hand over the caller's (non-empty) input buffer.
    Replace,
    /// Clear the input pointer: this call brings no input.
    Clear,
}

/// The input change that hands liblzma exactly this call's input.
pub open spec fn spec_input_change(input_len: usize) -> InputChange {
    if input_len > 0 {
        InputChange::Replace
    } else {
        InputChange::Clear
    }
}

/// What to do at the start of a coding step.
#[derive(Debug, Clone, Copy, PartialEq, Eq)]
pub enum Plan {
    /// Report this result without calling liblzma.
    Return(Result<(usize, usize)>),
    /// Set up the buffers (input as given, output always replaced) and call liblzma.
    Code(InputChange),
}

/// The result a step reports for a final status code and the bytes moved:
/// success for `LZMA_OK` and `LZMA_STREAM_END`, the code's error otherwise.
pub open spec fn spec_step_result(ret: u32, read: usize, written: usize) -> Result<(usize, usize)> {
    if ret == LZMA_OK || ret == LZMA_STREAM_END {
        Ok((read, written))
    } else {
        Err(spec_error_of_code(ret))
    }
}

/// The input change that hands liblzma exactly this call's input.
fn input_change(input_len: usize) -> (c: InputChange)
    ensures
        c == spec_input_change(input_len),
{
    if input_len > 0 {
        InputChange::Replace
    } else {
        InputChange::Clear
    }
}

/// Report the result of a step and whether the stream has ended.
fn conclude(ret: u32, read: usize, written: usize) -> (r: (Result<(usize, usize)>, bool))
    ensures
        r.0 == spec_step_result(ret, read, written),
        r.1 == (ret == LZMA_STREAM_END),
{
    if ret == LZMA_OK || ret == LZMA_STREAM_END {
        (Ok((read, written)), ret == LZMA_STREAM_END)
    } else {
        (Err(Error::from(ret)), false)
    }
}

/// Counters and end-of-stream state shared by all encoders and decoders.
#[derive(Debug, Clone, Copy, PartialEq, Eq, Structural)]
pub struct CoderState {
    /// Whether the stream has ended and been released.
    pub finished: bool,
    /// Total number of bytes read from input so far.
    pub total_in: u64,
    /// Total number of bytes written to output so far.
    pub total_out: u64,
}

impl CoderState {
    /// What an encoding step reports without calling liblzma, if anything:
    /// the legacy encoders refuse flush actions, and a finished stream refuses
    /// `Finish` and reports no progress for the other actions.
    pub open spec fn plan_encode_result(self, action: Action, run_finish_only: bool) -> Option<
        Result<(usize, usize)>,
    > {
        if run_finish_only && action != Action::Run && action != Action::Finish {
            Some(Err(Error::ProgError))
        } else if self.finished {
            Some(
                if action == Action::Finish {
                    Err(Error::ProgError)
                } else {
                    Ok((0usize, 0usize))
                },
            )
        } else {
            None
        }
    }

    /// A freshly initialised stream.
    pub fn new() -> (s: CoderState)
        ensures
            !s.finished,
            s.total_in == 0,
            s.total_out == 0,
    {
        CoderState { finished: false, total_in: 0, total_out: 0 }
    }

    /// Start of an encoding step (`.xz` encoder when `run_finish_only` is false,
    /// `.lzma` and raw encoders when it is true).
    ///
    /// The legacy encoders accept only `Run` and `Finish`; a finished stream
    /// refuses `Finish` and reports no progress for the other actions. A call
    /// to liblzma sees exactly this call's input.
    pub fn plan_encode(&self, action: Action, run_finish_only: bool, input_len: usize) -> (p: Plan)
        ensures
            run_finish_only && action != Action::Run && action != Action::Finish ==> p
                == Plan::Return(Err(Error::ProgError)),
            !(run_finish_only && action != Action::Run && action != Action::Finish)
                && self.finished ==> p == Plan::Return(
                if action == Action::Finish {
                    Err(Error::ProgError)
                } else {
                    Ok((0usize, 0usize))
                },
            ),
            !(run_finish_only && action != Action::Run && action != Action::Finish)
                && !self.finished ==> p == Plan::Code(spec_input_change(input_len)),
    {
        if run_finish_only && action != Action::Run && action != Action::Finish {
            return Plan::Return(Err(Error::ProgError));
        }
        if self.finished {
            if action == Action::Finish {
                return Plan::Return(Err(Error::ProgError));
            }
            return Plan::Return(Ok((0, 0)));
        }
        Plan::Code(input_change(input_len))
    }

    /// End of an encoding step, after the single `lzma_code` call.
    ///
    /// Reports the bytes moved by the call; the stream ends on `LZMA_STREAM_END`.
    pub fn complete_encode(&mut self, in_before: usize, out_before: usize, o: CodeOutcome) -> (r:
        Result<(usize, usize)>)
        requires
            o.avail_in <= in_before,
            o.avail_out <= out_before,
        ensures
            r == spec_step_result(
                o.ret,
                (in_before - o.avail_in) as usize,
                (out_before - o.avail_out) as usize,
            ),
            final(self).total_in == o.total_in,
            final(self).total_out == o.total_out,
            final(self).finished == (old(self).finished || o.ret == LZMA_STREAM_END),
            r matches Ok((read, written)) ==> read <= in_before && written <= out_before,
            r != Err::<(usize, usize), Error>(Error::StreamEnd),
            r is Err ==> final(self).finished == old(self).finished,
    {
        let read = in_before - o.avail_in;
        let written = out_before - o.avail_out;
        self.total_in = o.total_in;
        self.total_out = o.total_out;
        let (r, ended) = conclude(o.ret, read, written);
        if ended {
            self.finished = true;
        }
        r
    }

    /// Start of a decoding step (`.xz`, `.lzma`, auto and raw decoders).
    ///
    /// A finished stream is misuse; a call to liblzma sees exactly this call's
    /// input.
    pub fn plan_decode(&self, input_len: usize) -> (p: Plan)
        ensures
            self.finished ==> p == Plan::Return(Err(Error::ProgError)),
            !self.finished ==> p == Plan::Code(spec_input_change(input_len)),
    {
        if self.finished {
            return Plan::Return(Err(Error::ProgError));
        }
        Plan::Code(input_change(input_len))
    }
}

/// Whether the decoders call liblzma a second time: when finishing with no input
/// at all, a first call that succeeded without moving a byte may need one more
/// call before liblzma reports the end of the stream.
pub open spec fn spec_needs_second_call(
    action: Action,
    in_before: usize,
    first: CodeOutcome,
    read: int,
    written: int,
) -> bool {
    action == Action::Finish && first.ret == LZMA_OK && in_before == 0 && read == 0 && written == 0
}

/// The status a decoder keeps after its second call. On a stream that has
/// never been given a byte, a call that succeeded or ran out of buffer without
/// moving a byte counts as the end of the (empty) input; anywhere else the
/// call's own status stands, so a truncated stream reports that no progress is
/// possible.
pub open spec fn spec_second_status(ret: u32, read: int, written: int, total_in: u64) -> u32 {
    if (ret == LZMA_OK || ret == LZMA_BUF_ERROR) && read == 0 && written == 0 && total_in == 0 {
        LZMA_STREAM_END
    } else {
        ret
    }
}

/// A decoding step in progress (`.xz`, `.lzma` and auto decoders).
#[derive(Debug, Clone, Copy, PartialEq, Eq, Structural)]
pub struct DecodeStep {
    /// The action of the step.
    pub action: Action,
    /// Input available before the first call.
    pub in_before: usize,
    /// Output space available before the first call.
    pub out_before: usize,
    /// Bytes read by the first call.
    pub read: usize,
    /// Bytes written by the first call.
    pub written: usize,
    /// Whether liblzma is to be called once more.
    pub call_again: bool,
    /// Status code of the last call.
    pub status: u32,
}

impl DecodeStep {
    /// The bytes counted by the step fit in the buffers it was given.
    pub open spec fn wf(self) -> bool {
        self.read <= self.in_before && self.written <= self.out_before
    }

    /// Record the outcome of the first call of a decoding step.
    pub fn first(action: Action, in_before: usize, out_before: usize, o: CodeOutcome) -> (s:
        DecodeStep)
        requires
            o.avail_in <= in_before,
            o.avail_out <= out_before,
        ensures
            s.wf(),
            s.action == action,
            s.in_before == in_before,
            s.out_before == out_before,
            s.read == in_before - o.avail_in,
            s.written == out_before - o.avail_out,
            s.status == o.ret,
            s.call_again == spec_needs_second_call(
                action,
                in_before,
                o,
                in_before - o.avail_in,
                out_before - o.avail_out,
            ),
    {
        let read = in_before - o.avail_in;
        let written = out_before - o.avail_out;
        let call_again = action == Action::Finish && o.ret == LZMA_OK && in_before == 0 && read
            == 0 && written == 0;
        DecodeStep { action, in_before, out_before, read, written, call_again, status: o.ret }
    }

    /// Record the outcome of the second call.
    pub fn second(&mut self, o: CodeOutcome)
        requires
            old(self).wf(),
            old(self).call_again,
            o.avail_in <= old(self).in_before,
            o.avail_out <= old(self).out_before,
        ensures
            final(self).wf(),
            !final(self).call_again,
            final(self).status == spec_second_status(
                o.ret,
                old(self).in_before - o.avail_in,
                old(self).out_before - o.avail_out,
                o.total_in,
            ),
            final(self).read == old(self).read,
            final(self).written == old(self).written,
            final(self).in_before == old(self).in_before,
            final(self).out_before == old(self).out_before,
            final(self).action == old(self).action,
    {
        let second_read = self.in_before - o.avail_in;
        let second_written = self.out_before - o.avail_out;
        self.call_again = false;
        if (o.ret == LZMA_OK || o.ret == LZMA_BUF_ERROR) && second_read == 0 && second_written
            == 0 && o.total_in == 0 {
            self.status = LZMA_STREAM_END;
        } else {
            self.status = o.ret;
        }
    }

    /// Conclude the step: the bytes moved by the first call, or the error of the
    /// last status; the state takes the totals of the last call and ends on
    /// `LZMA_STREAM_END`.
    pub fn conclude(&self, state: &mut CoderState, last: CodeOutcome) -> (r: Result<(usize, usize)>)
        requires
            self.wf(),
            !self.call_again,
        ensures
            r == spec_step_result(self.status, self.read, self.written),
            r matches Ok((read, written)) ==> read <= self.in_before && written <= self.out_before,
            r != Err::<(usize, usize), Error>(Error::StreamEnd),
            r is Err ==> final(state).finished == old(state).finished,
            final(state).total_in == last.total_in,
            final(state).total_out == last.total_out,
            final(state).finished == (old(state).finished || self.status == LZMA_STREAM_END),
    {
        state.total_in = last.total_in;
        state.total_out = last.total_out;
        let (r, ended) = conclude(self.status, self.read, self.written);
        if ended {
            state.finished = true;
        }
        r
    }
}

/// The number of extra calls a raw decoder may make when finishing.
pub const RAW_MAX_RETRIES: u32 = 2;

/// A raw decoding step in progress.
#[derive(Debug, Clone, Copy, PartialEq, Eq, Structural)]
pub struct RawDecodeStep {
    /// The action of the step.
    pub action: Action,
    /// Input available before the first call.
    pub in_before: usize,
    /// Output space available before the first call.
    pub out_before: usize,
    /// Input available after the last call.
    pub avail_in: usize,
    /// Output space available after the last call.
    pub avail_out: usize,
    /// Status code the step stands at.
    pub status: u32,
    /// Extra calls still allowed.
    pub retries_left: u32,
    /// Whether the retry loop has stopped.
    pub stopped: bool,
}

/// The status a raw decoder keeps after its first call: running out of buffer
/// after moving bytes is progress, not an error.
pub open spec fn spec_raw_first_status(ret: u32, read: int, written: int) -> u32 {
    if ret == LZMA_BUF_ERROR && (read != 0 || written != 0) {
        LZMA_OK
    } else {
        ret
    }
}

impl RawDecodeStep {
    /// Bytes read so far in this step.
    pub open spec fn spec_read(self) -> int {
        self.in_before - self.avail_in
    }

    /// Bytes written so far in this step.
    pub open spec fn spec_written(self) -> int {
        self.out_before - self.avail_out
    }

    /// The step's bookkeeping is consistent: buffers only shrink.
    pub open spec fn wf(self) -> bool {
        self.avail_in <= self.in_before && self.avail_out <= self.out_before && self.retries_left
            <= RAW_MAX_RETRIES
    }

    /// Whether liblzma is to be called once more: retries remain, the loop has not
    /// stopped, and the status is success or an out-of-buffer report.
    pub open spec fn spec_call_again(self) -> bool {
        !self.stopped && self.retries_left > 0 && (self.status == LZMA_OK || self.status
            == LZMA_BUF_ERROR)
    }

    /// Record the outcome of the first call of a raw decoding step. Retries are
    /// allowed only when finishing and the first call moved no byte.
    pub fn first(action: Action, in_before: usize, out_before: usize, o: CodeOutcome) -> (s:
        RawDecodeStep)
        requires
            o.avail_in <= in_before,
            o.avail_out <= out_before,
        ensures
            s.wf(),
            s.action == action,
            s.in_before == in_before,
            s.out_before == out_before,
            s.avail_in == o.avail_in,
            s.avail_out == o.avail_out,
            s.status == spec_raw_first_status(
                o.ret,
                in_before - o.avail_in,
                out_before - o.avail_out,
            ),
            (action == Action::Finish && s.spec_read() == 0 && s.spec_written() == 0) ==> (
            s.retries_left == RAW_MAX_RETRIES && !s.stopped),
            !(action == Action::Finish && s.spec_read() == 0 && s.spec_written() == 0) ==> (
            s.retries_left == 0 && s.stopped),
    {
        let read = in_before - o.avail_in;
        let written = out_before - o.avail_out;
        let status = if o.ret == LZMA_BUF_ERROR && (read != 0 || written != 0) {
            LZMA_OK
        } else {
            o.ret
        };
        let retrying = action == Action::Finish && read == 0 && written == 0;
        RawDecodeStep {
            action,
            in_before,
            out_before,
            avail_in: o.avail_in,
            avail_out: o.avail_out,
            status,
            retries_left: if retrying {
                RAW_MAX_RETRIES
            } else {
                0
            },
            stopped: !retrying,
        }
    }

    /// Whether liblzma is to be called once more.
    pub fn call_again(&self) -> (b: bool)
        ensures
            b == self.spec_call_again(),
    {
        !self.stopped && self.retries_left > 0 && (self.status == LZMA_OK || self.status
            == LZMA_BUF_ERROR)
    }

    /// Record the outcome of a retry.
    ///
    /// The end of the stream stops the loop; so does a retry on a stream that has
    /// not consumed any input and moved nothing (it counts as the end); any other
    /// outcome becomes the status, and a retry that moved bytes stops the loop
    /// unless it succeeded on a stream that has consumed no input.
    pub fn retry(&mut self, o: CodeOutcome)
        requires
            old(self).wf(),
            old(self).spec_call_again(),
            o.avail_in <= old(self).avail_in,
            o.avail_out <= old(self).avail_out,
        ensures
            final(self).wf(),
            final(self).retries_left == old(self).retries_left - 1,
            final(self).avail_in == o.avail_in,
            final(self).avail_out == o.avail_out,
            final(self).in_before == old(self).in_before,
            final(self).out_before == old(self).out_before,
            final(self).action == old(self).action,
            ({
                let moved = o.avail_in != old(self).avail_in || o.avail_out != old(self).avail_out;
                if o.ret == LZMA_STREAM_END {
                    final(self).status == LZMA_STREAM_END && final(self).stopped
                } else if (o.ret == LZMA_OK || o.ret == LZMA_BUF_ERROR) && o.total_in == 0 {
                    if !moved {
                        final(self).status == LZMA_STREAM_END && final(self).stopped
                    } else {
                        final(self).status == o.ret && !final(self).stopped
                    }
                } else {
                    final(self).status == o.ret && final(self).stopped == moved
                }
            }),
    {
        let moved = o.avail_in != self.avail_in || o.avail_out != self.avail_out;
        self.avail_in = o.avail_in;
        self.avail_out = o.avail_out;
        self.retries_left = self.retries_left - 1;
        if o.ret == LZMA_STREAM_END {
            self.status = LZMA_STREAM_END;
            self.stopped = true;
        } else if (o.ret == LZMA_OK || o.ret == LZMA_BUF_ERROR) && o.total_in == 0 {
            if !moved {
                self.status = LZMA_STREAM_END;
                self.stopped = true;
            } else {
                self.status = o.ret;
            }
        } else {
            self.status = o.ret;
            self.stopped = moved;
        }
    }

    /// Conclude the step: all bytes moved by its calls, or the error of the
    /// status; the state takes the totals of the last call and ends on
    /// `LZMA_STREAM_END`.
    pub fn conclude(&self, state: &mut CoderState, last: CodeOutcome) -> (r: Result<(usize, usize)>)
        requires
            self.wf(),
            !self.spec_call_again(),
        ensures
            r == spec_step_result(
                self.status,
                self.spec_read() as usize,
                self.spec_written() as usize,
            ),
            r matches Ok((read, written)) ==> read <= self.in_before && written <= self.out_before,
            r != Err::<(usize, usize), Error>(Error::StreamEnd),
            r is Err ==> final(state).finished == old(state).finished,
            final(state).total_in == last.total_in,
            final(state).total_out == last.total_out,
            final(state).finished == (old(state).finished || self.status == LZMA_STREAM_END),
    {
        state.total_in = last.total_in;
        state.total_out = last.total_out;
        let (r, ended) = conclude(
            self.status,
            self.in_before - self.avail_in,
            self.out_before - self.avail_out,
        );
        if ended {
            state.finished = true;
        }
        r
    }
}

/// One stream that liblzma works on, as a coding step sees it: the step tells
/// it which input to take and asks it to run one `lzma_code` call. What a call
/// reports is not trusted: a report of more buffer than the call was given is
/// treated as misuse.
pub trait CodeCall {
    /// Hand the stream this step's input (or none) and this step's output buffer.
    fn prepare(&mut self, change: InputChange);

    /// Run one `lzma_code` call with `action` and report its outcome.
    fn code(&mut self, action: Action) -> CodeOutcome;
}

/// Whether a stream's byte counter went from `before` to `after` by exactly
/// `moved` bytes.
fn advanced_by(before: u64, moved: usize, after: u64) -> (b: bool)
    ensures
        b == (after == before + moved),
{
    match before.checked_add(moved as u64) {
        Some(total) => total == after,
        None => false,
    }
}

/// One encoding step (`.xz` encoder when `run_finish_only` is false, `.lzma`
/// and raw encoders when it is true): the plan, the call and its conclusion.
///
/// A finished encoder is refused as `plan_encode` says and left as it was;
/// otherwise the step reports the bytes moved, within this call's buffers, or
/// the call's error, and never reports the end of the stream as an error.
pub fn encode_step<S: CodeCall>(
    state: &mut CoderState,
    stream: &mut S,
    action: Action,
    run_finish_only: bool,
    input_len: usize,
    output_len: usize,
) -> (r: Result<(usize, usize)>)
    ensures
        r != Err::<(usize, usize), Error>(Error::StreamEnd),
        old(state).plan_encode_result(action, run_finish_only) matches Some(early) ==> (r == early
            && *final(state) == *old(state)),
        r matches Ok((read, written)) ==> read <= input_len && written <= output_len,
        r is Err ==> final(state).finished == old(state).finished,
        old(state).finished ==> final(state).finished,
        r matches Ok((read, written)) ==> final(state).total_in == old(state).total_in + read
            && final(state).total_out == old(state).total_out + written,
{
    match state.plan_encode(action, run_finish_only, input_len) {
        Plan::Return(r) => r,
        Plan::Code(change) => {
            stream.prepare(change);
            let in_before = if input_len > 0 {
                input_len
            } else {
                0
            };
            let o = stream.code(action);
            if o.avail_in > in_before || o.avail_out > output_len {
                return Err(Error::ProgError);
            }
            if !advanced_by(state.total_in, in_before - o.avail_in, o.total_in) || !advanced_by(
                state.total_out,
                output_len - o.avail_out,
                o.total_out,
            ) {
                return Err(Error::ProgError);
            }
            state.complete_encode(in_before, output_len, o)
        },
    }
}

/// One decoding step of the `.xz`, `.lzma` and auto decoders: the plan, the
/// call, a second call where `DecodeStep` asks for one, and the conclusion.
///
/// A finished decoder is refused with `ProgError` and left as it was;
/// otherwise the step reports the bytes moved, within this call's buffers, or
/// the call's error, never reports the end of the stream as an error, and a
/// failed step leaves the decoder unfinished.
pub fn decode_step<S: CodeCall>(
    state: &mut CoderState,
    stream: &mut S,
    action: Action,
    input_len: usize,
    output_len: usize,
) -> (r: Result<(usize, usize)>)
    ensures
        r != Err::<(usize, usize), Error>(Error::StreamEnd),
        old(state).finished ==> (r == Err::<(usize, usize), Error>(Error::ProgError)
            && *final(state) == *old(state)),
        r matches Ok((read, written)) ==> read <= input_len && written <= output_len,
        !old(state).finished && r is Err ==> !final(state).finished,
        r matches Ok((read, written)) ==> final(state).total_in == old(state).total_in + read,
        r matches Ok((read, written)) ==> (final(state).total_out == old(state).total_out + written
            || (written == 0 && input_len == 0 && action == Action::Finish)),
{
    match state.plan_decode(input_len) {
        Plan::Return(r) => r,
        Plan::Code(change) => {
            stream.prepare(change);
            let in_before = if input_len > 0 {
                input_len
            } else {
                0
            };
            let first = stream.code(action);
            if first.avail_in > in_before || first.avail_out > output_len {
                return Err(Error::ProgError);
            }
            if !advanced_by(state.total_in, in_before - first.avail_in, first.total_in)
                || !advanced_by(state.total_out, output_len - first.avail_out, first.total_out) {
                return Err(Error::ProgError);
            }
            let mut step = DecodeStep::first(action, in_before, output_len, first);
            let mut last = first;
            if step.call_again {
                let again = stream.code(action);
                if again.avail_in > first.avail_in || again.avail_out > first.avail_out {
                    return Err(Error::ProgError);
                }
                if !advanced_by(first.total_in, first.avail_in - again.avail_in, again.total_in)
                    || !advanced_by(
                    first.total_out,
                    first.avail_out - again.avail_out,
                    again.total_out,
                ) {
                    return Err(Error::ProgError);
                }
                step.second(again);
                last = again;
            }
            step.conclude(state, last)
        },
    }
}

/// One raw decoding step: the plan, the call, the retries that
/// `RawDecodeStep` allows, and the conclusion.
///
/// A finished decoder is refused with `ProgError` and left as it was;
/// otherwise the step reports the bytes moved, within this call's buffers, or
/// the call's error, never reports the end of the stream as an error, and a
/// failed step leaves the decoder unfinished.
pub fn raw_decode_step<S: CodeCall>(
    state: &mut CoderState,
    stream: &mut S,
    action: Action,
    input_len: usize,
    output_len: usize,
) -> (r: Result<(usize, usize)>)
    ensures
        r != Err::<(usize, usize), Error>(Error::StreamEnd),
        old(state).finished ==> (r == Err::<(usize, usize), Error>(Error::ProgError)
            && *final(state) == *old(state)),
        r matches Ok((read, written)) ==> read <= input_len && written <= output_len,
        !old(state).finished && r is Err ==> !final(state).finished,
        r matches Ok((read, written)) ==> final(state).total_out == old(state).total_out + written,
{
    match state.plan_decode(input_len) {
        Plan::Return(r) => r,
        Plan::Code(change) => {
            stream.prepare(change);
            let in_before = if input_len > 0 {
                input_len
            } else {
                0
            };
            let first = stream.code(action);
            if first.avail_in > in_before || first.avail_out > output_len {
                return Err(Error::ProgError);
            }
            if !advanced_by(state.total_out, output_len - first.avail_out, first.total_out) {
                return Err(Error::ProgError);
            }
            let mut step = RawDecodeStep::first(action, in_before, output_len, first);
            let mut last = first;
            while step.call_again()
                invariant
                    step.wf(),
                    step.in_before == in_before,
                    step.out_before == output_len,
                    in_before <= input_len,
                    !state.finished,
                    last.avail_out == step.avail_out,
                    last.total_out == state.total_out + (output_len - step.avail_out),
                decreases step.retries_left,
            {
                let again = stream.code(action);
                if again.avail_in > step.avail_in || again.avail_out > step.avail_out {
                    return Err(Error::ProgError);
                }
                if !advanced_by(last.total_out, last.avail_out - again.avail_out, again.total_out) {
                    return Err(Error::ProgError);
                }
                step.retry(again);
                last = again;
            }
            step.conclude(state, last)
        },
    }
}

/// A step that ends the stream reports success.
pub proof fn lemma_stream_end_is_success(read: usize, written: usize)
    ensures
        spec_step_result(LZMA_STREAM_END, read, written) == Ok::<(usize, usize), Error>(
            (read, written),
        ),
{
}

/// No step reports the end of the stream as an error.
pub proof fn lemma_step_result_never_stream_end(ret: u32, read: usize, written: usize)
    ensures
        spec_step_result(ret, read, written) != Err::<(usize, usize), Error>(Error::StreamEnd),
{
}

/// A step reports an error exactly when the status code is neither `LZMA_OK` nor
/// `LZMA_STREAM_END`, and then it is the code's error.
pub proof fn lemma_step_result_matches_code(ret: u32, read: usize, written: usize)
    requires
        ret != LZMA_STREAM_END,
    ensures
        spec_step_result(ret, read, written) == match spec_result_of_code(ret, (read, written)) {
            Ok(v) => Ok(v),
            Err(e) => Err(e),
        },
{
}

} // verus!
