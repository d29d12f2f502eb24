use lzma_safe::coder::{
    decode_step, encode_step, raw_decode_step, CodeCall, CodeOutcome, CoderState, DecodeStep,
    InputChange, Plan, RawDecodeStep,
};
use lzma_safe::error::{LZMA_BUF_ERROR, LZMA_DATA_ERROR, LZMA_OK, LZMA_STREAM_END};
use lzma_safe::{Action, Error};

fn outcome(ret: u32, avail_in: usize, avail_out: usize, total_in: u64, total_out: u64) -> CodeOutcome {
    CodeOutcome {
        ret,
        avail_in,
        avail_out,
        total_in,
        total_out,
    }
}

#[test]
fn encode_plan_rules() {
    let fresh = CoderState::new();
    assert!(!fresh.finished);
    assert_eq!(fresh.total_in, 0);
    assert_eq!(fresh.total_out, 0);

    assert_eq!(
        fresh.plan_encode(Action::Run, false, 10),
        Plan::Code(InputChange::Replace)
    );
    assert_eq!(
        fresh.plan_encode(Action::Finish, false, 0),
        Plan::Code(InputChange::Clear)
    );
    // Legacy encoders accept only Run and Finish.
    assert_eq!(
        fresh.plan_encode(Action::SyncFlush, true, 10),
        Plan::Return(Err(Error::ProgError))
    );
    assert_eq!(
        fresh.plan_encode(Action::FullBarrier, true, 0),
        Plan::Return(Err(Error::ProgError))
    );
    assert_eq!(
        fresh.plan_encode(Action::SyncFlush, false, 4),
        Plan::Code(InputChange::Replace)
    );

    let done = CoderState {
        finished: true,
        total_in: 5,
        total_out: 7,
    };
    assert_eq!(
        done.plan_encode(Action::Finish, false, 0),
        Plan::Return(Err(Error::ProgError))
    );
    assert_eq!(done.plan_encode(Action::Run, false, 3), Plan::Return(Ok((0, 0))));
    assert_eq!(
        done.plan_encode(Action::FullFlush, true, 3),
        Plan::Return(Err(Error::ProgError))
    );
}

#[test]
fn complete_encode_reports_bytes_and_end() {
    let mut s = CoderState::new();
    let r = s.complete_encode(100, 50, outcome(LZMA_OK, 40, 10, 60, 40));
    assert_eq!(r, Ok((60, 40)));
    assert_eq!(s.total_in, 60);
    assert_eq!(s.total_out, 40);
    assert!(!s.finished);

    let r = s.complete_encode(40, 50, outcome(LZMA_STREAM_END, 0, 20, 100, 70));
    assert_eq!(r, Ok((40, 30)));
    assert!(s.finished);
    assert_eq!(s.total_in, 100);

    let mut s = CoderState::new();
    let r = s.complete_encode(10, 10, outcome(LZMA_DATA_ERROR, 10, 10, 0, 0));
    assert_eq!(r, Err(Error::DataError));
    assert!(!s.finished);
}

#[test]
fn decode_plans() {
    let fresh = CoderState::new();
    assert_eq!(fresh.plan_decode(3), Plan::Code(InputChange::Replace));
    // An empty input never lets liblzma read an earlier call's buffer.
    assert_eq!(fresh.plan_decode(0), Plan::Code(InputChange::Clear));
    let done = CoderState {
        finished: true,
        total_in: 0,
        total_out: 0,
    };
    assert_eq!(done.plan_decode(3), Plan::Return(Err(Error::ProgError)));
    assert_eq!(done.plan_decode(0), Plan::Return(Err(Error::ProgError)));
}

#[test]
fn decode_step_single_call() {
    let step = DecodeStep::first(Action::Run, 20, 100, outcome(LZMA_OK, 5, 60, 15, 40));
    assert_eq!(step.read, 15);
    assert_eq!(step.written, 40);
    assert!(!step.call_again);
    let mut state = CoderState::new();
    let r = step.conclude(&mut state, outcome(LZMA_OK, 5, 60, 15, 40));
    assert_eq!(r, Ok((15, 40)));
    assert_eq!(state.total_in, 15);
    assert!(!state.finished);

    let step = DecodeStep::first(Action::Run, 20, 100, outcome(LZMA_STREAM_END, 0, 0, 20, 100));
    let mut state = CoderState::new();
    assert_eq!(step.conclude(&mut state, outcome(LZMA_STREAM_END, 0, 0, 20, 100)), Ok((20, 100)));
    assert!(state.finished);
}

#[test]
fn decode_step_second_call_on_empty_finish() {
    // A fresh decoder finished with no input at all ends the (empty) stream.
    let mut step = DecodeStep::first(Action::Finish, 0, 64, outcome(LZMA_OK, 0, 64, 0, 0));
    assert!(step.call_again);
    step.second(outcome(LZMA_BUF_ERROR, 0, 64, 0, 0));
    assert!(!step.call_again);
    assert_eq!(step.status, LZMA_STREAM_END);
    let mut state = CoderState::new();
    assert_eq!(step.conclude(&mut state, outcome(LZMA_BUF_ERROR, 0, 64, 0, 0)), Ok((0, 0)));
    assert!(state.finished);

    // A truncated stream reports that no progress is possible and stays open.
    let mut step = DecodeStep::first(Action::Finish, 0, 64, outcome(LZMA_OK, 0, 64, 30, 90));
    assert!(step.call_again);
    step.second(outcome(LZMA_BUF_ERROR, 0, 64, 30, 90));
    assert_eq!(step.status, LZMA_BUF_ERROR);
    let mut state = CoderState {
        finished: false,
        total_in: 30,
        total_out: 90,
    };
    assert_eq!(
        step.conclude(&mut state, outcome(LZMA_BUF_ERROR, 0, 64, 30, 90)),
        Err(Error::BufError)
    );
    assert!(!state.finished);
    assert_eq!(state.total_in, 30);

    let mut step = DecodeStep::first(Action::Finish, 0, 64, outcome(LZMA_OK, 0, 64, 30, 90));
    step.second(outcome(LZMA_DATA_ERROR, 0, 64, 30, 90));
    assert_eq!(step.status, LZMA_DATA_ERROR);
    let mut state = CoderState::new();
    assert_eq!(
        step.conclude(&mut state, outcome(LZMA_DATA_ERROR, 0, 64, 30, 90)),
        Err(Error::DataError)
    );
    assert!(!state.finished);

    // Finishing with input does not call again.
    let step = DecodeStep::first(Action::Finish, 5, 64, outcome(LZMA_OK, 5, 64, 0, 0));
    assert!(!step.call_again);
}

#[test]
fn raw_decode_step_progress_and_retries() {
    // Running out of buffer after moving bytes is progress.
    let step = RawDecodeStep::first(Action::Run, 10, 10, outcome(LZMA_BUF_ERROR, 2, 0, 8, 10));
    assert_eq!(step.status, LZMA_OK);
    assert!(!step.call_again());
    let mut state = CoderState::new();
    assert_eq!(step.conclude(&mut state, outcome(LZMA_BUF_ERROR, 2, 0, 8, 10)), Ok((8, 10)));

    // Finishing with nothing moved retries at most twice.
    let mut step = RawDecodeStep::first(Action::Finish, 0, 32, outcome(LZMA_OK, 0, 32, 0, 0));
    assert!(step.call_again());
    step.retry(outcome(LZMA_OK, 0, 32, 0, 0));
    assert_eq!(step.status, LZMA_STREAM_END);
    assert!(!step.call_again());

    let mut step = RawDecodeStep::first(Action::Finish, 0, 32, outcome(LZMA_OK, 0, 32, 4, 0));
    step.retry(outcome(LZMA_OK, 0, 30, 4, 2));
    assert_eq!(step.status, LZMA_OK);
    assert!(step.stopped);
    let mut state = CoderState::new();
    assert_eq!(step.conclude(&mut state, outcome(LZMA_OK, 0, 30, 4, 2)), Ok((0, 2)));

    let mut step = RawDecodeStep::first(Action::Finish, 0, 32, outcome(LZMA_OK, 0, 32, 4, 0));
    step.retry(outcome(LZMA_OK, 0, 32, 4, 0));
    assert!(step.call_again());
    step.retry(outcome(LZMA_STREAM_END, 0, 32, 4, 0));
    assert_eq!(step.retries_left, 0);
    assert!(!step.call_again());
    let mut state = CoderState::new();
    assert_eq!(step.conclude(&mut state, outcome(LZMA_STREAM_END, 0, 32, 4, 0)), Ok((0, 0)));
    assert!(state.finished);
}

/// A stream that replays a fixed list of outcomes.
struct Scripted {
    outcomes: Vec<CodeOutcome>,
    prepared: Vec<InputChange>,
    calls: usize,
}

impl Scripted {
    fn new(outcomes: Vec<CodeOutcome>) -> Scripted {
        Scripted {
            outcomes,
            prepared: Vec::new(),
            calls: 0,
        }
    }
}

impl CodeCall for Scripted {
    fn prepare(&mut self, change: InputChange) {
        self.prepared.push(change);
    }

    fn code(&mut self, _action: Action) -> CodeOutcome {
        let o = self.outcomes[self.calls];
        self.calls += 1;
        o
    }
}

#[test]
fn encode_step_runs_one_call() {
    let mut state = CoderState::new();
    let mut s = Scripted::new(vec![outcome(LZMA_OK, 2, 6, 8, 4)]);
    assert_eq!(encode_step(&mut state, &mut s, Action::Run, false, 10, 10), Ok((8, 4)));
    assert_eq!(s.prepared, vec![InputChange::Replace]);
    assert_eq!(s.calls, 1);
    let mut s = Scripted::new(vec![outcome(LZMA_STREAM_END, 0, 0, 8, 14)]);
    assert_eq!(encode_step(&mut state, &mut s, Action::Finish, false, 0, 10), Ok((0, 10)));
    assert_eq!(s.prepared, vec![InputChange::Clear]);
    assert!(state.finished);
    // A finished encoder is refused without a call and left as it was.
    let before = state;
    let mut s = Scripted::new(vec![]);
    assert_eq!(
        encode_step(&mut state, &mut s, Action::Finish, false, 0, 10),
        Err(Error::ProgError)
    );
    assert_eq!(encode_step(&mut state, &mut s, Action::Run, false, 3, 10), Ok((0, 0)));
    assert_eq!(state, before);
    assert_eq!(s.calls, 0);
}

#[test]
fn decode_steps_refuse_impossible_reports_and_finished_streams() {
    // A report of more input than was given is misuse.
    let mut state = CoderState::new();
    let mut s = Scripted::new(vec![outcome(LZMA_OK, 20, 0, 0, 0)]);
    assert_eq!(
        decode_step(&mut state, &mut s, Action::Run, 10, 10),
        Err(Error::ProgError)
    );
    assert!(!state.finished);

    let mut state = CoderState::new();
    let mut s = Scripted::new(vec![
        outcome(LZMA_OK, 0, 16, 0, 0),
        outcome(LZMA_BUF_ERROR, 0, 16, 0, 0),
    ]);
    assert_eq!(decode_step(&mut state, &mut s, Action::Finish, 0, 16), Ok((0, 0)));
    assert!(state.finished);
    assert_eq!(s.calls, 2);
    let mut s = Scripted::new(vec![]);
    assert_eq!(
        raw_decode_step(&mut state, &mut s, Action::Run, 4, 4),
        Err(Error::ProgError)
    );
    assert_eq!(s.calls, 0);

    // A raw decoder retries when finishing moved nothing.
    let mut state = CoderState::new();
    let mut s = Scripted::new(vec![
        outcome(LZMA_OK, 0, 8, 3, 0),
        outcome(LZMA_OK, 0, 8, 3, 0),
        outcome(LZMA_STREAM_END, 0, 5, 3, 3),
    ]);
    assert_eq!(raw_decode_step(&mut state, &mut s, Action::Finish, 0, 8), Ok((0, 3)));
    assert_eq!(s.calls, 3);
    assert!(state.finished);

    let mut state = CoderState::new();
    let mut s = Scripted::new(vec![outcome(LZMA_DATA_ERROR, 1, 8, 2, 0)]);
    assert_eq!(
        raw_decode_step(&mut state, &mut s, Action::Run, 3, 8),
        Err(Error::DataError)
    );
    assert!(!state.finished);
}
