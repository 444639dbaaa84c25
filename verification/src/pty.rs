use vstd::prelude::*;

verus! {

/// An event from the pseudo-terminal reader: a chunk of child output in
/// the order it was produced, or the end of the session. After `Exit`
/// nothing further is emitted.
#[derive(Debug)]
pub enum PtyEvent {
    Output(Vec<u8>),
    Exit,
}

/// What one non-blocking `read` on the master descriptor came to:
/// `Read(0)` is end-of-file.
#[derive(Clone, Copy, Debug, PartialEq, Eq, Structural)]
pub enum ReadOutcome {
    Read(usize),
    WouldBlock,
    OtherError,
}

/// What the reader does next: emit the bytes just read and keep
/// reading, go back to waiting for readiness, or emit `Exit` and stop.
#[derive(Clone, Copy, Debug, PartialEq, Eq, Structural)]
pub enum ReaderAction {
    EmitOutput,
    BackToWait,
    EmitExitAndStop,
}

/// The reader policy: end-of-file or a real error ends the session;
/// would-block returns to the readiness wait; data is emitted as one
/// output chunk per read.
pub fn reader_step(outcome: ReadOutcome) -> (a: ReaderAction)
    ensures
        a == (match outcome {
            ReadOutcome::Read(n) => if n == 0 { ReaderAction::EmitExitAndStop } else { ReaderAction::EmitOutput },
            ReadOutcome::WouldBlock => ReaderAction::BackToWait,
            ReadOutcome::OtherError => ReaderAction::EmitExitAndStop,
        }),
{
    match outcome {
        ReadOutcome::Read(n) => {
            if n == 0 {
                ReaderAction::EmitExitAndStop
            } else {
                ReaderAction::EmitOutput
            }
        }
        ReadOutcome::WouldBlock => ReaderAction::BackToWait,
        ReadOutcome::OtherError => ReaderAction::EmitExitAndStop,
    }
}

/// What one non-blocking `write` on the master descriptor came to.
#[derive(Clone, Copy, Debug, PartialEq, Eq, Structural)]
pub enum WriteOutcome {
    Wrote(usize),
    Interrupted,
    WouldBlock,
    OtherError,
}

/// What the writer does next: done, retry at a new offset, retry at
/// once, sleep briefly and retry, or fail the write.
#[derive(Clone, Copy, Debug, PartialEq, Eq, Structural)]
pub enum WriteAction {
    Done,
    Continue(usize),
    Retry,
    SleepRetry,
    Fail,
}

/// The write-retry policy: an interrupted call retries at once,
/// would-block sleeps briefly and retries, zero progress without
/// would-block is a fatal anomaly, any other error fails the write, and
/// progress advances the offset until all bytes are out.
pub fn write_step(outcome: WriteOutcome, written: usize, total: usize) -> (a: WriteAction)
    requires
        written < total,
    ensures
        a == (match outcome {
            WriteOutcome::Wrote(n) =>
                if n == 0 { WriteAction::Fail }
                else if n >= total - written { WriteAction::Done }
                else { WriteAction::Continue((written + n) as usize) },
            WriteOutcome::Interrupted => WriteAction::Retry,
            WriteOutcome::WouldBlock => WriteAction::SleepRetry,
            WriteOutcome::OtherError => WriteAction::Fail,
        }),
{
    match outcome {
        WriteOutcome::Wrote(n) => {
            if n == 0 {
                WriteAction::Fail
            } else if n >= total - written {
                WriteAction::Done
            } else {
                WriteAction::Continue(written + n)
            }
        }
        WriteOutcome::Interrupted => WriteAction::Retry,
        WriteOutcome::WouldBlock => WriteAction::SleepRetry,
        WriteOutcome::OtherError => WriteAction::Fail,
    }
}

} // verus!
