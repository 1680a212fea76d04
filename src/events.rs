//! What the background tasks and the session write into the log: chunks read
//! from the terminal device, the child's exit, and lifecycle notices.

use vstd::prelude::*;
use vstd::string::StringExecFns;
use vstd::utf8::{decode_utf8, valid_utf8};

use crate::log::{appended, CommandStream, TerminalLog};

verus! {

/// Largest number of bytes taken from the device in one read.
pub const READ_CHUNK_SIZE: usize = 4096;

/// Text of the bytes, with every ill-formed sequence replaced by U+FFFD.
pub uninterp spec fn lossy_text(bytes: Seq<u8>) -> Seq<char>;

/// Relies on `String::from_utf8_lossy`: well-formed UTF-8 is decoded as it
/// stands, and the result depends on the bytes alone.
#[verifier::external_body]
fn decode_lossy(bytes: &[u8]) -> (r: String)
    ensures
        r@ == lossy_text(bytes@),
        valid_utf8(bytes@) ==> r@ == decode_utf8(bytes@),
{
    String::from_utf8_lossy(bytes).into_owned()
}

/// What one read from the controlling end of the device gave.
pub enum ReadOutcome {
    /// The bytes read; none means the end of the stream.
    Bytes(Vec<u8>),
    /// The read failed, for the given cause.
    Failed(String),
}

/// How the child's end was observed.
pub enum ExitOutcome {
    /// The child terminated; `success` tells whether its status counts as success.
    Exited { success: bool, code: u32 },
    /// Waiting on the child failed, for the given cause.
    WaitFailed(String),
}

pub open spec fn digit(d: nat) -> char {
    seq!['0', '1', '2', '3', '4', '5', '6', '7', '8', '9'][d as int]
}

/// Decimal notation of `n`, without leading zeros.
pub open spec fn decimal(n: nat) -> Seq<char>
    decreases n,
{
    if n < 10 {
        seq![digit(n)]
    } else {
        decimal(n / 10) + seq![digit(n % 10)]
    }
}

pub open spec fn reader_error_text(cause: Seq<char>) -> Seq<char> {
    "reader error: "@ + cause + "\n"@
}

pub open spec fn completed_text() -> Seq<char> {
    "Command completed successfully.\n"@
}

pub open spec fn exited_text(code: u32) -> Seq<char> {
    "Command exited with status "@ + decimal(code as nat) + ".\n"@
}

pub open spec fn wait_failed_text(cause: Seq<char>) -> Seq<char> {
    "Failed to wait on command: "@ + cause + "\n"@
}

pub open spec fn ready_text() -> Seq<char> {
    "PTY initialized. Ready to attach commands.\n"@
}

pub open spec fn launching_text() -> Seq<char> {
    "Launching command...\n"@
}

pub open spec fn spawn_failed_text(cause: Seq<char>) -> Seq<char> {
    "Failed to spawn command: "@ + cause + "\n"@
}

/// The log after the outcome of one read is recorded.
pub open spec fn after_read(log: Seq<char>, outcome: ReadOutcome) -> Seq<char> {
    match outcome {
        ReadOutcome::Bytes(b) => if b@.len() == 0 {
            log
        } else {
            appended(log, CommandStream::Stdout, lossy_text(b@))
        },
        ReadOutcome::Failed(cause) => appended(log, CommandStream::Stderr, reader_error_text(cause@)),
    }
}

/// Whether the reader goes on after this outcome.
pub open spec fn reads_on(outcome: ReadOutcome) -> bool {
    outcome matches ReadOutcome::Bytes(b) && b@.len() > 0
}

/// The log after the child's end is recorded.
pub open spec fn after_exit(log: Seq<char>, outcome: ExitOutcome) -> Seq<char> {
    match outcome {
        ExitOutcome::Exited { success, code } => if success {
            appended(log, CommandStream::Stdout, completed_text())
        } else {
            appended(log, CommandStream::Stderr, exited_text(code))
        },
        ExitOutcome::WaitFailed(cause) => appended(
            log,
            CommandStream::Stderr,
            wait_failed_text(cause@),
        ),
    }
}

fn digit_str(d: u32) -> (r: &'static str)
    requires
        d < 10,
    ensures
        r@ == seq![digit(d as nat)],
{
    proof {
        reveal_strlit("0");
        reveal_strlit("1");
        reveal_strlit("2");
        reveal_strlit("3");
        reveal_strlit("4");
        reveal_strlit("5");
        reveal_strlit("6");
        reveal_strlit("7");
        reveal_strlit("8");
        reveal_strlit("9");
    }
    if d == 0 {
        "0"
    } else if d == 1 {
        "1"
    } else if d == 2 {
        "2"
    } else if d == 3 {
        "3"
    } else if d == 4 {
        "4"
    } else if d == 5 {
        "5"
    } else if d == 6 {
        "6"
    } else if d == 7 {
        "7"
    } else if d == 8 {
        "8"
    } else {
        "9"
    }
}

fn push_decimal(s: &mut String, n: u32)
    ensures
        final(s)@ == old(s)@ + decimal(n as nat),
    decreases n,
{
    if n >= 10 {
        push_decimal(s, n / 10);
    }
    s.append(digit_str(n % 10));
    assert(final(s)@ =~= old(s)@ + decimal(n as nat));
}

/// Decimal notation of `n`.
pub fn decimal_text(n: u32) -> (r: String)
    ensures
        r@ == decimal(n as nat),
{
    let mut s = String::new();
    push_decimal(&mut s, n);
    assert(s@ =~= decimal(n as nat));
    s
}

/// `head`, then `cause`, then `tail`.
fn framed(head: &str, cause: &str, tail: &str) -> (r: String)
    ensures
        r@ == head@ + cause@ + tail@,
{
    let mut s = String::from_str(head);
    s.append(cause);
    s.append(tail);
    s
}

impl TerminalLog {
    /// Records one read of the reader task and tells whether it reads on:
    /// bytes are decoded lossily and appended as output; no bytes end the
    /// stream with nothing appended; a failure appends a diagnostic and ends it.
    pub fn record_read(&mut self, outcome: &ReadOutcome) -> (more: bool)
        ensures
            final(self)@ == after_read(old(self)@, *outcome),
            more == reads_on(*outcome),
    {
        match outcome {
            ReadOutcome::Bytes(b) => {
                if b.len() == 0 {
                    false
                } else {
                    let text = decode_lossy(b.as_slice());
                    self.push_output(CommandStream::Stdout, text.as_str());
                    true
                }
            },
            ReadOutcome::Failed(cause) => {
                let text = framed("reader error: ", cause.as_str(), "\n");
                self.push_output(CommandStream::Stderr, text.as_str());
                false
            },
        }
    }

    /// Records how the child ended: success as output, any other status or a
    /// failed wait as a diagnostic.
    pub fn record_exit(&mut self, outcome: &ExitOutcome)
        ensures
            final(self)@ == after_exit(old(self)@, *outcome),
    {
        match outcome {
            ExitOutcome::Exited { success, code } => {
                if *success {
                    self.push_output(CommandStream::Stdout, "Command completed successfully.\n");
                } else {
                    let digits = decimal_text(*code);
                    let text = framed("Command exited with status ", digits.as_str(), ".\n");
                    self.push_output(CommandStream::Stderr, text.as_str());
                }
            },
            ExitOutcome::WaitFailed(cause) => {
                let text = framed("Failed to wait on command: ", cause.as_str(), "\n");
                self.push_output(CommandStream::Stderr, text.as_str());
            },
        }
    }

    /// Records that the device is open and commands can be attached.
    pub fn record_ready(&mut self)
        ensures
            final(self)@ == appended(old(self)@, CommandStream::Stdout, ready_text()),
    {
        self.push_output(CommandStream::Stdout, "PTY initialized. Ready to attach commands.\n");
    }

    /// Records that a command is about to be started.
    pub fn record_launch(&mut self)
        ensures
            final(self)@ == appended(old(self)@, CommandStream::Stdout, launching_text()),
    {
        self.push_output(CommandStream::Stdout, "Launching command...\n");
    }

    /// Records that a command could not be started, for the given cause.
    pub fn record_spawn_failure(&mut self, cause: &str)
        ensures
            final(self)@ == appended(old(self)@, CommandStream::Stderr, spawn_failed_text(cause@)),
    {
        let text = framed("Failed to spawn command: ", cause, "\n");
        self.push_output(CommandStream::Stderr, text.as_str());
    }
}

/// A read that yields no bytes ends the reader and leaves the log as it was.
pub proof fn lemma_empty_read_ends_reader(log: Seq<char>, outcome: ReadOutcome)
    requires
        outcome matches ReadOutcome::Bytes(b) && b@.len() == 0,
    ensures
        after_read(log, outcome) == log,
        !reads_on(outcome),
{
}

/// Any non-empty read, well-formed text or not, is appended as output and
/// the reader goes on.
pub proof fn lemma_bytes_always_append(log: Seq<char>, outcome: ReadOutcome)
    requires
        outcome matches ReadOutcome::Bytes(b) && b@.len() > 0,
    ensures
        reads_on(outcome),
        outcome matches ReadOutcome::Bytes(b) && after_read(log, outcome) == log + lossy_text(b@),
{
}

} // verus!
