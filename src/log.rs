//! The session log: an append-only transcript in which diagnostic text is
//! set apart on lines of its own.

use vstd::prelude::*;
use vstd::string::StrSliceExecFns;
use vstd::string::StringExecFns;

verus! {

/// Where an appended chunk comes from.
#[derive(Clone, Copy, Debug, PartialEq, Eq, Structural)]
pub enum CommandStream {
    /// Ordinary output, appended verbatim.
    Stdout,
    /// Diagnostic or status text, set apart under a marker line.
    Stderr,
}

/// The line that introduces diagnostic text.
pub open spec fn stderr_marker() -> Seq<char> {
    seq!['[', 's', 't', 'd', 'e', 'r', 'r', ']', '\n']
}

pub open spec fn ends_with_newline(s: Seq<char>) -> bool {
    s.len() > 0 && s.last() == '\n'
}

/// The log after one chunk is appended to `log` under the given tag.
pub open spec fn appended(log: Seq<char>, stream: CommandStream, chunk: Seq<char>) -> Seq<char> {
    match stream {
        CommandStream::Stdout => log + chunk,
        CommandStream::Stderr => if ends_with_newline(log) {
            log + stderr_marker() + chunk
        } else {
            log + seq!['\n'] + stderr_marker() + chunk
        },
    }
}

/// The log after every chunk of `pushes` is appended, first to last.
pub open spec fn appended_all(log: Seq<char>, pushes: Seq<(CommandStream, Seq<char>)>) -> Seq<char>
    decreases pushes.len(),
{
    if pushes.len() == 0 {
        log
    } else {
        let last = pushes.last();
        appended(appended_all(log, pushes.drop_last()), last.0, last.1)
    }
}

/// The texts of `pushes` laid end to end.
pub open spec fn concat_texts(pushes: Seq<(CommandStream, Seq<char>)>) -> Seq<char>
    decreases pushes.len(),
{
    if pushes.len() == 0 {
        Seq::empty()
    } else {
        concat_texts(pushes.drop_last()) + pushes.last().1
    }
}

/// Append-only text buffer of a terminal session.
pub struct TerminalLog {
    text: String,
    newline_last: bool,
}

impl View for TerminalLog {
    type V = Seq<char>;

    closed spec fn view(&self) -> Seq<char> {
        self.text@
    }
}

impl TerminalLog {
    #[verifier::type_invariant]
    spec fn inv(&self) -> bool {
        self.newline_last == ends_with_newline(self.text@)
    }

    /// An empty log.
    pub fn new() -> (r: TerminalLog)
        ensures
            r@ == Seq::<char>::empty(),
    {
        TerminalLog { text: String::new(), newline_last: false }
    }

    /// Appends `chunk` under `stream`: stdout text verbatim; stderr text after
    /// the marker line, itself preceded by a newline unless the log already
    /// ends in one.
    pub fn push_output(&mut self, stream: CommandStream, chunk: &str)
        ensures
            final(self)@ == appended(old(self)@, stream, chunk@),
    {
        proof {
            use_type_invariant(&*self);
        }
        let mut taken = TerminalLog::new();
        std::mem::swap(self, &mut taken);
        proof {
            use_type_invariant(&taken);
        }
        let TerminalLog { mut text, newline_last } = taken;
        let mut last_newline = newline_last;
        match stream {
            CommandStream::Stdout => {},
            CommandStream::Stderr => {
                if !newline_last {
                    text.append("\n");
                }
                text.append("[stderr]\n");
                last_newline = true;
                proof {
                    reveal_strlit("\n");
                    reveal_strlit("[stderr]\n");
                }
            },
        }
        let n = chunk.unicode_len();
        if n > 0 {
            last_newline = chunk.get_char(n - 1) == '\n';
        }
        text.append(chunk);
        proof {
            reveal_strlit("\n");
            reveal_strlit("[stderr]\n");
        }
        *self = TerminalLog { text, newline_last: last_newline };
    }

    /// The text collected so far.
    pub fn as_str(&self) -> (r: &str)
        ensures
            r@ == self@,
    {
        self.text.as_str()
    }
}

/// Appending only stdout chunks leaves the log followed by their texts laid
/// end to end, in the order in which they were pushed.
pub proof fn lemma_stdout_pushes_concatenate(log: Seq<char>, pushes: Seq<(CommandStream, Seq<char>)>)
    requires
        forall|i: int| 0 <= i < pushes.len() ==> (#[trigger] pushes[i]).0 == CommandStream::Stdout,
    ensures
        appended_all(log, pushes) == log + concat_texts(pushes),
    decreases pushes.len(),
{
    if pushes.len() > 0 {
        let rest = pushes.drop_last();
        assert forall|i: int| 0 <= i < rest.len() implies (#[trigger] rest[i]).0 == CommandStream::Stdout by {
            assert(rest[i] == pushes[i]);
        }
        lemma_stdout_pushes_concatenate(log, rest);
        assert(pushes[pushes.len() - 1].0 == CommandStream::Stdout);
        assert(appended_all(log, pushes) =~= log + concat_texts(pushes));
    }
}

/// A stderr chunk lands right after a newline and the marker line; the log
/// before it is kept, and a newline is added only where it did not already
/// end in one, so no blank line appears.
pub proof fn lemma_stderr_block(log: Seq<char>, chunk: Seq<char>)
    ensures
        ({
            let r = appended(log, CommandStream::Stderr, chunk);
            let head = seq!['\n'] + stderr_marker();
            &&& r.len() == log.len() + (if ends_with_newline(log) { 0int } else { 1int }) + stderr_marker().len() + chunk.len()
            &&& r.subrange(0, log.len() as int) == log
            &&& r.subrange(r.len() - chunk.len() - head.len(), r.len() as int) == head + chunk
        }),
{
    let r = appended(log, CommandStream::Stderr, chunk);
    let head = seq!['\n'] + stderr_marker();
    if ends_with_newline(log) {
        assert(r.subrange(0, log.len() as int) =~= log);
        assert(r.subrange(r.len() - chunk.len() - head.len(), r.len() as int) =~= head + chunk);
    } else {
        assert(r.subrange(0, log.len() as int) =~= log);
        assert(r.subrange(r.len() - chunk.len() - head.len(), r.len() as int) =~= head + chunk);
    }
}

} // verus!
