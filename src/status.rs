//! Process exit statuses: the sysexits-style codes this tool reports and the
//! mapping of a child's termination into the parent's own exit code.

use vstd::prelude::*;

verus! {

/// Successful termination.
pub const EX_OK: i32 = 0;

/// The command was used incorrectly.
pub const EX_USAGE: i32 = 64;

/// A service or module is unavailable.
pub const EX_UNAVAILABLE: i32 = 69;

/// An internal software error was detected.
pub const EX_SOFTWARE: i32 = 70;

/// An error occurred while doing I/O.
pub const EX_IOERR: i32 = 74;

/// How a child process ended, as far as the operating system reports it.
#[derive(Clone, Copy, Debug, PartialEq, Eq)]
pub enum Termination {
    /// The child exited normally with this code.
    Exited(i32),
    /// The child was killed by this signal number.
    Signaled(i32),
    /// Neither an exit code nor a signal could be obtained.
    Unknown,
}

/// A normal exit code fits in one byte, as process exit statuses do.
pub open spec fn well_formed(t: Termination) -> bool {
    t matches Termination::Exited(code) ==> 0 <= code <= 0xff
}

impl Termination {
    /// A normal exit with `code`; a code outside one byte is not an exit
    /// status this tool can report, and counts as unknown.
    pub fn exited(code: i32) -> (r: Termination)
        ensures
            0 <= code <= 0xff ==> r == Termination::Exited(code),
            !(0 <= code <= 0xff) ==> r == Termination::Unknown,
            well_formed(r),
    {
        if 0 <= code && code <= 0xff {
            Termination::Exited(code)
        } else {
            Termination::Unknown
        }
    }
}

/// The shell convention for a death by signal: the signal number with the
/// high bit of the low byte set, kept to one byte.
pub open spec fn signal_exit_code(signal: i32) -> i32 {
    (signal | 0x80) & 0xff
}

/// The exit code the parent reports for a child that ended as `t`.
pub open spec fn reported_exit_code(t: Termination) -> i32 {
    match t {
        Termination::Exited(code) => code,
        Termination::Signaled(signal) => signal_exit_code(signal),
        Termination::Unknown => EX_SOFTWARE,
    }
}

/// For the signals of ordinary systems (below 128) the code is 128 plus the
/// signal number, and distinct signals give distinct codes.
pub proof fn lemma_signal_codes(s: i32, t: i32)
    requires
        0 <= s < 128,
        0 <= t < 128,
    ensures
        signal_exit_code(s) == 128 + s,
        s != t ==> signal_exit_code(s) != signal_exit_code(t),
{
    assert((s | 0x80) & 0xff == 128 + s) by (bit_vector)
        requires
            0 <= s < 128,
    ;
    assert((t | 0x80) & 0xff == 128 + t) by (bit_vector)
        requires
            0 <= t < 128,
    ;
}

/// Maps a child's termination into the parent's exit code.
pub fn exit_code(t: Termination) -> (r: i32)
    requires
        well_formed(t),
    ensures
        r == reported_exit_code(t),
        0 <= r <= 0xff,
        t is Signaled ==> 0x80 <= r <= 0xff,
{
    match t {
        Termination::Exited(code) => code,
        Termination::Signaled(signal) => {
            let r = (signal | 0x80) & 0xff;
            assert(0x80 <= ((signal | 0x80) & 0xff) <= 0xff) by (bit_vector);
            r
        },
        Termination::Unknown => EX_SOFTWARE,
    }
}

/// How a child's standard streams are wired.
#[derive(Clone, Copy, Debug, PartialEq, Eq)]
pub enum StdioMode {
    /// The child shares the parent's stdin, stdout and stderr.
    Inherited,
    /// The child's stdout and stderr are piped and buffered; stdin is shared.
    Captured,
}

/// The outcome of running an external subcommand to its end.
#[derive(Clone, Debug)]
pub struct ExternalResult {
    /// The exit code the parent reports for the child, within one byte.
    pub code: i32,
    /// The child's standard output, when it was captured.
    pub stdout: Option<Vec<u8>>,
    /// The child's standard error, when it was captured.
    pub stderr: Option<Vec<u8>>,
}

/// Runs an external subcommand.
#[derive(Clone, Copy, Debug)]
pub struct External {
    /// Report spawn failures and signal deaths on the error stream.
    pub is_debug: bool,
    /// Capture the child's output instead of sharing the parent's streams.
    pub pipe_output: bool,
}

impl External {
    /// How the child's streams are to be wired.
    pub fn stdio_mode(&self) -> (r: StdioMode)
        ensures
            r == (if self.pipe_output {
                StdioMode::Captured
            } else {
                StdioMode::Inherited
            }),
    {
        if self.pipe_output {
            StdioMode::Captured
        } else {
            StdioMode::Inherited
        }
    }

    /// The result of a child that ended as `t`, with the output it printed
    /// when that output was captured. Output is kept only in captured mode.
    pub fn finish(&self, t: Termination, stdout: Option<Vec<u8>>, stderr: Option<Vec<u8>>) -> (r: ExternalResult)
        requires
            well_formed(t),
        ensures
            r.code == reported_exit_code(t),
            0 <= r.code <= 0xff,
            self.pipe_output ==> r.stdout == stdout && r.stderr == stderr,
            !self.pipe_output ==> r.stdout is None && r.stderr is None,
    {
        let code = exit_code(t);
        if self.pipe_output {
            ExternalResult { code, stdout, stderr }
        } else {
            ExternalResult { code, stdout: None, stderr: None }
        }
    }
}

} // verus!
