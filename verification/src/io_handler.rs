//! Helper to handle I/O functionality.

use vstd::prelude::*;

use crate::command::{is_exit, is_exit_command};
use crate::host::HostError;
use crate::transport::IoError;

verus! {

/// Holds the line that was typed in last.
#[derive(Clone, Debug, PartialEq, Eq)]
pub struct IoHandler {
    buf: String,
}

impl View for IoHandler {
    type V = Seq<char>;

    closed spec fn view(&self) -> Seq<char> {
        self.buf@
    }
}

impl Default for IoHandler {
    fn default() -> (r: Self)
        ensures
            r@ == Seq::<char>::empty(),
    {
        IoHandler { buf: String::new() }
    }
}

impl IoHandler {
    /// The line that was typed in last.
    pub fn buf(&self) -> (r: &str)
        ensures
            r@ == self@,
    {
        self.buf.as_str()
    }

    /// Takes what was read, in place of the line before, and whether reading failed. The result
    /// is the line, or nothing where it is the command to exit. Where reading failed, what was
    /// read before the failure is held.
    pub fn read_stdin(&mut self, line: String, read: Result<(), IoError>) -> (r: Result<
        Option<String>,
        HostError,
    >)
        ensures
            final(self)@ == line@,
            match read {
                Ok(()) => if is_exit(line@) {
                    r == Ok::<Option<String>, HostError>(None)
                } else {
                    r matches Ok(Some(text)) && text@ == line@
                },
                Err(err) => r == Err::<Option<String>, HostError>(HostError::IORead(err)),
            },
    {
        self.buf = line;
        match read {
            Ok(()) => {
                if is_exit_command(self.buf.as_str()) {
                    Ok(None)
                } else {
                    Ok(Some(self.buf.clone()))
                }
            },
            Err(err) => Err(HostError::IORead(err)),
        }
    }

    /// The result of writing the output of a command, given what the write and the flush came to.
    pub fn write_stdout(written: Result<(), IoError>, flushed: Result<(), IoError>) -> (r: Result<
        (),
        HostError,
    >)
        ensures
            match (written, flushed) {
                (Ok(()), Ok(())) => r is Ok,
                (Err(err), _) => r == Err::<(), HostError>(HostError::IOWrite(err)),
                (Ok(()), Err(err)) => r == Err::<(), HostError>(HostError::IOWrite(err)),
            },
    {
        match (written, flushed) {
            (Ok(()), Ok(())) => Ok(()),
            (Err(err), _) => Err(HostError::IOWrite(err)),
            (Ok(()), Err(err)) => Err(HostError::IOWrite(err)),
        }
    }
}

} // verus!
