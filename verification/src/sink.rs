//! The sink capability: the pluggable backend that performs the final
//! write of a formatted log line.

use std::io::Write;
use vstd::prelude::*;

verus! {

/// The output backend a logger forwards formatted lines to.  The default
/// implementation writes to standard output; callers may supply their own
/// (a recorder, a file writer) through `Log4::set_log_impl`.
///
/// The three methods carry no contract: a sink only performs a
/// side-effecting write and promises nothing the logger's own proofs
/// could rely on.
pub trait LogImpl {
    fn info(&self, ss: &String);

    fn warn(&self, ss: &String);

    fn error(&self, ss: &String);
}

/// Relies on std::io::Stdout's write through `writeln!`: prints the line
/// and a trailing newline to standard output; a write failure is swallowed
/// so that logging never aborts the caller.
#[verifier::external_body]
fn write_stdout_line(ss: &String) {
    let _ = writeln!(std::io::stdout(), "{}", ss);
}

/// The default sink: every severity writes the line, unmodified, to
/// standard output, one line per call.
pub struct DefaultLogImpl {}

impl LogImpl for DefaultLogImpl {
    fn info(&self, ss: &String) {
        write_stdout_line(ss);
    }

    fn warn(&self, ss: &String) {
        write_stdout_line(ss);
    }

    fn error(&self, ss: &String) {
        write_stdout_line(ss);
    }
}

} // verus!
