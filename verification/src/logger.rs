use vstd::prelude::*;
use vstd::string::StringExecFns;

use std::io::Write;

verus! {

/// Formats one log line: the level tag in brackets, then the text.
fn level_line(level: &str, message: &str) -> (r: String)
    ensures
        r@ == "["@ + level@ + "] "@ + message@,
{
    String::from_str("[").concat(level).concat("] ").concat(message)
}

/// Relies on std::io::Stderr::write_fmt, through writeln: prints the
/// line to standard error, followed by a newline.
#[verifier::external_body]
fn emit_line(line: &str) {
    let _ = writeln!(std::io::stderr(), "{}", line);
}

/// Prints one informational log line.
pub fn log_info(message: &str) {
    let line = level_line("INFO", message);
    emit_line(line.as_str());
}

/// Prints one debugging log line.
pub fn log_debug(message: &str) {
    let line = level_line("DEBUG", message);
    emit_line(line.as_str());
}

/// Prints one error log line.
pub fn log_error(message: &str) {
    let line = level_line("ERROR", message);
    emit_line(line.as_str());
}

} // verus!
