//! The shape of a log line and of the daily log file's name.

use vstd::prelude::*;
use vstd::string::*;

verus! {

/// A log line: the tag in brackets, the time of day, the message, a newline.
pub open spec fn log_line_of(tag: Seq<char>, time: Seq<char>, message: Seq<char>) -> Seq<char> {
    "["@ + tag + "] "@ + time + " "@ + message + "\n"@
}

/// The file that takes the lines of one day.
pub open spec fn log_path_of(date: Seq<char>) -> Seq<char> {
    "./logs/"@ + date + ".txt"@
}

/// Formats one log line.
pub fn log_line(tag: &str, time: &str, message: &str) -> (line: String)
    ensures
        line@ == log_line_of(tag@, time@, message@),
{
    let mut line = String::from_str("[");
    line.append(tag);
    line.append("] ");
    line.append(time);
    line.append(" ");
    line.append(message);
    line.append("\n");
    line
}

/// Names the log file of the day with this date.
pub fn log_path(date: &str) -> (path: String)
    ensures
        path@ == log_path_of(date@),
{
    let mut path = String::from_str("./logs/");
    path.append(date);
    path.append(".txt");
    path
}

} // verus!
