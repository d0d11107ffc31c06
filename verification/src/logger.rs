//! Where the captured output of the supervised processes goes.

use vstd::prelude::*;
use vstd::string::StringExecFns;
use vstd::string::StringSliceAdditionalSpecFns;
use crate::text::{decimal, decimal_string, pieces, split, texts, views};

verus! {

/// A sink for what a supervised process wrote. The supervisor asks no more
/// of it than this; whether a call succeeds is the sink's own affair.
pub trait Logger {
    /// Why the sink could not take what it was given.
    type Error;

    /// Logs a piece of text under the name and process id of its origin: the
    /// text goes to [`Logger::log`] as its bytes in UTF-8, under the same
    /// name and process id, and what `log` answers to that is the answer.
    fn log_str(&self, name: &str, pid: i32, msg: &str) -> (answer: Result<(), Self::Error>)
        ensures
            exists|bytes: &[u8]|
                bytes@ == msg.spec_bytes() && #[trigger] call_ensures(
                    Self::log,
                    (self, name, pid, bytes),
                    answer,
                ),
    {
        self.log(name, pid, msg.as_bytes())
    }

    /// Logs the bytes that a process wrote, under its name and process id.
    fn log(&self, name: &str, pid: i32, bytes: &[u8]) -> Result<(), Self::Error>;
}

/// The text that bytes stand for when they are read as UTF-8 and every
/// part that is no UTF-8 is replaced by the replacement character: what
/// `String::from_utf8_lossy` returns.
pub uninterp spec fn lossy_text(bytes: Seq<u8>) -> Seq<char>;

/// `String::from_utf8_lossy`: the bytes as text, whatever they hold. The
/// result depends on the bytes alone.
#[verifier::external_body]
fn utf8_lossy(bytes: &[u8]) -> (text: String)
    ensures
        text@ == lossy_text(bytes@),
{
    String::from_utf8_lossy(bytes).into_owned()
}

/// A piece without the carriage return at its end, if it has one.
pub open spec fn without_cr(piece: Seq<char>) -> Seq<char> {
    if piece.len() > 0 && piece.last() == '\r' {
        piece.drop_last()
    } else {
        piece
    }
}

/// The lines of a text that was split at every line feed. Each piece that a
/// line feed ended is a line, without the carriage return before the line
/// feed if there is one; what follows the last line feed is a line too,
/// unless it is empty.
pub open spec fn lines_of(split: Seq<Seq<char>>) -> Seq<Seq<char>> {
    let ended = split.drop_last().map_values(|piece: Seq<char>| without_cr(piece));
    if split.last().len() == 0 {
        ended
    } else {
        ended.push(split.last())
    }
}

/// What stands before every line of one process: its name and its process
/// id in brackets, and a space.
pub open spec fn prefix(name: Seq<char>, pid: i32) -> Seq<char> {
    seq!['['] + name + seq![':'] + decimal(pid as int) + seq![']', ' ']
}

/// What is printed for a text that a process wrote: each of its lines, with
/// the prefix before it.
pub open spec fn rendered(name: Seq<char>, pid: i32, text: Seq<char>) -> Seq<Seq<char>> {
    lines_of(pieces(text, '\n')).map_values(|line: Seq<char>| prefix(name, pid) + line)
}

/// The sink that writes to the console, line by line.
#[derive(Debug, Clone, Copy, PartialEq, Eq)]
pub struct StdoutLogger;

/// The prefix of the lines of one process.
fn line_prefix(name: &str, pid: i32) -> (p: String)
    ensures
        p@ == prefix(name@, pid),
{
    let digits = decimal_string(pid);
    let mut p = String::from_str("[");
    p.append(name);
    p.append(":");
    p.append(digits.as_str());
    p.append("] ");
    proof {
        reveal_strlit("[");
        reveal_strlit(":");
        reveal_strlit("] ");
    }
    p
}

/// A piece without the carriage return at its end.
fn strip_cr<'a>(piece: &'a str) -> (line: &'a str)
    ensures
        line@ == without_cr(piece@),
{
    let n = piece.unicode_len();
    if n > 0 && piece.get_char(n - 1) == '\r' {
        piece.substring_char(0, n - 1)
    } else {
        piece
    }
}

/// Renders a text that a process wrote as the lines to print.
pub fn render(name: &str, pid: i32, text: &str) -> (lines: Vec<String>)
    ensures
        texts(lines@) == rendered(name@, pid, text@),
{
    let split = split(text, '\n');
    let before = line_prefix(name, pid);
    let mut lines: Vec<String> = Vec::new();
    let last = split.len() - 1;
    let ghost ended = views(split@).drop_last().map_values(|piece: Seq<char>| without_cr(piece));
    let ghost wanted = ended.map_values(|line: Seq<char>| prefix(name@, pid) + line);
    let mut i: usize = 0;
    while i < last
        invariant
            i <= last,
            last == split@.len() - 1,
            before@ == prefix(name@, pid),
            ended == views(split@).drop_last().map_values(|piece: Seq<char>| without_cr(piece)),
            wanted == ended.map_values(|line: Seq<char>| prefix(name@, pid) + line),
            texts(lines@) == wanted.take(i as int),
        decreases last - i,
    {
        let mut line = before.clone();
        line.append(strip_cr(split[i]));
        lines.push(line);
        proof {
            assert(wanted.take(i as int + 1) =~= wanted.take(i as int).push(wanted[i as int]));
        }
        i = i + 1;
    }
    let tail = split[last];
    if tail.unicode_len() > 0 {
        let ghost done = texts(lines@);
        let mut line = before.clone();
        line.append(tail);
        lines.push(line);
        proof {
            assert(texts(lines@) =~= done.push(prefix(name@, pid) + tail@));
        }
    }
    lines
}

impl StdoutLogger {
    /// The lines that this sink prints for the bytes that a process wrote:
    /// the bytes are read as text, whatever they hold, and the text is
    /// rendered line by line.
    pub fn lines(&self, name: &str, pid: i32, bytes: &[u8]) -> (lines: Vec<String>)
        ensures
            texts(lines@) == rendered(name@, pid, lossy_text(bytes@)),
    {
        let text = utf8_lossy(bytes);
        render(name, pid, text.as_str())
    }
}

} // verus!
