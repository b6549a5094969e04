//! Command history shared by the two console front ends: the quick command
//! bar shows only its last line, the full console window shows all of it.
//! Both feed the same log, so a command typed in one also appears in the
//! other.

use vstd::prelude::*;
use vstd::string::*;
use crate::text::{spec_lines, split_lines, is_blank, spec_is_blank};

verus! {

/// The prompt put in front of a command in the log.
pub open spec fn command_entry(line: Seq<char>) -> Seq<char> {
    seq!['>', ' '] + line
}

/// The last entry of a log, if it has one.
pub open spec fn spec_last_line(log: Seq<Seq<char>>) -> Option<Seq<char>> {
    if log.len() == 0 {
        None
    } else {
        Some(log.last())
    }
}

/// After a command is logged, the last line is that command, prompt
/// included.
pub proof fn last_line_after_a_command(log: Seq<Seq<char>>, line: Seq<char>)
    ensures
        spec_last_line(log.push(command_entry(line))) == Some(command_entry(line)),
{
}

/// After an output is logged, the last line is the output's last line, or
/// stays what it was when the output has no line.
pub proof fn last_line_after_an_output(log: Seq<Seq<char>>, output: Seq<char>)
    ensures
        spec_last_line(log + spec_lines(output)) == (if spec_lines(output).len() == 0 {
            spec_last_line(log)
        } else {
            Some(spec_lines(output).last())
        }),
{
    let lines = spec_lines(output);
    if lines.len() == 0 {
        assert(log + lines =~= log);
    } else {
        assert((log + lines).last() == lines.last());
    }
}

pub struct ConsoleLog {
    lines: Vec<String>,
}

impl View for ConsoleLog {
    type V = Seq<Seq<char>>;

    /// The entries of the log, oldest first.
    closed spec fn view(&self) -> Seq<Seq<char>> {
        self.lines@.map_values(|l: String| l@)
    }
}

impl ConsoleLog {
    pub fn new() -> (log: Self)
        ensures
            log@ == Seq::<Seq<char>>::empty(),
    {
        let log = Self { lines: Vec::new() };
        assert(log@ =~= Seq::<Seq<char>>::empty());
        log
    }

    /// Adds the command as typed, with a prompt in front of it.
    pub fn push_command(&mut self, line: &str)
        ensures
            final(self)@ == old(self)@.push(command_entry(line@)),
    {
        let prompt = "> ";
        proof {
            reveal_strlit("> ");
        }
        assert(prompt@ =~= seq!['>', ' ']);
        let mut entry = String::from_str(prompt);
        entry.append(line);
        assert(entry@ =~= command_entry(line@));
        let ghost before = self.lines@;
        self.lines.push(entry);
        assert(self.lines@.map_values(|l: String| l@) =~= before.map_values(|l: String| l@).push(
            command_entry(line@),
        ));
    }

    /// Adds the output of a command already handled: one log entry per line
    /// of text.
    pub fn push_output(&mut self, output: &str)
        ensures
            final(self)@ == old(self)@ + spec_lines(output@),
    {
        let new_lines = split_lines(output);
        let n = new_lines.len();
        let ghost start = self@;
        for i in 0..n
            invariant
                n == new_lines@.len(),
                new_lines@.map_values(|l: String| l@) == spec_lines(output@),
                self@ == start + spec_lines(output@).take(i as int),
        {
            let ghost before = self.lines@;
            self.lines.push(new_lines[i].clone());
            assert(self.lines@.map_values(|l: String| l@) =~= before.map_values(|l: String| l@).push(
                new_lines@[i as int]@,
            ));
            assert(spec_lines(output@).take(i + 1) =~= spec_lines(output@).take(i as int).push(
                new_lines@.map_values(|l: String| l@)[i as int],
            ));
        }
        assert(spec_lines(output@).take(n as int) =~= spec_lines(output@));
    }

    /// All the entries, oldest first.
    pub fn lines(&self) -> (r: &[String])
        ensures
            r@.map_values(|l: String| l@) == self@,
    {
        self.lines.as_slice()
    }

    /// The most recent entry, for the quick command bar, which never shows
    /// more than one line.
    pub fn last_line(&self) -> (r: Option<&str>)
        ensures
            match r {
                None => spec_last_line(self@) is None,
                Some(l) => spec_last_line(self@) == Some(l@),
            },
    {
        let n = self.lines.len();
        if n == 0 {
            None
        } else {
            Some(self.lines[n - 1].as_str())
        }
    }
}

/// What happens to the input line of a console when Enter is pressed: the
/// line is taken out of the input field, and, unless it is blank, logged as
/// a command and handed back to be sent to the machine.
pub fn submit_line(input: &mut String, log: &mut ConsoleLog) -> (sent: Option<String>)
    ensures
        final(input)@ == Seq::<char>::empty(),
        spec_is_blank(old(input)@) ==> sent is None && final(log)@ == old(log)@,
        !spec_is_blank(old(input)@) ==> (sent matches Some(l) && l@ == old(input)@),
        !spec_is_blank(old(input)@) ==> final(log)@ == old(log)@.push(command_entry(old(input)@)),
{
    let mut line = String::new();
    std::mem::swap(&mut line, input);
    if is_blank(line.as_str()) {
        None
    } else {
        log.push_command(line.as_str());
        Some(line)
    }
}

} // verus!
