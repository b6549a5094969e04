//! The quick command bar: one input line over the emulated screen and, at
//! most, one line of feedback (the last line of the shared console log).

use vstd::prelude::*;
use crate::console_log::{ConsoleLog, submit_line, command_entry};
use crate::text::spec_is_blank;

verus! {

pub struct QuickCommandBar {
    input: String,
    /// Focus has to be asked again on each opening: the UI does not keep it
    /// from one frame to the next when the bar is rebuilt.
    request_focus: bool,
}

impl QuickCommandBar {
    pub closed spec fn spec_input(&self) -> Seq<char> {
        self.input@
    }

    pub closed spec fn spec_focus_requested(&self) -> bool {
        self.request_focus
    }

    pub fn new() -> (bar: Self)
        ensures
            bar.spec_input() == Seq::<char>::empty(),
            bar.spec_focus_requested(),
    {
        Self { input: String::new(), request_focus: true }
    }

    pub fn request_focus(&mut self)
        ensures
            final(self).spec_focus_requested(),
            final(self).spec_input() == old(self).spec_input(),
    {
        self.request_focus = true;
    }

    /// Whether focus is to be given to the input line this frame; the
    /// request is used up.
    pub fn take_focus_request(&mut self) -> (r: bool)
        ensures
            r == old(self).spec_focus_requested(),
            !final(self).spec_focus_requested(),
            final(self).spec_input() == old(self).spec_input(),
    {
        let r = self.request_focus;
        self.request_focus = false;
        r
    }

    /// The input line, for editing.
    pub fn input_mut(&mut self) -> (r: &mut String)
        ensures
            (*r)@ == old(self).spec_input(),
            final(self).spec_input() == final(r)@,
            final(self).spec_focus_requested() == old(self).spec_focus_requested(),
    {
        &mut self.input
    }

    /// Enter was pressed in the input line: the line is taken out, logged
    /// and handed back to be sent unless it is blank, and focus is asked
    /// again so that the next command needs no click.
    pub fn submit(&mut self, log: &mut ConsoleLog) -> (sent: Option<String>)
        ensures
            final(self).spec_input() == Seq::<char>::empty(),
            final(self).spec_focus_requested(),
            spec_is_blank(old(self).spec_input()) ==> sent is None && final(log)@ == old(log)@,
            !spec_is_blank(old(self).spec_input()) ==> (sent matches Some(l) && l@ == old(
                self,
            ).spec_input()),
            !spec_is_blank(old(self).spec_input()) ==> final(log)@ == old(log)@.push(
                command_entry(old(self).spec_input()),
            ),
    {
        let sent = submit_line(&mut self.input, log);
        self.request_focus = true;
        sent
    }
}

} // verus!
