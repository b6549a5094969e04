//! Layout of the machine status window's text: the register and hardware
//! blocks one line under the other, tabs widened to four spaces, and the
//! "disk access" marker at the end of a line set apart to be drawn in its
//! own colour.

use vstd::prelude::*;
use vstd::string::*;
use crate::text::{spec_lines, split_lines, push_char, pop_char};

verus! {

/// The marker (a filled circle) that ends a line while a disk is accessed.
pub open spec fn disk_marker() -> char {
    '\u{25CF}'
}

/// A line with each tab replaced by four spaces.
pub open spec fn expand_tabs(line: Seq<char>) -> Seq<char>
    decreases line.len(),
{
    if line.len() == 0 {
        Seq::empty()
    } else if line.last() == '\t' {
        expand_tabs(line.drop_last()) + seq![' ', ' ', ' ', ' ']
    } else {
        expand_tabs(line.drop_last()).push(line.last())
    }
}

/// What a line of status text shows: its text with tabs widened, and
/// whether it ended with the disk marker (which is then left out of the
/// text).
pub open spec fn spec_status_row(line: Seq<char>) -> (Seq<char>, bool) {
    let e = expand_tabs(line);
    if e.len() > 0 && e.last() == disk_marker() {
        (e.drop_last(), true)
    } else {
        (e, false)
    }
}

/// The text shown: the register block, then the hardware block.
pub open spec fn status_text(registers: Seq<char>, hardware: Seq<char>) -> Seq<char> {
    registers + seq!['\n'] + hardware
}

/// Once tabs are widened, no tab is left in a line.
pub proof fn widened_lines_hold_no_tab(line: Seq<char>)
    ensures
        !expand_tabs(line).contains('\t'),
    decreases line.len(),
{
    if line.len() > 0 {
        widened_lines_hold_no_tab(line.drop_last());
        let e = expand_tabs(line);
        let prev = expand_tabs(line.drop_last());
        if e.contains('\t') {
            let j = choose|j: int| 0 <= j < e.len() && e[j] == '\t';
            if j < prev.len() {
                assert(e[j] == prev[j]);
            }
        }
    }
}

/// Widening tabs works piece by piece: the widened text of two pieces put
/// together is the two widened pieces put together.
pub proof fn widening_splits_over_concatenation(a: Seq<char>, b: Seq<char>)
    ensures
        expand_tabs(a + b) == expand_tabs(a) + expand_tabs(b),
    decreases b.len(),
{
    if b.len() == 0 {
        assert(a + b =~= a);
        assert(expand_tabs(a) + expand_tabs(b) =~= expand_tabs(a));
    } else {
        let ab = a + b;
        assert(ab.drop_last() =~= a + b.drop_last());
        assert(ab.last() == b.last());
        widening_splits_over_concatenation(a, b.drop_last());
        let ea = expand_tabs(a);
        let eb = expand_tabs(b.drop_last());
        if b.last() == '\t' {
            assert(ea + eb + seq![' ', ' ', ' ', ' '] =~= ea + (eb + seq![' ', ' ', ' ', ' ']));
        } else {
            assert((ea + eb).push(b.last()) =~= ea + eb.push(b.last()));
        }
    }
}

/// Every tab of a line, wherever it stands, becomes exactly four spaces,
/// and every other character stays as it is: the widened line is the
/// widened text before the tab, four spaces, and the widened text after it.
pub proof fn each_tab_becomes_four_spaces(before: Seq<char>, after: Seq<char>, c: char)
    ensures
        expand_tabs(before + seq!['\t'] + after) == expand_tabs(before) + seq![' ', ' ', ' ', ' ']
            + expand_tabs(after),
        c != '\t' ==> expand_tabs(before + seq![c] + after) == expand_tabs(before) + seq![c]
            + expand_tabs(after),
{
    let tab = seq!['\t'];
    let one = seq![c];
    widening_splits_over_concatenation(before + tab, after);
    widening_splits_over_concatenation(before, tab);
    widening_splits_over_concatenation(before + one, after);
    widening_splits_over_concatenation(before, one);
    assert(tab.drop_last() =~= Seq::<char>::empty());
    assert(one.drop_last() =~= Seq::<char>::empty());
    assert(expand_tabs(Seq::<char>::empty()) =~= Seq::<char>::empty());
    assert(expand_tabs(tab) =~= seq![' ', ' ', ' ', ' ']);
    if c != '\t' {
        assert(expand_tabs(one) =~= seq![c]);
    }
    assert(expand_tabs(before) + seq![' ', ' ', ' ', ' '] + expand_tabs(after) =~= expand_tabs(before)
        + (seq![' ', ' ', ' ', ' '] + expand_tabs(after)));
}

/// The number of tabs in a line.
pub open spec fn tab_count(line: Seq<char>) -> nat {
    line.filter(|c: char| c == '\t').len()
}

/// Each tab adds three characters to the line, and nothing else changes its
/// length.
pub proof fn widened_length(line: Seq<char>)
    ensures
        expand_tabs(line).len() == line.len() + 3 * tab_count(line),
    decreases line.len(),
{
    reveal(Seq::filter);
    if line.len() > 0 {
        widened_length(line.drop_last());
    }
}

/// The disk-access marker ending a line is set apart and left out of the
/// text; a line ending otherwise (or empty) is shown whole, tabs widened,
/// with no marker.
pub proof fn the_disk_marker_is_set_apart(line: Seq<char>)
    ensures
        spec_status_row(line.push(disk_marker())) == (expand_tabs(line), true),
        line.len() == 0 || line.last() != disk_marker() ==> spec_status_row(line) == (
            expand_tabs(line),
            false,
        ),
{
    assert(line.push(disk_marker()).drop_last() =~= line);
    let e = expand_tabs(line.push(disk_marker()));
    assert(e.drop_last() =~= expand_tabs(line));
    if line.len() > 0 && line.last() == '\t' {
        let spaces = seq![' ', ' ', ' ', ' '];
        assert((expand_tabs(line.drop_last()) + spaces).last() == ' ');
    }
}

/// What a status row shows never holds a tab.
pub proof fn status_rows_hold_no_tab(line: Seq<char>)
    ensures
        !spec_status_row(line).0.contains('\t'),
{
    widened_lines_hold_no_tab(line);
    let e = expand_tabs(line);
    let t = spec_status_row(line).0;
    if t.contains('\t') {
        let j = choose|j: int| 0 <= j < t.len() && t[j] == '\t';
        assert(e[j] == '\t');
    }
}

/// One line of the status window.
pub struct StatusRow {
    pub text: String,
    /// The line ends with the disk-access marker.
    pub dot: bool,
}

fn status_row(line: &str) -> (r: StatusRow)
    ensures
        (r.text@, r.dot) == spec_status_row(line@),
{
    let mut text = String::new();
    let mut last_is_marker = false;
    let chars = line.chars();
    proof {
        axiom_spec_iter(line);
    }
    for c in it: chars
        invariant
            it.seq() == line@,
            text@ == expand_tabs(line@.take(it.index() as int)),
            last_is_marker == (text@.len() > 0 && text@.last() == disk_marker()),
    {
        let ghost done = line@.take(it.index() as int);
        proof {
            assert(line@.take(it.index() + 1).drop_last() =~= done);
        }
        if c == '\t' {
            push_char(&mut text, ' ');
            push_char(&mut text, ' ');
            push_char(&mut text, ' ');
            push_char(&mut text, ' ');
            assert(text@ =~= expand_tabs(done) + seq![' ', ' ', ' ', ' ']);
            last_is_marker = false;
        } else {
            push_char(&mut text, c);
            last_is_marker = c == '\u{25CF}';
        }
    }
    assert(line@.take(line@.len() as int) =~= line@);
    if last_is_marker {
        pop_char(&mut text);
        StatusRow { text, dot: true }
    } else {
        StatusRow { text, dot: false }
    }
}

/// The lines of the status window for the given register and hardware
/// texts.
pub fn status_rows(registers: &str, hardware: &str) -> (rows: Vec<StatusRow>)
    ensures
        rows@.len() == spec_lines(status_text(registers@, hardware@)).len(),
        forall|i: int|
            0 <= i < rows@.len() ==> (#[trigger] rows@[i].text@, rows@[i].dot) == spec_status_row(
                spec_lines(status_text(registers@, hardware@))[i],
            ),
{
    let mut text = String::from_str(registers);
    push_char(&mut text, '\n');
    text.append(hardware);
    assert(text@ =~= status_text(registers@, hardware@));
    let lines = split_lines(text.as_str());
    let ghost lv = lines@.map_values(|l: String| l@);
    let mut rows: Vec<StatusRow> = Vec::new();
    let n = lines.len();
    for i in 0..n
        invariant
            n == lines@.len(),
            lv == lines@.map_values(|l: String| l@),
            lv == spec_lines(status_text(registers@, hardware@)),
            rows@.len() == i,
            forall|k: int|
                0 <= k < i ==> (#[trigger] rows@[k].text@, rows@[k].dot) == spec_status_row(lv[k]),
    {
        let row = status_row(lines[i].as_str());
        assert(lv[i as int] == lines@[i as int]@);
        rows.push(row);
    }
    rows
}

} // verus!
