//! Text helpers shared by the console log, the status panel and the option
//! lookup: splitting a text into lines the way `str::lines` does,
//! recognising blank input, and character-level building blocks.

use vstd::prelude::*;
use vstd::string::*;

verus! {

/// A line as `str::lines` yields it: a trailing `'\r'` is dropped only when
/// it was followed by the `'\n'` that ended the line.
pub open spec fn strip_cr(line: Seq<char>) -> Seq<char> {
    if line.len() > 0 && line.last() == '\r' {
        line.drop_last()
    } else {
        line
    }
}

/// The lines completed so far and the line being read, after reading `s`
/// from left to right.
pub open spec fn line_scan(s: Seq<char>) -> (Seq<Seq<char>>, Seq<char>)
    decreases s.len(),
{
    if s.len() == 0 {
        (Seq::empty(), Seq::empty())
    } else {
        let (done, cur) = line_scan(s.drop_last());
        if s.last() == '\n' {
            (done.push(strip_cr(cur)), Seq::empty())
        } else {
            (done, cur.push(s.last()))
        }
    }
}

/// The lines of `s`, as `str::lines` yields them: split at each `'\n'`
/// (with a `'\r'` just before it dropped too), the final line ending being
/// optional.
pub open spec fn spec_lines(s: Seq<char>) -> Seq<Seq<char>> {
    let (done, cur) = line_scan(s);
    if cur.len() == 0 {
        done
    } else {
        done.push(cur)
    }
}

proof fn line_scan_has_no_line_break(s: Seq<char>)
    ensures
        forall|i: int| 0 <= i < line_scan(s).0.len() ==> !(#[trigger] line_scan(s).0[i]).contains('\n'),
        !line_scan(s).1.contains('\n'),
    decreases s.len(),
{
    if s.len() > 0 {
        let (done, cur) = line_scan(s.drop_last());
        line_scan_has_no_line_break(s.drop_last());
        if s.last() == '\n' {
            let l = strip_cr(cur);
            assert(!l.contains('\n')) by {
                if l.contains('\n') {
                    let j = choose|j: int| 0 <= j < l.len() && l[j] == '\n';
                    assert(cur[j] == '\n');
                }
            }
            let d2 = done.push(l);
            assert forall|i: int| 0 <= i < d2.len() implies !(#[trigger] d2[i]).contains('\n') by {
                if i < done.len() {
                    assert(d2[i] == done[i]);
                }
            }
        } else {
            let c2 = cur.push(s.last());
            assert(!c2.contains('\n')) by {
                if c2.contains('\n') {
                    let j = choose|j: int| 0 <= j < c2.len() && c2[j] == '\n';
                    if j < cur.len() {
                        assert(cur[j] == '\n');
                    }
                }
            }
        }
    }
}

/// No line holds a line break: each entry made of a text is one line.
pub proof fn lines_hold_no_line_break(s: Seq<char>)
    ensures
        forall|i: int| 0 <= i < spec_lines(s).len() ==> !(#[trigger] spec_lines(s)[i]).contains('\n'),
{
    line_scan_has_no_line_break(s);
    let (done, cur) = line_scan(s);
    if cur.len() > 0 {
        let d2 = done.push(cur);
        assert forall|i: int| 0 <= i < d2.len() implies !(#[trigger] d2[i]).contains('\n') by {
            if i < done.len() {
                assert(d2[i] == done[i]);
            }
        }
    }
}

proof fn line_scan_of_one_line(s: Seq<char>)
    requires
        !s.contains('\n'),
    ensures
        line_scan(s) == (Seq::<Seq<char>>::empty(), s),
    decreases s.len(),
{
    if s.len() > 0 {
        assert(!s.drop_last().contains('\n')) by {
            if s.drop_last().contains('\n') {
                let j = choose|j: int| 0 <= j < s.drop_last().len() && s.drop_last()[j] == '\n';
                assert(s[j] == '\n');
            }
        }
        line_scan_of_one_line(s.drop_last());
        assert(s.last() != '\n') by {
            assert(s[s.len() - 1] == s.last());
        }
        assert(s.drop_last().push(s.last()) =~= s);
    }
}

/// A non-empty text without a line break is exactly one line.
pub proof fn a_text_without_line_break_is_one_line(s: Seq<char>)
    requires
        s.len() > 0,
        !s.contains('\n'),
    ensures
        spec_lines(s) == seq![s],
{
    line_scan_of_one_line(s);
    assert(Seq::<Seq<char>>::empty().push(s) =~= seq![s]);
}

/// The final line ending is optional: ending a non-empty text with a line
/// break, `"\n"` or `"\r\n"`, does not change its lines (a lone `'\r'`
/// before the added `'\n'` would be taken into that line ending).
pub proof fn final_line_ending_is_optional(s: Seq<char>)
    requires
        s.len() > 0,
        s.last() != '\n',
    ensures
        s.last() != '\r' ==> spec_lines(s.push('\n')) == spec_lines(s),
        spec_lines(s.push('\r').push('\n')) == spec_lines(s),
{
    let (done, cur) = line_scan(s);
    assert(cur.len() > 0);
    assert(s.push('\n').drop_last() =~= s);
    assert(s.push('\r').drop_last() =~= s);
    assert(s.push('\r').push('\n').drop_last() =~= s.push('\r'));
    assert(line_scan(s.push('\r')) == (done, cur.push('\r')));
    assert(cur.push('\r').drop_last() =~= cur);
    assert(strip_cr(cur.push('\r')) == cur);
    assert(line_scan(s.push('\r').push('\n')) == (done.push(cur), Seq::<char>::empty()));
}

/// `String::push`.
#[verifier::external_body]
pub(crate) fn push_char(s: &mut String, c: char)
    ensures
        final(s)@ == old(s)@.push(c),
{
    s.push(c);
}

/// `String::pop`.
#[verifier::external_body]
pub(crate) fn pop_char(s: &mut String) -> (r: Option<char>)
    ensures
        old(s)@.len() == 0 ==> r is None && final(s)@ == old(s)@,
        old(s)@.len() > 0 ==> r == Some(old(s)@.last()) && final(s)@ == old(s)@.drop_last(),
{
    s.pop()
}

/// Splits `text` into its lines, each one a `String` of its own.
pub fn split_lines(text: &str) -> (lines: Vec<String>)
    ensures
        lines@.map_values(|l: String| l@) == spec_lines(text@),
{
    let mut lines: Vec<String> = Vec::new();
    let mut cur = String::new();
    let mut cur_nonempty = false;
    let mut cur_ends_cr = false;
    let ghost mut seen: Seq<char> = Seq::empty();
    let chars = text.chars();
    proof {
        axiom_spec_iter(text);
    }
    for c in it: chars
        invariant
            it.seq() == text@,
            seen == text@.take(it.index() as int),
            lines@.map_values(|l: String| l@) == line_scan(seen).0,
            cur@ == line_scan(seen).1,
            cur_nonempty == (cur@.len() > 0),
            cur_ends_cr == (cur@.len() > 0 && cur@.last() == '\r'),
    {
        proof {
            assert(seen.push(c).drop_last() == seen);
        }
        if c == '\n' {
            if cur_ends_cr {
                pop_char(&mut cur);
            }
            let mut done = String::new();
            std::mem::swap(&mut done, &mut cur);
            let ghost before = lines@;
            lines.push(done);
            assert(lines@.map_values(|l: String| l@) == before.map_values(|l: String| l@).push(done@));
            cur_nonempty = false;
            cur_ends_cr = false;
        } else {
            push_char(&mut cur, c);
            cur_nonempty = true;
            cur_ends_cr = c == '\r';
        }
        proof {
            seen = seen.push(c);
        }
    }
    assert(seen == text@);
    let ghost done = lines@;
    if cur_nonempty {
        lines.push(cur);
        assert(lines@.map_values(|l: String| l@) == done.map_values(|l: String| l@).push(line_scan(seen).1));
    }
    lines
}

/// The Unicode `White_Space` property (PropList.txt), which is what
/// `char::is_whitespace` and `str::trim` go by.
pub open spec fn is_white_space(c: char) -> bool {
    ||| ('\u{9}' <= c && c <= '\u{D}')
    ||| c == ' '
    ||| c == '\u{85}'
    ||| c == '\u{A0}'
    ||| c == '\u{1680}'
    ||| ('\u{2000}' <= c && c <= '\u{200A}')
    ||| c == '\u{2028}'
    ||| c == '\u{2029}'
    ||| c == '\u{202F}'
    ||| c == '\u{205F}'
    ||| c == '\u{3000}'
}

/// A text with nothing but white space in it (what `s.trim().is_empty()`
/// tells).
pub open spec fn spec_is_blank(s: Seq<char>) -> bool {
    forall|i: int| 0 <= i < s.len() ==> is_white_space(#[trigger] s[i])
}

/// Whether `c` has the Unicode `White_Space` property.
pub fn is_whitespace(c: char) -> (r: bool)
    ensures
        r == is_white_space(c),
{
    ('\u{9}' <= c && c <= '\u{D}') || c == ' ' || c == '\u{85}' || c == '\u{A0}'
        || c == '\u{1680}' || ('\u{2000}' <= c && c <= '\u{200A}') || c == '\u{2028}'
        || c == '\u{2029}' || c == '\u{202F}' || c == '\u{205F}' || c == '\u{3000}'
}

/// Whether `s` holds only white space, so that trimming it leaves nothing.
pub fn is_blank(s: &str) -> (r: bool)
    ensures
        r == spec_is_blank(s@),
{
    let chars = s.chars();
    proof {
        axiom_spec_iter(s);
    }
    for c in it: chars
        invariant
            it.seq() == s@,
            forall|i: int| 0 <= i < it.index() ==> is_white_space(#[trigger] s@[i]),
    {
        if !is_whitespace(c) {
            return false;
        }
    }
    true
}

/// The characters of `s`, one by one.
pub fn to_chars(s: &str) -> (v: Vec<char>)
    ensures
        v@ == s@,
{
    let mut v: Vec<char> = Vec::new();
    let chars = s.chars();
    proof {
        axiom_spec_iter(s);
    }
    for c in it: chars
        invariant
            it.seq() == s@,
            v@ == s@.take(it.index() as int),
    {
        v.push(c);
        assert(v@ =~= s@.take(it.index() + 1));
    }
    assert(v@ =~= s@);
    v
}

/// A `String` made of the characters `chars[from..to]`.
pub fn string_of(chars: &Vec<char>, from: usize, to: usize) -> (r: String)
    requires
        from <= to <= chars@.len(),
    ensures
        r@ == chars@.subrange(from as int, to as int),
{
    let mut r = String::new();
    for k in from..to
        invariant
            to <= chars@.len(),
            r@ == chars@.subrange(from as int, k as int),
    {
        push_char(&mut r, chars[k]);
        assert(r@ =~= chars@.subrange(from as int, k + 1));
    }
    r
}

/// Whether `a[from..from + b.len()]` is exactly `b`.
pub fn matches_at(a: &Vec<char>, from: usize, b: &Vec<char>) -> (r: bool)
    requires
        from <= a@.len(),
    ensures
        r == (from + b@.len() <= a@.len() && a@.subrange(from as int, from + b@.len()) == b@),
{
    if b.len() > a.len() - from {
        return false;
    }
    let n = b.len();
    for k in 0..n
        invariant
            n == b@.len(),
            from + n <= a@.len(),
            from + n <= a.len(),
            forall|m: int| 0 <= m < k ==> a@[from + m] == b@[m],
    {
        if a[from + k] != b[k] {
            assert(a@.subrange(from as int, from + n)[k as int] != b@[k as int]);
            return false;
        }
    }
    assert(a@.subrange(from as int, from + n) =~= b@);
    true
}

} // verus!
