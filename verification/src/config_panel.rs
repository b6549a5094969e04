//! State and decisions of the configuration/media panel: the zoom choices,
//! the active tab, the blank-disk form, the names shown for the inserted
//! media, and the ROM installer tab.

use vstd::prelude::*;
use vstd::string::*;
use crate::rom_install_panel::RomInstallState;
use crate::text::{to_chars, matches_at};

verus! {

/// Zoom level asked for from the panel: a presentation state, applied to the
/// window by the caller exactly as the zoom keys are.
#[derive(Clone, Copy, PartialEq, Eq, Debug, Structural)]
pub enum ZoomChoice {
    X1,
    X2,
    X3,
    Fullscreen,
}

/// The spelling of a zoom level in the `display.default_zoom` setting.
pub open spec fn zoom_config_str(z: ZoomChoice) -> Seq<char> {
    match z {
        ZoomChoice::X1 => "x1"@,
        ZoomChoice::X2 => "x2"@,
        ZoomChoice::X3 => "x3"@,
        ZoomChoice::Fullscreen => "fullscreen"@,
    }
}

impl ZoomChoice {
    /// The form `display.default_zoom` takes in the configuration file.
    pub fn as_config_str(self) -> (r: &'static str)
        ensures
            r@ == zoom_config_str(self),
    {
        match self {
            ZoomChoice::X1 => "x1",
            ZoomChoice::X2 => "x2",
            ZoomChoice::X3 => "x3",
            ZoomChoice::Fullscreen => "fullscreen",
        }
    }
}

/// Each zoom level has a spelling of its own, so that the saved setting
/// reads back as the level it was saved from.
pub proof fn zoom_spellings_are_distinct(a: ZoomChoice, b: ZoomChoice)
    ensures
        zoom_config_str(a) == zoom_config_str(b) ==> a == b,
{
    reveal_strlit("x1");
    reveal_strlit("x2");
    reveal_strlit("x3");
    reveal_strlit("fullscreen");
    if zoom_config_str(a) == zoom_config_str(b) && a != b {
        let sa = zoom_config_str(a);
        let sb = zoom_config_str(b);
        assert(sa.len() == sb.len());
        assert(sa[1] == sb[1]);
    }
}

/// Active tab of the panel.
#[derive(Clone, Copy, PartialEq, Eq, Debug, Structural)]
pub enum Tab {
    General,
    Crt,
    Roms,
    Help,
}

/// Where the last `/`-separated segment of `s` starts.
pub open spec fn segment_start(s: Seq<char>) -> int
    decreases s.len(),
{
    if s.len() == 0 {
        0
    } else if s.last() == '/' {
        s.len() as int
    } else {
        segment_start(s.drop_last())
    }
}

pub proof fn segment_start_bounds(s: Seq<char>)
    ensures
        0 <= segment_start(s) <= s.len(),
        s.len() > 0 && s.last() != '/' ==> segment_start(s) < s.len(),
    decreases s.len(),
{
    if s.len() > 0 && s.last() != '/' {
        segment_start_bounds(s.drop_last());
    }
}

/// The file name of a Unix path, as `Path::file_name` gives it: the last
/// component once repeated and trailing separators and `.` components are
/// set aside; none when there is no such component, or when it is `..`.
pub open spec fn file_name(s: Seq<char>) -> Option<Seq<char>>
    decreases s.len(),
{
    if s.len() == 0 {
        None
    } else if s.last() == '/' {
        file_name(s.drop_last())
    } else {
        let k = segment_start(s);
        let seg = s.skip(k);
        if seg == seq!['.'] {
            proof {
                segment_start_bounds(s);
            }
            file_name(s.take(k))
        } else if seg == seq!['.', '.'] {
            None
        } else {
            Some(seg)
        }
    }
}

/// The name shown for a loaded disk or tape: the file name alone, or the
/// whole path when it has none.
pub open spec fn spec_display_name(path: Seq<char>) -> Seq<char> {
    match file_name(path) {
        Some(name) => name,
        None => path,
    }
}

proof fn segment_start_is(t: Seq<char>, start: int)
    requires
        0 <= start <= t.len(),
        forall|m: int| start <= m < t.len() ==> t[m] != '/',
        start == 0 || t[start - 1] == '/',
    ensures
        segment_start(t) == start,
    decreases t.len(),
{
    if t.len() > start {
        assert(t.drop_last().len() == t.len() - 1);
        segment_start_is(t.drop_last(), start);
    }
}

/// A plain file name (no separator, not `.` nor `..`) is its own file name.
pub proof fn a_plain_name_is_its_own_file_name(name: Seq<char>)
    requires
        name.len() > 0,
        !name.contains('/'),
        name != seq!['.'],
        name != seq!['.', '.'],
    ensures
        file_name(name) == Some(name),
{
    assert forall|m: int| 0 <= m < name.len() implies name[m] != '/' by {
        if name[m] == '/' {
            assert(name.contains('/'));
        }
    }
    segment_start_is(name, 0);
    assert(name.last() != '/') by {
        assert(name[name.len() - 1] != '/');
    }
    assert(name.skip(0) =~= name);
}

/// The file name of `dir/name`, for a plain `name`, is `name`, whatever the
/// directory.
pub proof fn the_file_name_is_the_last_component(dir: Seq<char>, name: Seq<char>)
    requires
        name.len() > 0,
        !name.contains('/'),
        name != seq!['.'],
        name != seq!['.', '.'],
    ensures
        file_name(dir + seq!['/'] + name) == Some(name),
{
    let t = dir + seq!['/'] + name;
    let k = dir.len() as int + 1;
    assert forall|m: int| k <= m < t.len() implies t[m] != '/' by {
        assert(t[m] == name[m - k]);
        if name[m - k] == '/' {
            assert(name.contains('/'));
        }
    }
    assert(t[k - 1] == '/');
    segment_start_is(t, k);
    assert(t.last() != '/') by {
        assert(t.last() == name[name.len() - 1]);
        assert(!name.contains('/'));
    }
    assert(t.skip(k) =~= name);
}

/// Whether two texts are the same.
pub fn same_text(a: &str, b: &str) -> (r: bool)
    ensures
        r == (a@ == b@),
{
    let ac = to_chars(a);
    let bc = to_chars(b);
    let r = ac.len() == bc.len() && matches_at(&ac, 0, &bc);
    proof {
        if ac@.len() == bc@.len() {
            assert(ac@.subrange(0, bc@.len() as int) =~= ac@);
        }
    }
    r
}

/// What a drive row shows: whether a disk is loaded (the drive reports the
/// name `None` when empty), and the name to show for it.
pub fn drive_label(current_filename: &str) -> (r: (bool, &str))
    ensures
        r.0 == (current_filename@ != "None"@),
        r.0 ==> r.1@ == spec_display_name(current_filename@),
        !r.0 ==> r.1@ == "(empty)"@,
{
    let loaded = !same_text(current_filename, "None");
    if loaded {
        (true, ConfigPanel::display_name(current_filename))
    } else {
        (false, "(empty)")
    }
}

/// What the tape row shows for the tape inserted, if any.
pub fn tape_label(current_filename: Option<&str>) -> (r: &str)
    ensures
        match current_filename {
            Some(path) => r@ == spec_display_name(path@),
            None => r@ == "(empty)"@,
        },
{
    match current_filename {
        Some(path) => ConfigPanel::display_name(path),
        None => "(empty)",
    }
}

/// The argument of a switch command.
pub fn switch_arg(enabled: bool) -> (r: &'static str)
    ensures
        enabled ==> r@ == "on"@,
        !enabled ==> r@ == "off"@,
{
    if enabled {
        "on"
    } else {
        "off"
    }
}

pub struct ConfigPanel {
    /// File name for a new blank disk: user input only.
    blank_disk_name: String,
    blank_disk_drive_b: bool,
    tab: Tab,
    /// The "Enable at startup" box of the CRT tab.
    crt_enabled_at_startup: bool,
    /// The ROM installer tab.
    roms: RomInstallState,
}

impl ConfigPanel {
    /// The name shown for a loaded medium: the file name only, not the whole
    /// path (which stays what is loaded).
    pub fn display_name(path: &str) -> (r: &str)
        ensures
            r@ == spec_display_name(path@),
    {
        let chars = to_chars(path);
        let mut end = chars.len();
        assert(path@.take(end as int) =~= path@);
        loop
            invariant
                chars@ == path@,
                end <= chars@.len(),
                file_name(path@.take(end as int)) == file_name(path@),
            decreases end,
        {
            let ghost end0 = end;
            while end > 0 && chars[end - 1] == '/'
                invariant
                    chars@ == path@,
                    end <= end0,
                    end <= chars@.len(),
                    file_name(path@.take(end as int)) == file_name(path@),
                decreases end,
            {
                assert(path@.take(end as int).drop_last() =~= path@.take(end - 1));
                end = end - 1;
            }
            if end == 0 {
                return path;
            }
            let mut start = end;
            while start > 0 && chars[start - 1] != '/'
                invariant
                    chars@ == path@,
                    start <= end <= chars@.len(),
                    end <= end0,
                    end > 0,
                    chars@[end - 1] != '/',
                    forall|m: int| start <= m < end ==> chars@[m] != '/',
                decreases start,
            {
                start = start - 1;
            }
            let ghost t = path@.take(end as int);
            proof {
                segment_start_is(t, start as int);
                assert(t.last() != '/');
            }
            let seg_len = end - start;
            if seg_len == 1 && chars[start] == '.' {
                assert(t.skip(start as int) =~= seq!['.']);
                assert(t.take(start as int) =~= path@.take(start as int));
                end = start;
            } else if seg_len == 2 && chars[start] == '.' && chars[start + 1] == '.' {
                assert(t.skip(start as int) =~= seq!['.', '.']);
                return path;
            } else {
                proof {
                    if seg_len == 1 {
                        assert(t.skip(start as int)[0] != '.');
                    }
                    if seg_len == 2 {
                        assert(t.skip(start as int)[0] != '.' || t.skip(start as int)[1] != '.');
                    }
                }
                let name = path.substring_char(start, end);
                assert(name@ =~= t.skip(start as int));
                return name;
            }
        }
    }

    pub closed spec fn spec_blank_disk_name(&self) -> Seq<char> {
        self.blank_disk_name@
    }

    pub closed spec fn spec_blank_disk_drive_b(&self) -> bool {
        self.blank_disk_drive_b
    }

    pub closed spec fn spec_tab(&self) -> Tab {
        self.tab
    }

    pub closed spec fn spec_crt_enabled_at_startup(&self) -> bool {
        self.crt_enabled_at_startup
    }

    pub closed spec fn spec_roms(&self) -> RomInstallState {
        self.roms
    }

    pub fn new(crt_enabled_at_startup: bool) -> (p: Self)
        ensures
            p.spec_blank_disk_name() == Seq::<char>::empty(),
            !p.spec_blank_disk_drive_b(),
            p.spec_tab() == Tab::General,
            p.spec_crt_enabled_at_startup() == crt_enabled_at_startup,
            p.spec_roms().spec_status() is Idle,
            p.spec_roms().never_stuck(),
            !p.spec_roms().spec_accepted(),
            !p.spec_roms().spec_listening(),
    {
        Self {
            blank_disk_name: String::new(),
            blank_disk_drive_b: false,
            tab: Tab::General,
            crt_enabled_at_startup,
            roms: RomInstallState::new(),
        }
    }

    /// Selects the ROMs tab, so that the panel opens straight on the
    /// installer when the ROMs could not be loaded.
    pub fn open_on_roms_tab(&mut self)
        ensures
            final(self).spec_tab() == Tab::Roms,
            final(self).spec_blank_disk_name() == old(self).spec_blank_disk_name(),
            final(self).spec_blank_disk_drive_b() == old(self).spec_blank_disk_drive_b(),
            final(self).spec_crt_enabled_at_startup() == old(self).spec_crt_enabled_at_startup(),
            final(self).spec_roms() == old(self).spec_roms(),
    {
        self.tab = Tab::Roms;
    }

    pub fn tab(&self) -> (r: Tab)
        ensures
            r == self.spec_tab(),
    {
        self.tab
    }

    pub fn set_tab(&mut self, tab: Tab)
        ensures
            final(self).spec_tab() == tab,
            final(self).spec_blank_disk_name() == old(self).spec_blank_disk_name(),
            final(self).spec_blank_disk_drive_b() == old(self).spec_blank_disk_drive_b(),
            final(self).spec_crt_enabled_at_startup() == old(self).spec_crt_enabled_at_startup(),
            final(self).spec_roms() == old(self).spec_roms(),
    {
        self.tab = tab;
    }

    /// The blank-disk name field, for editing.
    pub fn blank_disk_name_mut(&mut self) -> (r: &mut String)
        ensures
            (*r)@ == old(self).spec_blank_disk_name(),
            final(self).spec_blank_disk_name() == final(r)@,
            final(self).spec_blank_disk_drive_b() == old(self).spec_blank_disk_drive_b(),
            final(self).spec_tab() == old(self).spec_tab(),
            final(self).spec_crt_enabled_at_startup() == old(self).spec_crt_enabled_at_startup(),
            final(self).spec_roms() == old(self).spec_roms(),
    {
        &mut self.blank_disk_name
    }

    pub fn blank_disk_drive_b(&self) -> (r: bool)
        ensures
            r == self.spec_blank_disk_drive_b(),
    {
        self.blank_disk_drive_b
    }

    pub fn set_blank_disk_drive_b(&mut self, drive_b: bool)
        ensures
            final(self).spec_blank_disk_drive_b() == drive_b,
            final(self).spec_blank_disk_name() == old(self).spec_blank_disk_name(),
            final(self).spec_tab() == old(self).spec_tab(),
            final(self).spec_crt_enabled_at_startup() == old(self).spec_crt_enabled_at_startup(),
            final(self).spec_roms() == old(self).spec_roms(),
    {
        self.blank_disk_drive_b = drive_b;
    }

    /// The "Create" button is enabled once a name is typed.
    pub fn can_create_blank_disk(&self) -> (r: bool)
        ensures
            r == (self.spec_blank_disk_name().len() > 0),
    {
        !self.blank_disk_name.as_str().is_empty()
    }

    /// "Create" was clicked: the command's two arguments, the disk name
    /// (taken out of the field) and `b` for drive B or nothing for drive A.
    pub fn take_blank_disk_request(&mut self) -> (r: (String, &'static str))
        ensures
            r.0@ == old(self).spec_blank_disk_name(),
            old(self).spec_blank_disk_drive_b() ==> r.1@ == "b"@,
            !old(self).spec_blank_disk_drive_b() ==> r.1@ == ""@,
            final(self).spec_blank_disk_name() == Seq::<char>::empty(),
            final(self).spec_blank_disk_drive_b() == old(self).spec_blank_disk_drive_b(),
            final(self).spec_tab() == old(self).spec_tab(),
            final(self).spec_crt_enabled_at_startup() == old(self).spec_crt_enabled_at_startup(),
            final(self).spec_roms() == old(self).spec_roms(),
    {
        let mut name = String::new();
        std::mem::swap(&mut name, &mut self.blank_disk_name);
        let drive = if self.blank_disk_drive_b {
            "b"
        } else {
            ""
        };
        (name, drive)
    }

    pub fn crt_enabled_at_startup(&self) -> (r: bool)
        ensures
            r == self.spec_crt_enabled_at_startup(),
    {
        self.crt_enabled_at_startup
    }

    pub fn set_crt_enabled_at_startup(&mut self, enabled: bool)
        ensures
            final(self).spec_crt_enabled_at_startup() == enabled,
            final(self).spec_blank_disk_name() == old(self).spec_blank_disk_name(),
            final(self).spec_blank_disk_drive_b() == old(self).spec_blank_disk_drive_b(),
            final(self).spec_tab() == old(self).spec_tab(),
            final(self).spec_roms() == old(self).spec_roms(),
    {
        self.crt_enabled_at_startup = enabled;
    }

    pub fn roms(&self) -> (r: &RomInstallState)
        ensures
            *r == self.spec_roms(),
    {
        &self.roms
    }

    /// The ROM installer tab's state, for its frame.
    pub fn roms_mut(&mut self) -> (r: &mut RomInstallState)
        ensures
            *r == old(self).spec_roms(),
            final(self).spec_roms() == *final(r),
            final(self).spec_blank_disk_name() == old(self).spec_blank_disk_name(),
            final(self).spec_blank_disk_drive_b() == old(self).spec_blank_disk_drive_b(),
            final(self).spec_tab() == old(self).spec_tab(),
            final(self).spec_crt_enabled_at_startup() == old(self).spec_crt_enabled_at_startup(),
    {
        &mut self.roms
    }
}

} // verus!
