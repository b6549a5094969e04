//! Command-line option lookup.

use vstd::prelude::*;
use crate::text::{to_chars, string_of, matches_at};

verus! {

/// `arg` is `name=value` (the equals form of the option `name`).
pub open spec fn is_equals_form(arg: Seq<char>, name: Seq<char>) -> bool {
    &&& arg.len() > name.len()
    &&& arg.take(name.len() as int) == name
    &&& arg[name.len() as int] == '='
}

/// The value of an option whose name is among `names`, looking at the
/// arguments from `args[i]` on, and at `args[i]` from the name `names[j]`
/// on. The first argument that is `name=value` gives `value`; the first one
/// that is `name` itself gives the argument after it, or nothing when it is
/// the last one.
pub open spec fn cli_scan(args: Seq<Seq<char>>, names: Seq<Seq<char>>, i: int, j: int) -> Option<
    Seq<char>,
>
    decreases args.len() - i, names.len() - j,
{
    if i < 0 || j < 0 || i >= args.len() {
        None
    } else if j >= names.len() {
        cli_scan(args, names, i + 1, 0)
    } else if is_equals_form(args[i], names[j]) {
        Some(args[i].skip(names[j].len() as int + 1))
    } else if args[i] == names[j] {
        if i + 1 < args.len() {
            Some(args[i + 1])
        } else {
            None
        }
    } else {
        cli_scan(args, names, i, j + 1)
    }
}

/// What `cli_value` finds: the value of an option written `--name=value`,
/// `--name value`, `-n=value` or `-n value`, for any `name` in `names`.
pub open spec fn spec_cli_value(args: Seq<Seq<char>>, names: Seq<Seq<char>>) -> Option<Seq<char>> {
    cli_scan(args, names, 0, 0)
}

/// `arg` is neither `name=value` nor `name`, for any name from `names[j]`
/// on.
pub open spec fn no_match_from(arg: Seq<char>, names: Seq<Seq<char>>, j: int) -> bool {
    forall|m: int| j <= m < names.len() ==> !is_equals_form(arg, #[trigger] names[m]) && arg != names[m]
}

proof fn scan_skips_an_unmatched_argument(args: Seq<Seq<char>>, names: Seq<Seq<char>>, i: int, j: int)
    requires
        0 <= i < args.len(),
        0 <= j <= names.len(),
        no_match_from(args[i], names, j),
    ensures
        cli_scan(args, names, i, j) == cli_scan(args, names, i + 1, 0),
    decreases names.len() - j,
{
    if j < names.len() {
        scan_skips_an_unmatched_argument(args, names, i, j + 1);
    }
}

proof fn scan_skips_unmatched_arguments(args: Seq<Seq<char>>, names: Seq<Seq<char>>, i: int)
    requires
        0 <= i <= args.len(),
        forall|k: int| 0 <= k < i ==> no_match_from(#[trigger] args[k], names, 0),
    ensures
        cli_scan(args, names, 0, 0) == cli_scan(args, names, i, 0),
    decreases i,
{
    if i > 0 {
        scan_skips_unmatched_arguments(args, names, i - 1);
        scan_skips_an_unmatched_argument(args, names, i - 1, 0);
    }
}

/// Both forms of an option give its value: `name=value` as one argument,
/// or `name` followed by `value`, after any arguments that are not this
/// option, and whatever follows.
pub proof fn both_option_forms_give_the_value(
    before: Seq<Seq<char>>,
    after: Seq<Seq<char>>,
    name: Seq<char>,
    value: Seq<char>,
)
    requires
        forall|k: int| 0 <= k < before.len() ==> !is_equals_form(#[trigger] before[k], name) && before[k] != name,
    ensures
        spec_cli_value(before + seq![name.push('=') + value] + after, seq![name]) == Some(value),
        spec_cli_value(before + seq![name, value] + after, seq![name]) == Some(value),
{
    let names = seq![name];
    let a1 = before + seq![name.push('=') + value] + after;
    let a2 = before + seq![name, value] + after;
    let i = before.len() as int;
    assert forall|k: int| 0 <= k < i implies no_match_from(#[trigger] a1[k], names, 0) by {
        assert(a1[k] == before[k]);
    }
    assert forall|k: int| 0 <= k < i implies no_match_from(#[trigger] a2[k], names, 0) by {
        assert(a2[k] == before[k]);
    }
    scan_skips_unmatched_arguments(a1, names, i);
    scan_skips_unmatched_arguments(a2, names, i);
    let arg = name.push('=') + value;
    assert(a1[i] == arg);
    assert(arg.take(name.len() as int) =~= name);
    assert(arg[name.len() as int] == '=');
    assert(arg.skip(name.len() as int + 1) =~= value);
    assert(a2[i] == name);
    assert(a2[i + 1] == value);
}

/// No name listed before `names[j]` takes `arg` for itself: each is either
/// `names[j]` again or reads `arg` neither as `name=value` nor as `name`.
pub open spec fn earlier_names_leave(arg: Seq<char>, names: Seq<Seq<char>>, j: int) -> bool {
    forall|m: int|
        0 <= m < j ==> #[trigger] names[m] == names[j] || (!is_equals_form(arg, names[m]) && arg
            != names[m])
}

proof fn scan_passes_earlier_names(args: Seq<Seq<char>>, names: Seq<Seq<char>>, i: int, m: int, j: int)
    requires
        0 <= i < args.len(),
        0 <= m <= j < names.len(),
        forall|k: int|
            m <= k < j ==> #[trigger] names[k] == names[j] || (!is_equals_form(args[i], names[k])
                && args[i] != names[k]),
    ensures
        cli_scan(args, names, i, m) == cli_scan(args, names, i, j),
    decreases j - m,
{
    if m < j {
        scan_passes_earlier_names(args, names, i, m + 1, j);
    }
}

/// Without any of the options among the arguments, there is no value.
pub proof fn no_option_no_value(args: Seq<Seq<char>>, names: Seq<Seq<char>>)
    requires
        forall|k: int| 0 <= k < args.len() ==> no_match_from(#[trigger] args[k], names, 0),
    ensures
        spec_cli_value(args, names) is None,
{
    scan_skips_unmatched_arguments(args, names, args.len() as int);
}

/// Every name of the list takes both forms, not only the first or the
/// last: after arguments that are none of the options, `name value` and
/// `name=value` give `value`, whatever follows, as long as no name listed
/// before it takes that argument for itself; `name` as the last argument
/// gives nothing.
pub proof fn every_listed_name_takes_both_forms(
    before: Seq<Seq<char>>,
    after: Seq<Seq<char>>,
    names: Seq<Seq<char>>,
    j: int,
    value: Seq<char>,
)
    requires
        0 <= j < names.len(),
        forall|k: int| 0 <= k < before.len() ==> no_match_from(#[trigger] before[k], names, 0),
    ensures
        earlier_names_leave(names[j], names, j) ==> spec_cli_value(
            before + seq![names[j], value] + after,
            names,
        ) == Some(value),
        earlier_names_leave(names[j].push('=') + value, names, j) ==> spec_cli_value(
            before + seq![names[j].push('=') + value] + after,
            names,
        ) == Some(value),
        earlier_names_leave(names[j], names, j) ==> spec_cli_value(before + seq![names[j]], names)
            is None,
{
    let name = names[j];
    let arg = name.push('=') + value;
    let a1 = before + seq![arg] + after;
    let a2 = before + seq![name, value] + after;
    let i = before.len() as int;
    assert forall|k: int| 0 <= k < i implies no_match_from(#[trigger] a1[k], names, 0) by {
        assert(a1[k] == before[k]);
    }
    assert forall|k: int| 0 <= k < i implies no_match_from(#[trigger] a2[k], names, 0) by {
        assert(a2[k] == before[k]);
    }
    scan_skips_unmatched_arguments(a1, names, i);
    scan_skips_unmatched_arguments(a2, names, i);
    assert(a1[i] == arg);
    assert(a2[i] == name);
    assert(a2[i + 1] == value);
    assert(arg.take(name.len() as int) =~= name);
    assert(arg[name.len() as int] == '=');
    assert(arg.skip(name.len() as int + 1) =~= value);
    if earlier_names_leave(name, names, j) {
        scan_passes_earlier_names(a2, names, i, 0, j);
        let a3 = before + seq![name];
        assert forall|k: int| 0 <= k < i implies no_match_from(#[trigger] a3[k], names, 0) by {
            assert(a3[k] == before[k]);
        }
        scan_skips_unmatched_arguments(a3, names, i);
        assert(a3[i] == name);
        scan_passes_earlier_names(a3, names, i, 0, j);
    }
    if earlier_names_leave(arg, names, j) {
        scan_passes_earlier_names(a1, names, i, 0, j);
    }
}

/// The emulator's options each have a long name and a short one that part
/// at their second character (`--disk` and `-d`): with such a pair, all
/// four forms give the value, after arguments that are none of them.
pub proof fn long_and_short_names_take_both_forms(
    before: Seq<Seq<char>>,
    after: Seq<Seq<char>>,
    long: Seq<char>,
    short: Seq<char>,
    value: Seq<char>,
)
    requires
        long.len() > 1,
        short.len() > 1,
        long[1] != short[1],
        forall|k: int| 0 <= k < before.len() ==> no_match_from(#[trigger] before[k], seq![long, short], 0),
    ensures
        spec_cli_value(before + seq![long, value] + after, seq![long, short]) == Some(value),
        spec_cli_value(before + seq![long.push('=') + value] + after, seq![long, short]) == Some(value),
        spec_cli_value(before + seq![short, value] + after, seq![long, short]) == Some(value),
        spec_cli_value(before + seq![short.push('=') + value] + after, seq![long, short]) == Some(value),
{
    let names = seq![long, short];
    let arg = short.push('=') + value;
    assert(arg[1] == short[1]);
    assert(earlier_names_leave(long, names, 0));
    assert(earlier_names_leave(long.push('=') + value, names, 0));
    assert(!is_equals_form(short, long)) by {
        if is_equals_form(short, long) {
            assert(short.take(long.len() as int)[1] == long[1]);
        }
    }
    assert(!is_equals_form(arg, long)) by {
        if is_equals_form(arg, long) {
            assert(arg.take(long.len() as int)[1] == long[1]);
        }
    }
    assert(short != long);
    assert(arg != long);
    assert(earlier_names_leave(short, names, 1));
    assert(earlier_names_leave(arg, names, 1));
    every_listed_name_takes_both_forms(before, after, names, 0, value);
    every_listed_name_takes_both_forms(before, after, names, 1, value);
}

/// Looks up the value of an option `--name=value`, `--name value`,
/// `-name=value` or `-name value` among the command-line arguments. `names`
/// gives the accepted forms (for instance `["--autocmd", "-a"]`).
pub fn cli_value(args: &[String], names: &[&str]) -> (r: Option<String>)
    ensures
        match r {
            None => spec_cli_value(args@.map_values(|a: String| a@), names@.map_values(|n: &str| n@))
                is None,
            Some(v) => spec_cli_value(
                args@.map_values(|a: String| a@),
                names@.map_values(|n: &str| n@),
            ) == Some(v@),
        },
{
    let ghost av = args@.map_values(|a: String| a@);
    let ghost nv = names@.map_values(|n: &str| n@);
    let n_args = args.len();
    let n_names = names.len();
    for i in 0..n_args
        invariant
            n_args == args@.len(),
            n_names == names@.len(),
            av == args@.map_values(|a: String| a@),
            nv == names@.map_values(|n: &str| n@),
            cli_scan(av, nv, 0, 0) == cli_scan(av, nv, i as int, 0),
    {
        let arg = to_chars(args[i].as_str());
        for j in 0..n_names
            invariant
                n_args == args@.len(),
                n_names == names@.len(),
                i < n_args,
                av == args@.map_values(|a: String| a@),
                nv == names@.map_values(|n: &str| n@),
                arg@ == av[i as int],
                cli_scan(av, nv, 0, 0) == cli_scan(av, nv, i as int, j as int),
        {
            let name = to_chars(names[j]);
            assert(name@ == nv[j as int]);
            let n = name.len();
            let prefixed = matches_at(&arg, 0, &name);
            if prefixed && n < arg.len() && arg[n] == '=' {
                assert(arg@.subrange(0, n as int) == arg@.take(n as int));
                let value = string_of(&arg, n + 1, arg.len());
                assert(value@ =~= arg@.skip(n as int + 1));
                return Some(value);
            }
            assert(!is_equals_form(av[i as int], nv[j as int]));
            if prefixed && n == arg.len() {
                assert(arg@ =~= name@);
                if i + 1 < n_args {
                    return Some(args[i + 1].clone());
                } else {
                    return None;
                }
            }
            proof {
                if av[i as int] == nv[j as int] {
                    assert(arg@.subrange(0, n as int) =~= arg@);
                }
            }
        }
    }
    None
}

/// Whether `flag` is one of the arguments, as is.
pub fn has_flag(args: &[String], flag: &str) -> (r: bool)
    ensures
        r == args@.map_values(|a: String| a@).contains(flag@),
{
    let ghost av = args@.map_values(|a: String| a@);
    let n = args.len();
    let f = to_chars(flag);
    for i in 0..n
        invariant
            n == args@.len(),
            av == args@.map_values(|a: String| a@),
            f@ == flag@,
            forall|k: int| 0 <= k < i ==> av[k] != flag@,
    {
        let a = to_chars(args[i].as_str());
        let same = a.len() == f.len() && matches_at(&a, 0, &f);
        proof {
            if a@.len() == f@.len() {
                assert(a@.subrange(0, f@.len() as int) =~= a@);
            }
        }
        if same {
            assert(av[i as int] == flag@);
            return true;
        }
    }
    false
}

/// The emulator's command-line options.
pub struct CliOptions {
    /// `--diag`: start with the diagnostic ROM.
    pub diag: bool,
    /// `--autocmd` / `-a`: a BASIC command typed in at start-up.
    pub autocmd: Option<String>,
    /// `--disk` / `-d`: a disk image for drive A.
    pub disk: Option<String>,
    /// `--tape` / `-t`: a tape image.
    pub tape: Option<String>,
    /// `--snapshot` / `-s`: a snapshot to resume.
    pub snapshot: Option<String>,
}

/// The value of an option as a plain value.
pub open spec fn option_view(o: Option<String>) -> Option<Seq<char>> {
    match o {
        Some(s) => Some(s@),
        None => None,
    }
}

impl CliOptions {
    /// Reads the options from the command-line arguments.
    pub fn from_args(args: &[String]) -> (o: Self)
        ensures
            o.diag == args@.map_values(|a: String| a@).contains("--diag"@),
            option_view(o.autocmd) == spec_cli_value(
                args@.map_values(|a: String| a@),
                seq!["--autocmd"@, "-a"@],
            ),
            option_view(o.disk) == spec_cli_value(
                args@.map_values(|a: String| a@),
                seq!["--disk"@, "-d"@],
            ),
            option_view(o.tape) == spec_cli_value(
                args@.map_values(|a: String| a@),
                seq!["--tape"@, "-t"@],
            ),
            option_view(o.snapshot) == spec_cli_value(
                args@.map_values(|a: String| a@),
                seq!["--snapshot"@, "-s"@],
            ),
    {
        let autocmd_names = ["--autocmd", "-a"];
        assert(autocmd_names@.map_values(|n: &str| n@) =~= seq!["--autocmd"@, "-a"@]);
        let disk_names = ["--disk", "-d"];
        assert(disk_names@.map_values(|n: &str| n@) =~= seq!["--disk"@, "-d"@]);
        let tape_names = ["--tape", "-t"];
        assert(tape_names@.map_values(|n: &str| n@) =~= seq!["--tape"@, "-t"@]);
        let snapshot_names = ["--snapshot", "-s"];
        assert(snapshot_names@.map_values(|n: &str| n@) =~= seq!["--snapshot"@, "-s"@]);
        CliOptions {
            diag: has_flag(args, "--diag"),
            autocmd: cli_value(args, autocmd_names.as_slice()),
            disk: cli_value(args, disk_names.as_slice()),
            tape: cli_value(args, tape_names.as_slice()),
            snapshot: cli_value(args, snapshot_names.as_slice()),
        }
    }
}

} // verus!
