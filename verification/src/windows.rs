//! How the `ddev` tool is found and called on Windows, where it runs
//! either natively or inside the Windows Subsystem for Linux.

use vstd::prelude::*;
use vstd::string::*;
use crate::commands::utils::{DesktopCommand, DesktopCommandView};
use crate::ddev::{DdevTool, DdevToolView, first_present, pick_first};
use crate::text::{concat, join, join_text, strings};

verus! {

/// The directories below a directory of the environment, where the
/// variable that names it is set.
pub open spec fn below(dir: Option<Seq<char>>, tails: Seq<Seq<char>>) -> Seq<Seq<char>> {
    match dir {
        Some(d) => Seq::new(tails.len(), |i: int| d + tails[i]),
        None => Seq::empty(),
    }
}

/// The directories in which the tool is commonly installed on Windows:
/// two fixed ones, then those below the user's profile, the directory of
/// Chocolatey and the directory for program data, as far as the
/// environment names them.
pub open spec fn common_paths(
    userprofile: Option<Seq<char>>,
    chocolatey_install: Option<Seq<char>>,
    program_data: Option<Seq<char>>,
) -> Seq<Seq<char>> {
    seq!["C:\\Program Files\\ddev"@, "C:\\ddev"@] + below(
        userprofile,
        seq!["\\AppData\\Local\\Programs\\ddev"@, "\\scoop\\shims"@],
    ) + below(chocolatey_install, seq!["\\bin"@]) + below(
        program_data,
        seq!["\\chocolatey\\bin"@],
    )
}

fn push_below(paths: &mut Vec<String>, dir: Option<&str>, tails: &[&str])
    ensures
        final(paths).deep_view() == old(paths).deep_view() + below(
            dir.deep_view(),
            tails.deep_view(),
        ),
{
    match dir {
        Some(d) => {
            let mut i: usize = 0;
            while i < tails.len()
                invariant
                    i <= tails.len(),
                    paths.len() == old(paths).len() + i,
                    forall|j: int| 0 <= j < old(paths).len() ==> paths[j]@ == old(paths)[j]@,
                    forall|j: int| 0 <= j < i ==> paths[old(paths).len() + j]@ == d@ + tails[j]@,
                decreases tails.len() - i,
            {
                paths.push(concat(d, tails[i]));
                i = i + 1;
            }
            assert(paths.deep_view() =~= old(paths).deep_view() + below(
                dir.deep_view(),
                tails.deep_view(),
            ));
        },
        None => {
            assert(paths.deep_view() =~= old(paths).deep_view() + Seq::<Seq<char>>::empty());
        },
    }
}

/// The directories in which the tool is commonly installed on Windows,
/// from what the environment holds under `USERPROFILE`,
/// `ChocolateyInstall` and `ProgramData`.
pub fn get_common_paths(
    userprofile: Option<&str>,
    chocolatey_install: Option<&str>,
    program_data: Option<&str>,
) -> (paths: Vec<String>)
    ensures
        paths.deep_view() == common_paths(
            userprofile.deep_view(),
            chocolatey_install.deep_view(),
            program_data.deep_view(),
        ),
{
    let mut paths = strings(&["C:\\Program Files\\ddev", "C:\\ddev"]);
    assert(paths.deep_view() =~= seq!["C:\\Program Files\\ddev"@, "C:\\ddev"@]);
    let user_tails = ["\\AppData\\Local\\Programs\\ddev", "\\scoop\\shims"];
    assert(user_tails.deep_view() =~= seq!["\\AppData\\Local\\Programs\\ddev"@, "\\scoop\\shims"@]);
    push_below(&mut paths, userprofile, &user_tails);
    let choco_tails = ["\\bin"];
    assert(choco_tails.deep_view() =~= seq!["\\bin"@]);
    push_below(&mut paths, chocolatey_install, &choco_tails);
    let data_tails = ["\\chocolatey\\bin"];
    assert(data_tails.deep_view() =~= seq!["\\chocolatey\\bin"@]);
    push_below(&mut paths, program_data, &data_tails);
    paths
}

/// The places where the tool is looked for: `ddev.exe` in each of the
/// directories.
pub open spec fn ddev_candidates(paths: Seq<Seq<char>>) -> Seq<Seq<char>> {
    Seq::new(paths.len(), |i: int| paths[i] + "\\ddev.exe"@)
}

/// The places where the tool is looked for, in the order of the search.
pub fn get_ddev_candidates(paths: &Vec<String>) -> (candidates: Vec<String>)
    ensures
        candidates.deep_view() == ddev_candidates(paths.deep_view()),
{
    let mut candidates: Vec<String> = Vec::new();
    let mut i: usize = 0;
    while i < paths.len()
        invariant
            i <= paths.len(),
            candidates.len() == i,
            forall|j: int| 0 <= j < i ==> candidates[j]@ == paths[j]@ + "\\ddev.exe"@,
        decreases paths.len() - i,
    {
        candidates.push(concat(paths[i].as_str(), "\\ddev.exe"));
        i = i + 1;
    }
    assert(candidates.deep_view() =~= ddev_candidates(paths.deep_view()));
    candidates
}

/// Finds a native installation of the tool: `present[i]` tells whether
/// the `i`-th of `get_ddev_candidates` exists.
pub fn find_ddev_path(paths: &Vec<String>, present: &Vec<bool>) -> (found: Option<String>)
    ensures
        found.deep_view() == first_present(ddev_candidates(paths.deep_view()), present@),
{
    let candidates = get_ddev_candidates(paths);
    pick_first(&candidates, present)
}

/// The call that shows whether the tool is there inside the subsystem.
pub fn check_wsl_ddev() -> (command: DesktopCommand)
    ensures
        command@ == (DesktopCommandView { program: "wsl"@, args: seq!["ddev"@, "version"@] }),
{
    let args = strings(&["ddev", "version"]);
    assert(args.deep_view() =~= seq!["ddev"@, "version"@]);
    DesktopCommand { program: String::from_str("wsl"), args }
}

/// The call that shows whether the subsystem is there.
pub fn is_wsl_available() -> (command: DesktopCommand)
    ensures
        command@ == (DesktopCommandView { program: "wsl"@, args: seq!["--status"@] }),
{
    let args = strings(&["--status"]);
    assert(args.deep_view() =~= seq!["--status"@]);
    DesktopCommand { program: String::from_str("wsl"), args }
}

/// Whether the tool is run through the subsystem: it is where no native
/// installation was found and the subsystem has the tool.
pub fn is_using_wsl(native: bool, wsl_has_ddev: bool) -> (using: bool)
    ensures
        using == (!native && wsl_has_ddev),
{
    !native && wsl_has_ddev
}

/// How the tool is run on Windows: as `ddev` where it is installed
/// natively; as `wsl ddev` where only the subsystem has it; and as `ddev`
/// where neither has it, which then fails for want of the tool.
pub fn get_windows_ddev_execution(native: bool, wsl_has_ddev: bool) -> (execution: (
    &'static str,
    Vec<&'static str>,
))
    ensures
        execution.0@ == (if !native && wsl_has_ddev {
            "wsl"@
        } else {
            "ddev"@
        }),
        execution.1.deep_view() == (if !native && wsl_has_ddev {
            seq!["ddev"@]
        } else {
            Seq::<Seq<char>>::empty()
        }),
{
    let mut args: Vec<&'static str> = Vec::new();
    if is_using_wsl(native, wsl_has_ddev) {
        args.push("ddev");
        assert(args.deep_view() =~= seq!["ddev"@]);
        ("wsl", args)
    } else {
        assert(args.deep_view() =~= Seq::<Seq<char>>::empty());
        ("ddev", args)
    }
}

/// The program to call for the tool on Windows.
pub open spec fn ddev_command(found: Option<Seq<char>>, wsl_has_ddev: bool) -> Seq<char> {
    match found {
        Some(path) => path,
        None => if wsl_has_ddev {
            "wsl"@
        } else {
            "ddev"@
        },
    }
}

/// The program to call for the tool: the native installation where one
/// was found, else `wsl` where the subsystem has the tool, else plain
/// `ddev`.
pub fn get_ddev_command(found: Option<String>, wsl_has_ddev: bool) -> (program: String)
    ensures
        program@ == ddev_command(found.deep_view(), wsl_has_ddev),
{
    match found {
        Some(path) => path,
        None => {
            if wsl_has_ddev {
                String::from_str("wsl")
            } else {
                String::from_str("ddev")
            }
        },
    }
}

/// The arguments that stand before every call of the tool: `ddev` where
/// the program called is the subsystem, none otherwise.
pub fn get_ddev_base_args(using_wsl: bool) -> (args: Vec<&'static str>)
    ensures
        args.deep_view() == (if using_wsl {
            seq!["ddev"@]
        } else {
            Seq::<Seq<char>>::empty()
        }),
{
    let mut args: Vec<&'static str> = Vec::new();
    if using_wsl {
        args.push("ddev");
        assert(args.deep_view() =~= seq!["ddev"@]);
    } else {
        assert(args.deep_view() =~= Seq::<Seq<char>>::empty());
    }
    args
}

/// The search path for child processes on Windows: the common
/// directories, then the search path of this process, unless that is
/// empty.
pub open spec fn enhanced_path(paths: Seq<Seq<char>>, current: Seq<char>) -> Seq<char> {
    if current.len() == 0 {
        join_text(paths, ";"@)
    } else {
        join_text(paths.push(current), ";"@)
    }
}

/// The search path to give to child processes.
pub fn get_enhanced_path(paths: Vec<String>, current_path: &str) -> (path: String)
    ensures
        path@ == enhanced_path(paths.deep_view(), current_path@),
{
    let mut parts = paths;
    if !current_path.is_empty() {
        parts.push(String::from_str(current_path));
        assert(parts.deep_view() =~= paths.deep_view().push(current_path@));
    }
    join(&parts, ";")
}

/// The tool as it is called on Windows.
pub fn locate(
    paths: Vec<String>,
    present: &Vec<bool>,
    wsl_has_ddev: bool,
    current_path: &str,
) -> (tool: DdevTool)
    ensures
        tool@ == ({
            let found = first_present(ddev_candidates(paths.deep_view()), present@);
            DdevToolView {
                program: ddev_command(found, wsl_has_ddev),
                base_args: if found is None && wsl_has_ddev {
                    seq!["ddev"@]
                } else {
                    Seq::<Seq<char>>::empty()
                },
                path: enhanced_path(paths.deep_view(), current_path@),
            }
        }),
{
    let found = find_ddev_path(&paths, present);
    let using = is_using_wsl(found.is_some(), wsl_has_ddev);
    let base = get_ddev_base_args(using);
    let mut base_args: Vec<String> = Vec::new();
    let mut i: usize = 0;
    while i < base.len()
        invariant
            i <= base.len(),
            base_args.len() == i,
            forall|j: int| 0 <= j < i ==> base_args[j]@ == base[j]@,
        decreases base.len() - i,
    {
        base_args.push(String::from_str(base[i]));
        i = i + 1;
    }
    assert(base_args.deep_view() =~= base.deep_view());
    DdevTool {
        program: get_ddev_command(found, wsl_has_ddev),
        base_args,
        path: get_enhanced_path(paths, current_path),
    }
}

} // verus!
