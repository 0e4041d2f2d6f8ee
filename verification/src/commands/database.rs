//! Importing and exporting a project's database.

use vstd::prelude::*;
use vstd::string::*;
use crate::commands::create::optional_flag;
use crate::ddev::{DdevTool, Launch, command_launch, entered, run_ddev_command_streaming};
use crate::process::{ProcessIdGenerator, ProcessRegistry, process_id_text, was_issued};
use crate::text::{concat, push_string, same_text};

verus! {

/// The arguments that import the file `file_path` into a database of
/// `project`: into the one named `database` where a name is given and not
/// empty; without dropping what is there where `no_drop` says so.
pub open spec fn import_args(
    project: Seq<char>,
    file_path: Seq<char>,
    database: Option<Seq<char>>,
    no_drop: Option<bool>,
) -> Seq<Seq<char>> {
    seq!["import-db"@, "--file="@ + file_path] + optional_flag("--database="@, database) + (
    if no_drop == Some(true) {
        seq!["--no-drop"@]
    } else {
        Seq::empty()
    }) + seq![project]
}

fn push_database(args: &mut Vec<String>, database: Option<&str>)
    ensures
        final(args).deep_view() == old(args).deep_view() + optional_flag(
            "--database="@,
            database.deep_view(),
        ),
{
    match database {
        Some(db) => {
            if !db.is_empty() {
                args.push(concat("--database=", db));
                assert(args.deep_view() =~= old(args).deep_view() + seq!["--database="@ + db@]);
                return ;
            }
        },
        None => {},
    }
    assert(args.deep_view() =~= old(args).deep_view() + Seq::<Seq<char>>::empty());
}

fn first_args(command: &str, file_path: &str) -> (args: Vec<String>)
    ensures
        args.deep_view() == seq![command@, "--file="@ + file_path@],
{
    let mut args: Vec<String> = Vec::new();
    args.push(String::from_str(command));
    args.push(concat("--file=", file_path));
    assert(args.deep_view() =~= seq![command@, "--file="@ + file_path@]);
    args
}

/// Launches the import of the file `file_path` into `project`.
pub fn import_db<H>(
    ids: &mut ProcessIdGenerator,
    registry: &mut ProcessRegistry<H>,
    tool: &DdevTool,
    project: &str,
    file_path: &str,
    database: Option<&str>,
    no_drop: Option<bool>,
) -> (launch: Launch)
    ensures
        final(ids).issued() == old(ids).issued() + 1,
        !was_issued(old(ids).issued(), launch@.process_id),
        final(registry)@ == entered(old(registry)@, launch@),
        launch@ == command_launch(
            tool@,
            process_id_text(final(ids).issued()),
            "import-db"@,
            project@,
            import_args(project@, file_path@, database.deep_view(), no_drop),
            None,
        ),
{
    let mut args = first_args("import-db", file_path);
    push_database(&mut args, database);
    let keep = match no_drop {
        Some(keep) => keep,
        None => false,
    };
    if keep {
        push_string(&mut args, String::from_str("--no-drop"));
    } else {
        assert(args.deep_view() =~= args.deep_view() + Seq::<Seq<char>>::empty());
    }
    push_string(&mut args, String::from_str(project));
    run_ddev_command_streaming(ids, registry, tool, "import-db", project, &args)
}

/// The flag that asks for a compression other than gzip, which needs none.
pub open spec fn compression_flag(compression: Option<Seq<char>>) -> Seq<Seq<char>> {
    match compression {
        Some(c) => if c == "bzip2"@ {
            seq!["--bzip2"@]
        } else if c == "xz"@ {
            seq!["--xz"@]
        } else {
            Seq::empty()
        },
        None => Seq::empty(),
    }
}

/// The arguments that export a database of `project` to the file
/// `file_path`.
pub open spec fn export_args(
    project: Seq<char>,
    file_path: Seq<char>,
    database: Option<Seq<char>>,
    compression: Option<Seq<char>>,
) -> Seq<Seq<char>> {
    seq!["export-db"@, "--file="@ + file_path] + optional_flag("--database="@, database)
        + compression_flag(compression) + seq![project]
}

/// Launches the export of a database of `project` to the file `file_path`,
/// compressed with gzip unless `compression` names `bzip2` or `xz`.
pub fn export_db<H>(
    ids: &mut ProcessIdGenerator,
    registry: &mut ProcessRegistry<H>,
    tool: &DdevTool,
    project: &str,
    file_path: &str,
    database: Option<&str>,
    compression: Option<&str>,
) -> (launch: Launch)
    ensures
        final(ids).issued() == old(ids).issued() + 1,
        !was_issued(old(ids).issued(), launch@.process_id),
        final(registry)@ == entered(old(registry)@, launch@),
        launch@ == command_launch(
            tool@,
            process_id_text(final(ids).issued()),
            "export-db"@,
            project@,
            export_args(project@, file_path@, database.deep_view(), compression.deep_view()),
            None,
        ),
{
    let mut args = first_args("export-db", file_path);
    push_database(&mut args, database);
    let ghost before = args.deep_view();
    match compression {
        Some(c) => {
            if same_text(c, "bzip2") {
                push_string(&mut args, String::from_str("--bzip2"));
            } else if same_text(c, "xz") {
                push_string(&mut args, String::from_str("--xz"));
            } else {
                assert(args.deep_view() =~= before + Seq::<Seq<char>>::empty());
            }
        },
        None => {
            assert(args.deep_view() =~= before + Seq::<Seq<char>>::empty());
        },
    }
    push_string(&mut args, String::from_str(project));
    run_ddev_command_streaming(ids, registry, tool, "export-db", project, &args)
}

} // verus!
