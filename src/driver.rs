//! The decisions of a run over the command line, apart from the filesystem
//! work they call for.
use vstd::prelude::*;
use crate::entry::{unknown_line, unknown_text, EntryInfo};
use crate::path::{file_name, get_file_name_from_path, hidden, is_hidden};
use crate::settings::ZLSSettings;

verus! {

/// The paths of a run: the arguments after the program's own name, or
/// `None` when there are none.
pub fn path_arguments(args: &Vec<String>) -> (r: Option<Vec<String>>)
    ensures
        match r {
            None => args@.len() < 2,
            Some(paths) => args@.len() >= 2 && paths@ == args@.skip(1),
        },
{
    if args.len() < 2 {
        return None;
    }
    let mut paths: Vec<String> = Vec::new();
    let mut i: usize = 1;
    while i < args.len()
        invariant
            1 <= i <= args@.len(),
            paths@ == args@.subrange(1, i as int),
        decreases args@.len() - i,
    {
        paths.push(args[i].clone());
        i = i + 1;
    }
    Some(paths)
}

/// The line printed when no path is given.
pub open spec fn no_arguments_text() -> Seq<char> {
    "\x1b[38;5;203mzls: no arguments passed"@
}

/// The line printed when no path is given.
pub fn no_arguments_line() -> (r: String)
    ensures
        r@ == no_arguments_text(),
{
    String::from_str("\x1b[38;5;203mzls: no arguments passed")
}

/// The line printed when the check on the paths fails with `message`;
/// `type_desc` describes the check's result.
pub open spec fn invalid_paths_text(type_desc: Seq<char>, message: Seq<char>) -> Seq<char> {
    "\x1b[38;5;203mzls: "@ + type_desc + " is Err(\""@ + message + "\")"@
}

/// The line printed when the check on the paths fails with `message`.
pub fn invalid_paths_line(type_desc: &str, message: &String) -> (r: String)
    ensures
        r@ == invalid_paths_text(type_desc@, message@),
{
    let mut r = String::from_str("\x1b[38;5;203mzls: ");
    r.append(type_desc);
    r.append(" is Err(\"");
    r.append(message.as_str());
    r.append("\")");
    r
}

/// What to do with one path of the command line.
#[derive(Debug)]
pub enum PathStep {
    /// Its name is hidden: go on with the next path.
    Skip,
    /// Its metadata could not be read: print the line, then end the run.
    Stop(String),
    /// A regular file: print its line.
    ShowFile,
    /// A directory: print a line for each visible entry in it.
    ListChildren,
}

/// Decides what to do with `path`, given the result of its metadata lookup.
pub fn top_level_step(path: &String, settings: &ZLSSettings, info: Option<EntryInfo>) -> (r:
    PathStep)
    ensures
        hidden(file_name(path@), settings.hide_dotfiles) ==> r is Skip,
        !hidden(file_name(path@), settings.hide_dotfiles) ==> match info {
            None => r matches PathStep::Stop(line) && line@ == unknown_text(file_name(path@)),
            Some(i) => if i.is_file {
                r is ShowFile
            } else {
                r is ListChildren
            },
        },
{
    let name = get_file_name_from_path(path);
    if is_hidden(&name, settings.hide_dotfiles) {
        return PathStep::Skip;
    }
    match info {
        None => PathStep::Stop(unknown_line(&name)),
        Some(i) => if i.is_file {
            PathStep::ShowFile
        } else {
            PathStep::ListChildren
        },
    }
}

} // verus!
