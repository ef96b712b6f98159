//! One line of the listing per visible entry.
use vstd::prelude::*;
use crate::path::{file_name, get_file_name_from_path, hidden, is_hidden};
use crate::settings::ZLSSettings;
use crate::size::{size_string, size_text};

verus! {

/// What the filesystem reports of an entry.
#[derive(Clone, Copy, Debug, PartialEq, Eq, Structural)]
pub struct EntryInfo {
    /// A regular file (anything else is listed as a folder).
    pub is_file: bool,
    /// Length in bytes.
    pub len: u64,
    /// The read-only permission bit.
    pub readonly: bool,
}

/// The permission class of a file.
pub open spec fn permission_text(readonly: bool) -> Seq<char> {
    if readonly {
        "readonly protect  "@
    } else {
        "write+read protect"@
    }
}

/// The line for an entry whose metadata could not be read.
pub open spec fn unknown_text(name: Seq<char>) -> Seq<char> {
    "\x1b[38;5;47m\x1b[1m"@ + name + "\x1b[0m Unknown (maybe a broken symlink?)"@
}

/// The line for a directory.
pub open spec fn folder_text(name: Seq<char>) -> Seq<char> {
    "\x1b[38;5;132m"@ + name + "\x1b[0m folder"@
}

/// The line for a regular file: name, permission class and size.
pub open spec fn file_text(name: Seq<char>, readonly: bool, len: u64) -> Seq<char> {
    "\x1b[38;5;47m\x1b[1m"@ + name + "\x1b[0m \x1b[38;5;7m"@ + permission_text(readonly)
        + " \x1b[38;5;57msize: "@ + size_text(len)
}

/// The line for an entry named `name`, given what its metadata lookup gave.
pub open spec fn entry_text(name: Seq<char>, info: Option<EntryInfo>) -> Seq<char> {
    match info {
        None => unknown_text(name),
        Some(i) => if i.is_file {
            file_text(name, i.readonly, i.len)
        } else {
            folder_text(name)
        },
    }
}

/// `readonly protect` (padded to the width of the other) or `write+read protect`.
pub fn permission_string(readonly: bool) -> (r: &'static str)
    ensures
        r@ == permission_text(readonly),
{
    if readonly {
        "readonly protect  "
    } else {
        "write+read protect"
    }
}

/// The line for an entry named `name` whose metadata could not be read.
pub fn unknown_line(name: &String) -> (r: String)
    ensures
        r@ == unknown_text(name@),
{
    let mut r = String::from_str("\x1b[38;5;47m\x1b[1m");
    r.append(name.as_str());
    r.append("\x1b[0m Unknown (maybe a broken symlink?)");
    r
}

/// The line for the entry named `name`, given the result of its metadata lookup.
pub fn entry_line(name: &String, info: Option<EntryInfo>) -> (r: String)
    ensures
        r@ == entry_text(name@, info),
{
    match info {
        None => unknown_line(name),
        Some(i) => {
            if i.is_file {
                let mut r = String::from_str("\x1b[38;5;47m\x1b[1m");
                r.append(name.as_str());
                r.append("\x1b[0m \x1b[38;5;7m");
                r.append(permission_string(i.readonly));
                r.append(" \x1b[38;5;57msize: ");
                let size = size_string(i.len);
                r.append(size.as_str());
                r
            } else {
                let mut r = String::from_str("\x1b[38;5;132m");
                r.append(name.as_str());
                r.append("\x1b[0m folder");
                r
            }
        },
    }
}

/// What is printed for `path`: nothing when its name is hidden under
/// `settings`, else the line for its name and metadata.
pub fn file_info_line(path: &String, settings: &ZLSSettings, info: Option<EntryInfo>) -> (r:
    Option<String>)
    ensures
        match r {
            None => hidden(file_name(path@), settings.hide_dotfiles),
            Some(line) => !hidden(file_name(path@), settings.hide_dotfiles) && line@ == entry_text(
                file_name(path@),
                info,
            ),
        },
{
    let name = get_file_name_from_path(path);
    if is_hidden(&name, settings.hide_dotfiles) {
        None
    } else {
        Some(entry_line(&name, info))
    }
}

} // verus!
