//! What the command line asks of the listing.
use vstd::prelude::*;

verus! {

/// How entries are filtered.
#[derive(Clone, Copy, Debug, PartialEq, Eq, Structural)]
pub struct ZLSSettings {
    /// Leave out entries whose name starts with `.`.
    pub hide_dotfiles: bool,
}

impl ZLSSettings {
    /// Dotfiles are hidden until `-l` is seen.
    pub fn new() -> (r: ZLSSettings)
        ensures
            r.hide_dotfiles,
    {
        ZLSSettings { hide_dotfiles: true }
    }
}

/// The only flag: show dotfiles.
pub open spec fn is_list_flag(arg: Seq<char>) -> bool {
    arg == seq!['-', 'l']
}

/// Whether some token of `args` is exactly `-l`.
pub open spec fn has_list_flag(args: Seq<String>) -> bool {
    exists|i: int| 0 <= i < args.len() && is_list_flag(#[trigger] args[i]@)
}

fn list_flag(arg: &String) -> (r: bool)
    ensures
        r == is_list_flag(arg@),
{
    let s = arg.as_str();
    if s.unicode_len() != 2 {
        return false;
    }
    let r = s.get_char(0) == '-' && s.get_char(1) == 'l';
    proof {
        if r {
            assert(s@ == seq!['-', 'l']);
        }
    }
    r
}

/// Scans every token; each one equal to `-l` turns dotfile hiding off.
/// Other tokens are left alone.
pub fn parse_args(settings: &mut ZLSSettings, args: &Vec<String>)
    ensures
        final(settings).hide_dotfiles == (old(settings).hide_dotfiles && !has_list_flag(args@)),
{
    let mut i: usize = 0;
    while i < args.len()
        invariant
            i <= args@.len(),
            settings.hide_dotfiles == (old(settings).hide_dotfiles && !exists|j: int|
                0 <= j < i && is_list_flag(#[trigger] args@[j]@)),
        decreases args@.len() - i,
    {
        if list_flag(&args[i]) {
            settings.hide_dotfiles = false;
        }
        i = i + 1;
    }
}

} // verus!
