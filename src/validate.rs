//! The up-front check on the paths given.
use vstd::prelude::*;
use crate::path::{flag_like, is_flag_like};

verus! {

/// A token is refused when nothing was found at it and it is not a flag.
pub open spec fn rejected(token: Seq<char>, found: bool) -> bool {
    !found && !flag_like(token)
}

/// The message for a refused token.
pub open spec fn invalid_path_text(token: Seq<char>) -> Seq<char> {
    "Invalid path: "@ + token
}

/// Checks the tokens in order, where `found[i]` tells whether metadata could
/// be read at `paths[i]`. The first refused token ends the check with an
/// error that names it; when none is refused the check succeeds.
pub fn check_paths(paths: &Vec<String>, found: &Vec<bool>) -> (r: Result<bool, String>)
    requires
        found@.len() == paths@.len(),
    ensures
        match r {
            Ok(b) => b && forall|i: int|
                0 <= i < paths@.len() ==> !rejected(#[trigger] paths@[i]@, found@[i]),
            Err(msg) => exists|i: int|
                0 <= i < paths@.len() && rejected(#[trigger] paths@[i]@, found@[i]) && (forall|
                    j: int,
                | 0 <= j < i ==> !rejected(#[trigger] paths@[j]@, found@[j])) && msg@
                    == invalid_path_text(paths@[i]@),
        },
{
    let mut i: usize = 0;
    while i < paths.len()
        invariant
            i <= paths@.len(),
            found@.len() == paths@.len(),
            forall|j: int| 0 <= j < i ==> !rejected(#[trigger] paths@[j]@, found@[j]),
        decreases paths@.len() - i,
    {
        if !found[i] && !is_flag_like(&paths[i]) {
            let mut msg = String::from_str("Invalid path: ");
            msg.append(paths[i].as_str());
            return Err(msg);
        }
        i = i + 1;
    }
    Ok(true)
}

} // verus!
