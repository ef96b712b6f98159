//! Path segments and the visibility rule.
use vstd::prelude::*;

verus! {

/// Both separators are recognised, whatever the host platform.
pub open spec fn is_separator(c: char) -> bool {
    c == '/' || c == '\\'
}

/// Index of the first character of the last segment of `p`: one past the
/// final separator, or 0 when `p` holds none.
pub open spec fn segment_start(p: Seq<char>) -> nat
    decreases p.len(),
{
    if p.len() == 0 {
        0
    } else if is_separator(p.last()) {
        p.len()
    } else {
        segment_start(p.drop_last())
    }
}

/// The last segment of `p` (its basename): what follows the final separator.
pub open spec fn file_name(p: Seq<char>) -> Seq<char> {
    p.subrange(segment_start(p) as int, p.len() as int)
}

/// An entry is hidden when its name is a flag (a leading `-`), or a dotfile
/// while dotfiles are hidden.
pub open spec fn hidden(name: Seq<char>, hide_dotfiles: bool) -> bool {
    name.len() > 0 && ((name[0] == '.' && hide_dotfiles) || name[0] == '-')
}

/// A token is flag-like when its last segment starts with `-`.
pub open spec fn flag_like(p: Seq<char>) -> bool {
    file_name(p).len() > 0 && file_name(p)[0] == '-'
}

proof fn lemma_segment_start_bound(p: Seq<char>)
    ensures
        segment_start(p) <= p.len(),
    decreases p.len(),
{
    if p.len() > 0 && !is_separator(p.last()) {
        lemma_segment_start_bound(p.drop_last());
    }
}

/// The last segment of a path is the substring after its final `/` or `\`,
/// or the whole path when it has neither: it is a suffix of the path, it
/// holds no separator, and it is either the whole path or preceded by one.
pub proof fn lemma_file_name_is_last_segment(p: Seq<char>)
    ensures
        segment_start(p) <= p.len(),
        file_name(p) == p.subrange(p.len() - file_name(p).len(), p.len() as int),
        forall|i: int| 0 <= i < file_name(p).len() ==> !is_separator(#[trigger] file_name(p)[i]),
        file_name(p).len() == p.len() || is_separator(p[p.len() - file_name(p).len() - 1]),
    decreases p.len(),
{
    lemma_segment_start_bound(p);
    if p.len() > 0 && !is_separator(p.last()) {
        let q = p.drop_last();
        lemma_file_name_is_last_segment(q);
        assert(file_name(p) == file_name(q).push(p.last()));
        assert forall|i: int| 0 <= i < file_name(p).len() implies !is_separator(
            #[trigger] file_name(p)[i],
        ) by {
            if i < file_name(q).len() {
                assert(file_name(p)[i] == file_name(q)[i]);
            }
        }
    }
}

/// Visibility depends on the name's first character and the dotfile setting
/// alone: a leading `-` hides an entry under any setting, a leading `.` hides
/// it exactly when dotfiles are hidden, and any other name is shown.
pub proof fn lemma_visibility_rules(name: Seq<char>, hide_dotfiles: bool)
    ensures
        name.len() > 0 && name[0] == '-' ==> hidden(name, hide_dotfiles),
        name.len() > 0 && name[0] == '.' ==> hidden(name, hide_dotfiles) == hide_dotfiles,
        name.len() == 0 || (name[0] != '-' && name[0] != '.') ==> !hidden(name, hide_dotfiles),
{
}

/// The last segment of `path`: the characters after its final `/` or `\`.
pub fn get_file_name_from_path(path: &String) -> (r: String)
    ensures
        r@ == file_name(path@),
{
    let s = path.as_str();
    let n = s.unicode_len();
    let mut i = n;
    proof {
        assert(s@.subrange(0, n as int) == s@);
    }
    while i > 0 && !separator_char(s.get_char(i - 1))
        invariant
            i <= n,
            n == s@.len(),
            segment_start(s@) == segment_start(s@.subrange(0, i as int)),
        decreases i,
    {
        proof {
            let pre = s@.subrange(0, i as int);
            assert(pre.drop_last() == s@.subrange(0, i - 1));
        }
        i = i - 1;
    }
    String::from_str(s.substring_char(i, n))
}

fn separator_char(c: char) -> (r: bool)
    ensures
        r == is_separator(c),
{
    c == '/' || c == '\\'
}

/// Whether the entry named `name` is left out of the listing.
pub fn is_hidden(name: &String, hide_dotfiles: bool) -> (r: bool)
    ensures
        r == hidden(name@, hide_dotfiles),
{
    let s = name.as_str();
    if s.unicode_len() == 0 {
        return false;
    }
    let c = s.get_char(0);
    (c == '.' && hide_dotfiles) || c == '-'
}

/// Whether `token` is a flag rather than a path: its last segment starts with `-`.
pub fn is_flag_like(token: &String) -> (r: bool)
    ensures
        r == flag_like(token@),
{
    let name = get_file_name_from_path(token);
    let s = name.as_str();
    s.unicode_len() > 0 && s.get_char(0) == '-'
}

} // verus!
