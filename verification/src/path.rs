//! Paths as texts.
use vstd::prelude::*;

use crate::text::{join, law_split_undoes_join, opt_text, same_text, split, split_text, texts};

verus! {

/// The last component that names something. Empty components and `.` name
/// nothing; `..` names no file of its own.
pub open spec fn last_name(parts: Seq<Seq<char>>) -> Option<Seq<char>>
    decreases parts.len(),
{
    if parts.len() == 0 {
        None
    } else if parts.last().len() == 0 || parts.last() == "."@ {
        last_name(parts.drop_last())
    } else if parts.last() == ".."@ {
        None
    } else {
        Some(parts.last())
    }
}

/// The name of the file that a path leads to.
pub open spec fn file_name_of(path: Seq<char>) -> Option<Seq<char>> {
    last_name(split(path, '/'))
}

/// The name of the file that a path leads to.
pub fn file_name(path: &str) -> (r: Option<String>)
    ensures
        opt_text(r) == file_name_of(path@),
{
    let parts = split_text(path, '/');
    let ghost pieces = texts(parts@);
    let mut n: usize = parts.len();
    assert(pieces.take(n as int) =~= pieces);
    while n > 0
        invariant
            n <= parts@.len(),
            pieces == texts(parts@),
            pieces == split(path@, '/'),
            last_name(pieces) == last_name(pieces.take(n as int)),
        decreases n,
    {
        let part = parts[n - 1].as_str();
        proof {
            assert(pieces.take(n as int).last() == part@);
            assert(pieces.take(n as int).drop_last() =~= pieces.take(n - 1));
        }
        if part.is_empty() || same_text(part, ".") {
            n -= 1;
        } else if same_text(part, "..") {
            return None;
        } else {
            return Some(part.to_owned());
        }
    }
    None
}

/// The name of a file is the last component of its path, however many
/// directories lead to it, and a slash behind it changes nothing. What ends in
/// `..` names no file.
pub proof fn law_file_names(dirs: Seq<Seq<char>>, name: Seq<char>)
    requires
        forall|i: int| 0 <= i < dirs.len() ==> !(#[trigger] dirs[i]).contains('/'),
        !name.contains('/'),
        name.len() > 0,
        name != "."@,
        name != ".."@,
    ensures
        file_name_of(join(dirs.push(name), '/')) == Some(name),
        file_name_of(join(dirs.push(name).push(Seq::empty()), '/')) == Some(name),
        file_name_of(join(dirs.push(name).push(".."@), '/')) is None,
{
    reveal_strlit("..");
    reveal_strlit(".");
    let plain = dirs.push(name);
    assert forall|i: int| 0 <= i < plain.len() implies !(#[trigger] plain[i]).contains('/') by {
        if i < dirs.len() {
            assert(plain[i] == dirs[i]);
        }
    }
    law_split_undoes_join(plain, '/');
    let slash = plain.push(Seq::empty());
    assert forall|i: int| 0 <= i < slash.len() implies !(#[trigger] slash[i]).contains('/') by {
        if i < plain.len() {
            assert(slash[i] == plain[i]);
        }
    }
    law_split_undoes_join(slash, '/');
    assert(slash.drop_last() =~= plain);
    let up = plain.push(".."@);
    assert forall|i: int| 0 <= i < up.len() implies !(#[trigger] up[i]).contains('/') by {
        if i < plain.len() {
            assert(up[i] == plain[i]);
        }
    }
    law_split_undoes_join(up, '/');
    assert("."@.len() != ".."@.len());
}

} // verus!
