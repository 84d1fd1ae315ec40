//! The attachment file name.
//!
//! The response announces the served file under a display name: the final
//! segment of the path the server was started with, that is everything
//! after the last `/`. [`spec_file_name`] specifies the name,
//! [`file_name_of`] computes it, and the lemmas state that the name is
//! exactly the final segment, whatever directories precede it.

use vstd::prelude::*;

verus! {

/// The final segment of `path`: everything after the last `/` byte
/// (the whole path when it holds no `/`, empty when it ends with `/`).
pub open spec fn spec_file_name(path: Seq<u8>) -> Seq<u8>
    decreases path.len(),
{
    if path.len() == 0 {
        path
    } else if path.last() == 47u8 {
        Seq::empty()
    } else {
        spec_file_name(path.drop_last()).push(path.last())
    }
}

/// A cut point right after the last `/` of `path` (or 0 when there is
/// none) marks exactly where the file name starts.
proof fn lemma_file_name_at_cut(path: Seq<u8>, cut: int)
    requires
        0 <= cut <= path.len(),
        forall|j: int| cut <= j < path.len() ==> path[j] != 47u8,
        cut == 0 || path[cut - 1] == 47u8,
    ensures
        spec_file_name(path) == path.subrange(cut, path.len() as int),
    decreases path.len(),
{
    if cut == path.len() {
        assert(spec_file_name(path) =~= path.subrange(cut, path.len() as int));
    } else {
        let shorter = path.drop_last();
        assert(path.last() != 47u8);
        lemma_file_name_at_cut(shorter, cut);
        assert(shorter.subrange(cut, shorter.len() as int) =~= path.subrange(
            cut,
            path.len() as int,
        ).drop_last());
        assert(spec_file_name(path) =~= path.subrange(cut, path.len() as int));
    }
}

/// Compute the display name of the served file: the final segment of the
/// startup path.
pub fn file_name_of(path: &Vec<u8>) -> (name: Vec<u8>)
    ensures
        name@ == spec_file_name(path@),
{
    let mut cut: usize = 0;
    let mut i: usize = 0;
    while i < path.len()
        invariant
            cut <= i <= path@.len(),
            forall|j: int| cut <= j < i ==> path@[j] != 47u8,
            cut == 0 || path@[cut - 1] == 47u8,
        decreases path@.len() - i,
    {
        if path[i] == 47u8 {
            cut = i + 1;
        }
        i += 1;
    }
    let mut name: Vec<u8> = Vec::new();
    let mut k: usize = cut;
    while k < path.len()
        invariant
            cut <= k <= path@.len(),
            name@ == path@.subrange(cut as int, k as int),
        decreases path@.len() - k,
    {
        let b = path[k];
        name.push(b);
        proof {
            assert(name@ =~= path@.subrange(cut as int, k + 1 as int));
        }
        k += 1;
    }
    proof {
        lemma_file_name_at_cut(path@, cut as int);
        assert(name@ =~= spec_file_name(path@));
    }
    name
}

/// The file name is a suffix of the path, holds no `/`, and when it is a
/// proper suffix a `/` stands right before it.
pub proof fn lemma_file_name_is_final_segment(path: Seq<u8>)
    ensures
        spec_file_name(path).len() <= path.len(),
        spec_file_name(path) == path.subrange(
            path.len() - spec_file_name(path).len(),
            path.len() as int,
        ),
        forall|j: int| 0 <= j < spec_file_name(path).len() ==> #[trigger] spec_file_name(path)[j]
            != 47u8,
        spec_file_name(path).len() < path.len() ==> path[path.len() - spec_file_name(path).len()
            - 1] == 47u8,
    decreases path.len(),
{
    let name = spec_file_name(path);
    if path.len() == 0 {
        assert(name =~= path.subrange(path.len() - name.len(), path.len() as int));
    } else if path.last() == 47u8 {
        assert(name =~= path.subrange(path.len() - name.len(), path.len() as int));
    } else {
        let shorter = path.drop_last();
        lemma_file_name_is_final_segment(shorter);
        let rest = spec_file_name(shorter);
        assert(name == rest.push(path.last()));
        assert(name =~= path.subrange(path.len() - name.len(), path.len() as int));
    }
}

/// Directories ahead of the name do not matter: for any `dir`, the final
/// segment of `dir` + `/` + `name` is `name`, as long as `name` itself
/// holds no `/`.
pub proof fn lemma_directories_ignored(dir: Seq<u8>, name: Seq<u8>)
    requires
        forall|j: int| 0 <= j < name.len() ==> name[j] != 47u8,
    ensures
        spec_file_name(dir + seq![47u8] + name) == name,
    decreases name.len(),
{
    let path = dir + seq![47u8] + name;
    if name.len() == 0 {
        assert(path.last() == 47u8);
        assert(spec_file_name(path) =~= name);
    } else {
        assert(path.drop_last() =~= dir + seq![47u8] + name.drop_last());
        lemma_directories_ignored(dir, name.drop_last());
        assert(path.last() == name.last());
        assert(path.last() != 47u8);
        assert(spec_file_name(path) =~= name);
    }
}

} // verus!
