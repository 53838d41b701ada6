//! The recursive enumeration of a transfer root, as handed to the library:
//! one entry per discovered path, already split into plain files and
//! directories. Entries the driver could not read are reported there and
//! simply absent here; a partial enumeration is a degraded mode, not an
//! error.

use vstd::prelude::*;

verus! {

/// One filesystem path discovered under a root: a plain file or a
/// directory.
#[derive(Clone)]
pub struct RawPayloadEntry {
    pub path: String,
    pub is_file: bool,
}

/// The paths of the plain-file entries, in enumeration order.
pub open spec fn file_paths_of(entries: Seq<RawPayloadEntry>) -> Seq<Seq<char>>
    decreases entries.len(),
{
    if entries.len() == 0 {
        Seq::empty()
    } else if entries.last().is_file {
        file_paths_of(entries.drop_last()).push(entries.last().path@)
    } else {
        file_paths_of(entries.drop_last())
    }
}

/// The plain files among `entries`, in order; directories are not files and
/// are left to the scaffolding cleanup.
pub fn get_file_paths(entries: &Vec<RawPayloadEntry>) -> (r: Vec<String>)
    ensures
        r.deep_view() == file_paths_of(entries@),
{
    let mut files: Vec<String> = Vec::new();
    let n: usize = entries.len();
    let mut i: usize = 0;
    while i < n
        invariant
            i <= n,
            n == entries@.len(),
            files.deep_view() == file_paths_of(entries@.take(i as int)),
        decreases n - i,
    {
        proof {
            assert(entries@.take(i + 1).drop_last() =~= entries@.take(i as int));
        }
        if entries[i].is_file {
            files.push(entries[i].path.clone());
            proof {
                assert(files.deep_view() =~= file_paths_of(entries@.take(i + 1)));
            }
        } else {
            proof {
                assert(files.deep_view() =~= file_paths_of(entries@.take(i + 1)));
            }
        }
        i = i + 1;
    }
    proof {
        assert(entries@.take(n as int) =~= entries@);
    }
    files
}

} // verus!
