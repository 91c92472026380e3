//! The compute half of the filesystem existence filter: selecting, from a
//! list of paths and the existence flag observed for each, the paths that
//! were not found. Observing the filesystem is the embedding caller's part.
use vstd::prelude::*;

verus! {

/// The paths whose existence flag is false, in their original order.
pub open spec fn missing_paths(paths: Seq<String>, exists: Seq<bool>) -> Seq<String>
    decreases paths.len(),
{
    if paths.len() == 0 || exists.len() == 0 {
        Seq::empty()
    } else {
        missing_paths(paths.drop_last(), exists.drop_last()) + (if exists.last() {
            Seq::empty()
        } else {
            seq![paths.last()]
        })
    }
}

/// Keeps the paths whose existence check came back negative, in order.
/// `exists` holds, for each path in turn, whether the filesystem reported
/// something at that path.
pub fn find_nonexistent_files(paths: Vec<String>, exists: Vec<bool>) -> (missing: Vec<String>)
    requires
        paths@.len() == exists@.len(),
    ensures
        missing@ == missing_paths(paths@, exists@),
{
    let mut missing: Vec<String> = Vec::new();
    let n = paths.len();
    let mut i: usize = 0;
    while i < n
        invariant
            i <= n,
            n == paths@.len(),
            n == exists@.len(),
            missing@ == missing_paths(paths@.subrange(0, i as int), exists@.subrange(0, i as int)),
        decreases n - i,
    {
        if !exists[i] {
            missing.push(paths[i].clone());
        }
        i = i + 1;
        proof {
            let p = paths@.subrange(0, i as int);
            let e = exists@.subrange(0, i as int);
            assert(p.drop_last() =~= paths@.subrange(0, i - 1));
            assert(e.drop_last() =~= exists@.subrange(0, i - 1));
            assert(missing@ =~= missing_paths(p, e));
        }
    }
    proof {
        assert(paths@.subrange(0, n as int) =~= paths@);
        assert(exists@.subrange(0, n as int) =~= exists@);
    }
    missing
}

} // verus!
