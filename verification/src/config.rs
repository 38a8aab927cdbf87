//! The read-only startup configuration: an optional files directory,
//! taken from a `--directory <path>` pair in the argument list.
//! Built once before any worker starts and shared by reference; never
//! mutated afterwards.
use vstd::prelude::*;

use crate::text::{bytes_eq, copy_all};
use crate::tokens::{spec_dir_flag, dir_flag};

verus! {

/// The configuration snapshot handlers receive.
#[derive(Clone, Debug)]
pub struct Cfg {
    pub files_dir: Option<Vec<u8>>,
}

/// The mathematical image of a `Cfg`.
pub ghost struct CfgModel {
    pub files_dir: Option<Seq<u8>>,
}

impl View for Cfg {
    type V = CfgModel;

    open spec fn view(&self) -> CfgModel {
        CfgModel {
            files_dir: match self.files_dir {
                Some(d) => Some(d@),
                None => None,
            },
        }
    }
}

/// Index of the first argument equal to `--directory`, if any.
pub open spec fn find_dir_flag_from(args: Seq<Seq<u8>>, i: int) -> Option<int>
    decreases args.len() - i,
        when 0 <= i <= args.len()
{
    if i >= args.len() {
        None
    } else if args[i] == spec_dir_flag() {
        Some(i)
    } else {
        find_dir_flag_from(args, i + 1)
    }
}

/// `find_dir_flag_from` returns the first occurrence, and `None` only
/// when there is none.
pub proof fn lemma_find_dir_flag_from(args: Seq<Seq<u8>>, i: int)
    requires
        0 <= i <= args.len(),
    ensures
        match find_dir_flag_from(args, i) {
            Some(j) => i <= j < args.len() && args[j] == spec_dir_flag() && forall|k: int|
                i <= k < j ==> args[k] != spec_dir_flag(),
            None => forall|k: int| i <= k < args.len() ==> args[k] != spec_dir_flag(),
        },
    decreases args.len() - i,
{
    if i < args.len() && args[i] != spec_dir_flag() {
        lemma_find_dir_flag_from(args, i + 1);
    }
}

/// Build the configuration from the argument list: the argument after
/// the first `--directory` is the files directory; without the flag
/// there is no file-serving capability. A trailing `--directory` with
/// no path after it is left out by the precondition — the surrounding
/// glue must reject it before calling.
pub fn setup_cfg(args: &Vec<Vec<u8>>) -> (c: Cfg)
    requires
        match find_dir_flag_from(args.deep_view(), 0) {
            Some(i) => i + 1 < args.deep_view().len(),
            None => true,
        },
    ensures
        c@.files_dir == match find_dir_flag_from(args.deep_view(), 0) {
            Some(i) => Some(args.deep_view()[i + 1]),
            None => None::<Seq<u8>>,
        },
{
    let flag = dir_flag();
    let mut i: usize = 0;
    while i < args.len()
        invariant
            i <= args.deep_view().len(),
            args.deep_view().len() == args@.len(),
            flag@ == spec_dir_flag(),
            forall|k: int| 0 <= k < i ==> args.deep_view()[k] != spec_dir_flag(),
            match find_dir_flag_from(args.deep_view(), 0) {
                Some(j) => j + 1 < args.deep_view().len(),
                None => true,
            },
        decreases args@.len() - i,
    {
        if bytes_eq(&args[i], &flag) {
            proof {
                lemma_find_dir_flag_from(args.deep_view(), 0);
                assert(args.deep_view()[i as int] == args@[i as int]@);
                assert(find_dir_flag_from(args.deep_view(), 0) == Some(i as int));
            }
            let dir = copy_all(&args[i + 1]);
            return Cfg { files_dir: Some(dir) };
        }
        proof {
            assert(args.deep_view()[i as int] == args@[i as int]@);
        }
        i = i + 1;
    }
    proof {
        lemma_find_dir_flag_from(args.deep_view(), 0);
    }
    Cfg { files_dir: None }
}

} // verus!
