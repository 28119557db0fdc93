//! The command line of the pager: one argument, the path of the file to show.

use vstd::prelude::*;

verus! {

/// The path among the program's arguments: the argument after the program's
/// own name, if there is one. Further arguments are ignored.
pub fn path_argument(args: &Vec<String>) -> (path: Option<String>)
    ensures
        args@.len() <= 1 ==> path is None,
        args@.len() > 1 ==> path == Some(args@[1]),
{
    if args.len() <= 1 {
        None
    } else {
        Some(args[1].clone())
    }
}

} // verus!
