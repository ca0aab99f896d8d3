//! The command line: one optional flag.

use vstd::prelude::*;
use vstd::string::*;

verus! {

/// Whether one of `args` is the flag that asks for a console.
pub open spec fn asks_for_console(args: Seq<String>) -> bool {
    exists|i: int| 0 <= i < args.len() && (#[trigger] args[i])@ == "--console"@
}

/// Whether a console is to be shown for diagnostic output: it is when
/// `--console` is among the arguments, wherever it stands.
pub fn show_console(args: &Vec<String>) -> (show: bool)
    ensures
        show == asks_for_console(args@),
{
    let flag = String::from_str("--console");
    let mut i: usize = 0;
    while i < args.len()
        invariant
            i <= args.len(),
            flag@ == "--console"@,
            forall|j: int| 0 <= j < i ==> (#[trigger] args[j])@ != "--console"@,
        decreases args.len() - i,
    {
        if args[i] == flag {
            return true;
        }
        i += 1;
    }
    false
}

} // verus!
