//! Command-line intent: the `--copy` and `--quiet` flags.

use vstd::prelude::*;
use vstd::string::StringExecFns;
use crate::errors::TotpError;

verus! {

/// Parsed command-line intent.  `copy` places the code on the clipboard,
/// `quiet` suppresses printing it; `quiet` without `copy` is a rejected
/// combination (nothing would happen).
#[derive(Debug, Clone, Copy, PartialEq, Eq, Structural)]
pub struct Config {
    pub copy: bool,
    pub quiet: bool,
}

/// The argument forms that request copying.
pub open spec fn is_copy_flag(a: Seq<char>) -> bool {
    a == "--copy"@ || a == "-c"@
}

/// The argument forms that request quiet output.
pub open spec fn is_quiet_flag(a: Seq<char>) -> bool {
    a == "--quiet"@ || a == "-q"@
}

/// The arguments the tool recognises at all.
pub open spec fn is_known_flag(a: Seq<char>) -> bool {
    is_copy_flag(a) || is_quiet_flag(a)
}

/// Reads the flags out of the argument list (the program name already
/// stripped).  Succeeds exactly when every argument is a recognised flag;
/// the first unrecognised argument is reported, and nothing further is
/// looked at.
pub fn parse_args(args: &Vec<String>) -> (r: Result<Config, TotpError>)
    ensures
        r is Ok <==> (forall|j: int| 0 <= j < args@.len() ==> is_known_flag(#[trigger] args@[j]@)),
        r is Ok ==> r->Ok_0.copy == (exists|j: int|
            0 <= j < args@.len() && is_copy_flag(#[trigger] args@[j]@)),
        r is Ok ==> r->Ok_0.quiet == (exists|j: int|
            0 <= j < args@.len() && is_quiet_flag(#[trigger] args@[j]@)),
        r is Err ==> (exists|j: int|
            {
                &&& 0 <= j < args@.len()
                &&& !is_known_flag(#[trigger] args@[j]@)
                &&& (forall|i: int| 0 <= i < j ==> is_known_flag(#[trigger] args@[i]@))
                &&& r->Err_0 == TotpError::ArgumentError(r->Err_0->ArgumentError_0)
                &&& r->Err_0->ArgumentError_0@ == "Unexpected argument: "@ + args@[j]@
            }),
{
    let copy_long: String = String::from_str("--copy");
    let copy_short: String = String::from_str("-c");
    let quiet_long: String = String::from_str("--quiet");
    let quiet_short: String = String::from_str("-q");
    let mut copy = false;
    let mut quiet = false;
    let mut i: usize = 0;
    while i < args.len()
        invariant
            i <= args@.len(),
            copy_long@ == "--copy"@,
            copy_short@ == "-c"@,
            quiet_long@ == "--quiet"@,
            quiet_short@ == "-q"@,
            forall|j: int| 0 <= j < i ==> is_known_flag(#[trigger] args@[j]@),
            copy == (exists|j: int| 0 <= j < i && is_copy_flag(#[trigger] args@[j]@)),
            quiet == (exists|j: int| 0 <= j < i && is_quiet_flag(#[trigger] args@[j]@)),
        decreases args@.len() - i,
    {
        proof {
            // The copy flags and the quiet flags are pairwise distinct:
            // the length and character facts below let the solver tell the
            // revealed literals apart.
            reveal_strlit("--copy");
            reveal_strlit("-c");
            reveal_strlit("--quiet");
            reveal_strlit("-q");
            assert("--copy"@.len() == 6 && "--quiet"@.len() == 7);
            assert("-c"@[1] == 'c' && "-q"@[1] == 'q');
        }
        let arg = &args[i];
        if arg.eq(&copy_long) || arg.eq(&copy_short) {
            copy = true;
        } else if arg.eq(&quiet_long) || arg.eq(&quiet_short) {
            quiet = true;
        } else {
            let message = String::from_str("Unexpected argument: ").concat(arg.as_str());
            return Err(TotpError::ArgumentError(message));
        }
        i = i + 1;
    }
    Ok(Config { copy, quiet })
}

impl Config {
    /// Rejects the combination in which nothing would happen: `quiet`
    /// suppresses printing while `copy` is not requested either.
    pub fn validate(&self) -> (r: Result<(), TotpError>)
        ensures
            r is Ok <==> !(self.quiet && !self.copy),
            r is Err ==> r->Err_0 == TotpError::ArgumentError(r->Err_0->ArgumentError_0)
                && r->Err_0->ArgumentError_0@
                    == "Nothing to do: either remove --quiet or add --copy"@,
    {
        if self.quiet && !self.copy {
            Err(TotpError::ArgumentError(String::from_str(
                "Nothing to do: either remove --quiet or add --copy",
            )))
        } else {
            Ok(())
        }
    }
}

} // verus!
