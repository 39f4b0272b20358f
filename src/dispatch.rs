//! Routing of `asimov help <subcommand> ...` to an external subcommand's own
//! help, from the raw command line to the child's exit status.

use vstd::prelude::*;
use crate::status::{EX_OK, EX_SOFTWARE, Termination};

verus! {

/// Shows the help of an external subcommand by running it with `--help`.
#[derive(Clone, Copy, Debug)]
pub struct HelpCmdCommand {
    /// Report failures in detail.
    pub is_debug: bool,
}

/// The views of a list of strings.
pub open spec fn views(args: Seq<String>) -> Seq<Seq<char>> {
    args.map_values(|s: String| s@)
}

/// Whether an argument is a flag (begins with `-`).
pub open spec fn is_flag(arg: Seq<char>) -> bool {
    arg.len() > 0 && arg[0] == '-'
}

/// The first index at or after `from` whose argument is not a flag, or the
/// number of arguments.
pub open spec fn first_operand(args: Seq<Seq<char>>, from: int) -> int
    decreases args.len() - from,
{
    if from < 0 || from >= args.len() {
        args.len() as int
    } else if !is_flag(args[from]) {
        from
    } else {
        first_operand(args, from + 1)
    }
}

/// For a command line `asimov help [flags] <name> <args>...` (`args[0]` is
/// the program, `args[1]` is `help`): the subcommand's name and the
/// arguments that follow it.
pub open spec fn help_target(args: Seq<Seq<char>>) -> Option<(Seq<char>, Seq<Seq<char>>)> {
    let k = first_operand(args, 2);
    if k < args.len() {
        Some((args[k], args.subrange(k + 1, args.len() as int)))
    } else {
        None
    }
}

/// Whether the command line asks for debug output.
pub open spec fn debug_requested(args: Seq<Seq<char>>) -> bool {
    exists|i: int| 0 <= i < args.len() && (#[trigger] args[i] == "-d"@ || args[i] == "--debug"@)
}

/// The result of a `--help` child: its exit code when it exited with
/// success, and the software-error code otherwise.
pub open spec fn help_result(t: Termination) -> Result<i32, i32> {
    if t == Termination::Exited(EX_OK) {
        Ok(EX_OK)
    } else {
        Err(EX_SOFTWARE)
    }
}

proof fn lemma_first_operand_bounds(args: Seq<Seq<char>>, from: int)
    requires
        0 <= from,
    ensures
        from <= first_operand(args, from) || first_operand(args, from) == args.len(),
        first_operand(args, from) <= args.len(),
    decreases args.len() - from,
{
    if from < args.len() && is_flag(args[from]) {
        lemma_first_operand_bounds(args, from + 1);
    }
}

/// Splits the command line of `asimov help [flags] <name> <args>...` into
/// the subcommand's name and its arguments; `None` when no name is given.
pub fn split_help_request(args: &Vec<String>) -> (r: Option<(String, Vec<String>)>)
    ensures
        match r {
            Some((name, rest)) => help_target(views(args@)) == Some((name@, views(rest@))),
            None => help_target(views(args@)) is None,
        },
{
    let ghost v = views(args@);
    let n = args.len();
    let mut k: usize = 2;
    if n < 2 {
        return None;
    }
    while k < n
        invariant
            n == args.len(),
            2 <= k <= n,
            v == views(args@),
            first_operand(v, 2) == first_operand(v, k as int),
        ensures
            2 <= k <= n,
            first_operand(v, 2) == first_operand(v, k as int),
            k < n ==> !is_flag(v[k as int]),
        decreases n - k,
    {
        let a = args[k].as_str();
        if a.unicode_len() == 0 || a.get_char(0) != '-' {
            assert(v[k as int] == a@);
            break;
        }
        assert(v[k as int] == a@);
        k = k + 1;
    }
    if k >= n {
        return None;
    }
    let name = args[k].clone();
    let mut rest: Vec<String> = Vec::new();
    let mut j: usize = k + 1;
    while j < n
        invariant
            n == args.len(),
            k < j <= n,
            v == views(args@),
            views(rest@) == v.subrange(k + 1, j as int),
        decreases n - j,
    {
        let ghost before = rest@;
        let a = args[j].clone();
        rest.push(a);
        proof {
            assert(rest@ == before.push(args@[j as int]));
            assert(views(rest@) =~= views(before).push(v[j as int]));
            assert(views(rest@) =~= v.subrange(k + 1, j + 1));
        }
        j = j + 1;
    }
    proof {
        assert(first_operand(v, k as int) == k);
    }
    Some((name, rest))
}

/// Whether the command line holds `-d` or `--debug`.
pub fn wants_debug(args: &Vec<String>) -> (r: bool)
    ensures
        r == debug_requested(views(args@)),
{
    let ghost v = views(args@);
    let short = "-d".to_owned();
    let long = "--debug".to_owned();
    let mut i: usize = 0;
    while i < args.len()
        invariant
            i <= args.len(),
            v == views(args@),
            short@ == "-d"@,
            long@ == "--debug"@,
            forall|j: int| 0 <= j < i ==> !(#[trigger] v[j] == "-d"@ || v[j] == "--debug"@),
        decreases args.len() - i,
    {
        if args[i] == short || args[i] == long {
            assert(v[i as int] == "-d"@ || v[i as int] == "--debug"@);
            return true;
        }
        i = i + 1;
    }
    false
}

impl HelpCmdCommand {
    /// The arguments to run the subcommand with: `--help`, then `args`.
    pub fn help_arguments(&self, args: &Vec<String>) -> (r: Vec<String>)
        ensures
            views(r@) == seq!["--help"@] + views(args@),
    {
        let mut r: Vec<String> = Vec::new();
        r.push("--help".to_owned());
        let mut i: usize = 0;
        while i < args.len()
            invariant
                i <= args.len(),
                views(r@) == seq!["--help"@] + views(args@).subrange(0, i as int),
            decreases args.len() - i,
        {
            let ghost before = r@;
            let a = args[i].clone();
            r.push(a);
            proof {
                assert(r@ == before.push(args@[i as int]));
                assert(views(r@) =~= views(before).push(views(args@)[i as int]));
                assert(views(r@) =~= seq!["--help"@] + views(args@).subrange(0, i + 1));
            }
            i = i + 1;
        }
        proof {
            assert(views(args@).subrange(0, args.len() as int) =~= views(args@));
        }
        r
    }

    /// What the help request comes to once the child ended as `t`: the
    /// child's help is shown only when it exited with success.
    pub fn outcome(&self, t: Termination) -> (r: Result<i32, i32>)
        ensures
            r == help_result(t),
    {
        match t {
            Termination::Exited(code) => if code == EX_OK {
                Ok(EX_OK)
            } else {
                Err(EX_SOFTWARE)
            },
            _ => Err(EX_SOFTWARE),
        }
    }
}

} // verus!
