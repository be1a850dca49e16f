//! Parsing of the command-line arguments: which flags were set, and
//! which argument, if any, stops the run for help, bundling, or an
//! error message.

use vstd::prelude::*;
use crate::strutil::str_eq;

verus! {

/// The flags the command line sets.
#[derive(Clone, Copy, Debug, Default, PartialEq, Eq, Structural)]
pub struct Args {
    pub live: bool,
    pub bundle: bool,
}

/// What the command line asks for: an ordinary run with the collected
/// flags, the help text, a bundling run, or the rejection of an unknown
/// argument.
#[derive(Debug, PartialEq, Eq)]
pub enum CliAction {
    Run(Args),
    Help,
    Bundle,
    Reject(String),
}

/// Whether a token is the live-reload flag, the only flag that lets the
/// scan continue.
pub open spec fn is_live_tok(s: Seq<char>) -> bool {
    s == "--live"@
}

/// The first argument, at or after `i`, that stops the scan: anything
/// but the live-reload flag.
pub open spec fn first_stop(args: Seq<Seq<char>>, i: int) -> Option<int>
    decreases args.len() - i,
{
    if i < 1 || i >= args.len() {
        None
    } else if is_live_tok(args[i]) {
        first_stop(args, i + 1)
    } else {
        Some(i)
    }
}

/// When every argument before `i` continues the scan, the first stop of
/// the whole line equals the one found from `i` on.
proof fn lemma_first_stop_prefix(args: Seq<Seq<char>>, i: int)
    requires
        1 <= i <= args.len(),
        forall|j: int| 1 <= j < i ==> is_live_tok(#[trigger] args[j]),
    ensures
        first_stop(args, 1) == first_stop(args, i),
    decreases i,
{
    if i > 1 {
        lemma_first_stop_prefix(args, i - 1);
    }
}

/// Scans the argument line (the first entry is the program name and is
/// skipped).  The live-reload flag accumulates; the first argument that
/// is anything else decides the action: the help flag shows the help
/// text, the bundle flag starts a bundling run, and any other argument
/// is rejected, carried along for the error message.
#[verifier::loop_isolation(false)]
pub fn parse_args(args: &Vec<String>) -> (r: CliAction)
    requires
        args@.len() >= 1,
    ensures
        ({
            let av = args.deep_view();
            match first_stop(av, 1) {
                None => r == CliAction::Run(
                    Args { live: av.len() > 1, bundle: false },
                ),
                Some(j) => {
                    let t = av[j];
                    &&& t == "--help"@ ==> r == CliAction::Help
                    &&& t == "--bundle"@ ==> r == CliAction::Bundle
                    &&& (t != "--help"@ && t != "--bundle"@) ==> (r matches CliAction::Reject(
                        s,
                    ) && s@ == t)
                },
            }
        }),
{
    proof {
        reveal_strlit("--live");
        reveal_strlit("--help");
        reveal_strlit("--bundle");
        assert("--live"@[2] == 'l');
        assert("--help"@[2] == 'h');
        assert("--bundle"@[2] == 'b');
        assert("--live"@ != "--help"@);
        assert("--live"@ != "--bundle"@);
        assert("--help"@ != "--bundle"@);
    }
    let n = args.len();
    let mut live = false;
    let mut i: usize = 1;
    while i < n
        invariant
            1 <= i <= n,
            n == args@.len(),
            args.deep_view().len() == n,
            live == (i > 1),
            forall|j: int| 1 <= j < i ==> is_live_tok(#[trigger] args.deep_view()[j]),
        decreases n - i,
    {
        if str_eq(args[i].as_str(), "--help") {
            proof {
                let av = args.deep_view();
                assert(av[i as int] == args@[i as int]@);
                lemma_first_stop_prefix(av, i as int);
                assert(first_stop(av, i as int) == Some(i as int));
            }
            return CliAction::Help;
        }
        if str_eq(args[i].as_str(), "--bundle") {
            proof {
                let av = args.deep_view();
                assert(av[i as int] == args@[i as int]@);
                lemma_first_stop_prefix(av, i as int);
                assert(first_stop(av, i as int) == Some(i as int));
            }
            return CliAction::Bundle;
        }
        if !str_eq(args[i].as_str(), "--live") {
            proof {
                let av = args.deep_view();
                assert(av[i as int] == args@[i as int]@);
                lemma_first_stop_prefix(av, i as int);
                assert(first_stop(av, i as int) == Some(i as int));
            }
            return CliAction::Reject(args[i].clone());
        }
        live = true;
        i = i + 1;
        proof {
            assert(args.deep_view()[i - 1] == args@[i - 1]@);
        }
    }
    proof {
        lemma_first_stop_prefix(args.deep_view(), n as int);
    }
    CliAction::Run(Args { live, bundle: false })
}

} // verus!
