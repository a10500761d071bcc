//! How the program is set up to run: its command line and the modules it collects.

use crate::modules::{views, Module};
use crate::text::str_eq;
use vstd::prelude::*;

verus! {

/// How many seconds lie between two rounds of the collector.
pub const COLLECT_INTERVAL_SECS: u64 = 30;

/// What the command line asks for.
#[derive(Debug, Clone, Copy, PartialEq, Eq, Structural)]
pub struct RunOptions {
    /// Whether the program is to run as a command line tool.
    pub cli: bool,
    /// Whether the program is to run without its windows.
    pub no_gui: bool,
}

/// What a command line asks for: each option is on where its flag is among the
/// arguments.
pub open spec fn spec_run_options(args: Seq<Seq<char>>) -> RunOptions {
    RunOptions { cli: args.contains("--cli"@), no_gui: args.contains("--no-gui"@) }
}

/// Reads the options off the command line. An argument that is no flag of the program
/// is passed over.
pub fn run_options(args: &Vec<String>) -> (r: RunOptions)
    ensures
        r == spec_run_options(views(args@)),
{
    let mut cli = false;
    let mut no_gui = false;
    let mut i: usize = 0;
    while i < args.len()
        invariant
            i <= args.len(),
            cli == views(args@).take(i as int).contains("--cli"@),
            no_gui == views(args@).take(i as int).contains("--no-gui"@),
        decreases args.len() - i,
    {
        let ghost head = views(args@).take(i as int);
        let ghost arg = args@[i as int]@;
        proof {
            assert(views(args@).take(i + 1) =~= head.push(arg));
            assert forall|flag: Seq<char>| head.push(arg).contains(flag) == (head.contains(flag)
                || arg == flag) by {
                if head.contains(flag) {
                    let k = choose|k: int| 0 <= k < head.len() && head[k] == flag;
                    assert(head.push(arg)[k] == flag);
                }
                if arg == flag {
                    assert(head.push(arg)[head.len() as int] == flag);
                }
                if head.push(arg).contains(flag) {
                    let k = choose|k: int| 0 <= k < head.push(arg).len() && head.push(arg)[k] == flag;
                    if k < head.len() {
                        assert(head[k] == flag);
                    }
                }
            }
        }
        if str_eq(args[i].as_str(), "--cli") {
            cli = true;
        }
        if str_eq(args[i].as_str(), "--no-gui") {
            no_gui = true;
        }
        i = i + 1;
    }
    proof {
        assert(views(args@).take(args@.len() as int) =~= views(args@));
    }
    RunOptions { cli, no_gui }
}

/// The modules that the collector goes through in each round.
pub fn collected_modules() -> (r: Vec<Module>)
    ensures
        r@ == seq![Module::Battery, Module::CPU, Module::System],
{
    let mut modules: Vec<Module> = Vec::new();
    modules.push(Module::Battery);
    modules.push(Module::CPU);
    modules.push(Module::System);
    assert(modules@ =~= seq![Module::Battery, Module::CPU, Module::System]);
    modules
}

} // verus!
