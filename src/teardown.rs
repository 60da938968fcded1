//! How a running backend is terminated: the strategy chosen for the platform
//! and the ordered actions it yields for one process.

use vstd::prelude::*;
use crate::decimal::decimal;
use crate::decimal::to_decimal;
use crate::platform::Platform;

verus! {

/// The termination capabilities available on the running platform.
#[derive(Clone, Copy, Debug, PartialEq, Eq, Structural)]
pub enum KillStrategy {
    /// Kill the whole process tree through the system utility, then kill the
    /// held process directly.
    TreeThenDirect,
    /// Kill the held process directly; there is no tree-kill utility.
    DirectOnly,
}

/// An external program run to completion, its outcome ignored.
#[derive(Debug)]
pub struct ExternalCommand {
    pub program: String,
    pub args: Vec<String>,
    /// Whether the program is started without a visible console window.
    pub hide_window: bool,
    /// Whether teardown waits for the program to finish before going on.
    pub wait_for_exit: bool,
}

/// One step of teardown. Each is best effort: its failure is discarded.
#[derive(Debug)]
pub enum TeardownAction {
    /// Run an external command.
    RunCommand(ExternalCommand),
    /// Forcefully terminate the held process itself.
    KillHandle,
}

/// The strategy selected for platform `p`.
pub open spec fn strategy_for(p: Platform) -> KillStrategy {
    match p {
        Platform::Windows => KillStrategy::TreeThenDirect,
        Platform::Unix => KillStrategy::DirectOnly,
    }
}

/// Arguments of the tree-kill utility: forceful, recursive, by identifier.
pub open spec fn tree_kill_args(pid: u32) -> Seq<Seq<char>> {
    seq!["/F"@, "/T"@, "/PID"@, decimal(pid as nat)]
}

/// `a` runs the tree-kill utility on process `pid`, hidden, and waits for it.
pub open spec fn is_tree_kill(a: TeardownAction, pid: u32) -> bool {
    match a {
        TeardownAction::RunCommand(c) => {
            &&& c.program@ == "taskkill"@
            &&& c.args@.map_values(|s: String| s@) == tree_kill_args(pid)
            &&& c.hide_window
            &&& c.wait_for_exit
        },
        TeardownAction::KillHandle => false,
    }
}

/// `actions` is the teardown of process `pid` under strategy `s`: with a
/// tree kill, the utility first and the direct kill after it; otherwise the
/// direct kill alone.
pub open spec fn is_teardown_plan(s: KillStrategy, pid: u32, actions: Seq<TeardownAction>) -> bool {
    match s {
        KillStrategy::TreeThenDirect => {
            &&& actions.len() == 2
            &&& is_tree_kill(actions[0], pid)
            &&& actions[1] == TeardownAction::KillHandle
        },
        KillStrategy::DirectOnly => {
            &&& actions.len() == 1
            &&& actions[0] == TeardownAction::KillHandle
        },
    }
}

impl KillStrategy {
    /// Selects the strategy once, for the platform the host runs on.
    pub fn for_platform(p: Platform) -> (r: KillStrategy)
        ensures
            r == strategy_for(p),
    {
        match p {
            Platform::Windows => KillStrategy::TreeThenDirect,
            Platform::Unix => KillStrategy::DirectOnly,
        }
    }
}

/// The command that kills the process tree rooted at `pid`.
pub fn tree_kill_command(pid: u32) -> (r: ExternalCommand)
    ensures
        is_tree_kill(TeardownAction::RunCommand(r), pid),
{
    let mut args: Vec<String> = Vec::new();
    args.push(String::from_str("/F"));
    args.push(String::from_str("/T"));
    args.push(String::from_str("/PID"));
    args.push(to_decimal(pid));
    assert(args@.map_values(|s: String| s@) =~= tree_kill_args(pid));
    ExternalCommand {
        program: String::from_str("taskkill"),
        args,
        hide_window: true,
        wait_for_exit: true,
    }
}

/// The ordered teardown actions for process `pid` under strategy `s`.
pub fn teardown_plan(s: KillStrategy, pid: u32) -> (r: Vec<TeardownAction>)
    ensures
        is_teardown_plan(s, pid, r@),
{
    let mut actions: Vec<TeardownAction> = Vec::new();
    match s {
        KillStrategy::TreeThenDirect => {
            actions.push(TeardownAction::RunCommand(tree_kill_command(pid)));
        },
        KillStrategy::DirectOnly => {},
    }
    actions.push(TeardownAction::KillHandle);
    actions
}

} // verus!
