//! The command tree that the parser hands to the executor.
//!
//! Nodes are immutable once built; the executor consumes them read-only and
//! never re-parses text.

use vstd::prelude::*;

verus! {

/// One parsed command line.
pub enum Command {
    /// No operation.
    Empty,
    /// An ordered, non-empty sequence of string tokens; the first token is
    /// the keyword, the rest are arguments.
    Simple { args: Vec<String> },
    /// Evaluate `left`; evaluate `right` only if `left` succeeded.
    And { left: Box<Command>, right: Box<Command> },
    /// Evaluate `left`; evaluate `right` only if `left` failed.
    Or { left: Box<Command>, right: Box<Command> },
    /// Stages connected by operating-system pipes, in order.
    Pipeline { cmds: Vec<Command> },
    /// Stages executed for effect, unconditionally, in order.
    List { cmds: Vec<Command> },
}

/// Well-formedness of a command tree: every `Simple` node carries at least
/// its keyword.
pub open spec fn cmd_wf(c: Command) -> bool
    decreases c,
{
    match c {
        Command::Empty => true,
        Command::Simple { args } => args@.len() > 0,
        Command::And { left, right } => cmd_wf(*left) && cmd_wf(*right),
        Command::Or { left, right } => cmd_wf(*left) && cmd_wf(*right),
        Command::Pipeline { cmds } => forall|i: int|
            0 <= i < cmds@.len() ==> cmd_wf(#[trigger] cmds@[i]),
        Command::List { cmds } => forall|i: int|
            0 <= i < cmds@.len() ==> cmd_wf(#[trigger] cmds@[i]),
    }
}

} // verus!
