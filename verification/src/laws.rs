//! The executor's laws: what the transition relation guarantees about
//! control flow, stated once and proved from the contracts in [`crate::exec`].

use vstd::prelude::*;
use crate::ast::Command;
use crate::status::ExitStatus;
use crate::ioctx::{IoCtx, IoHandle, HandleKind};
use crate::builtin::CdOption;
use crate::exec::{
    Executor, Shell, ShellEnv, Frame, Action, eval_ok, and_then_ok, or_else_ok, stages_ok,
    wire_ok, resolve_ok, cd_apply, which_done,
};
use crate::builtin::{cd_target_spec, which_message_spec, is_builtin_name};

verus! {

/// `Empty` always completes with success and has no observable effect:
/// no frame is left behind, no diagnostic is issued, the shell state is
/// untouched and no operating-system request is made — wherever in the tree
/// it appears, and however many times.
pub proof fn lemma_empty_no_effect(
    base: Seq<Frame>,
    pre: Executor,
    psh: Shell,
    ctx: Option<IoCtx>,
    post: Executor,
    sh: Shell,
    act: Action,
)
    requires
        eval_ok(base, pre, psh, Command::Empty, ctx, post, sh, act),
    ensures
        post.frames@ == base,
        post.status == ExitStatus::Success,
        post.diags@ == pre.diags@,
        post.outs@ == pre.outs@,
        post.next_pipe == pre.next_pipe,
        sh == psh,
        act is Continue,
{
}

/// Short-circuit of `And`: when the left branch did not succeed, the right
/// branch is dropped unevaluated — no frame for it remains, nothing else
/// changes — and the result is the left branch's status.
pub proof fn lemma_and_short_circuit(
    base: Seq<Frame>,
    pre: Executor,
    right: Command,
    ctx: Option<IoCtx>,
    post: Executor,
)
    requires
        and_then_ok(base, pre, right, ctx, post),
        pre.status != ExitStatus::Success,
    ensures
        post.frames@ == base,
        post.status == pre.status,
        post.diags@ == pre.diags@,
{
}

/// Progress of `And`: when the left branch succeeded, the right branch is
/// scheduled for evaluation exactly once, and nothing else changes.
pub proof fn lemma_and_runs_right(
    base: Seq<Frame>,
    pre: Executor,
    right: Command,
    ctx: Option<IoCtx>,
    post: Executor,
)
    requires
        and_then_ok(base, pre, right, ctx, post),
        pre.status == ExitStatus::Success,
    ensures
        post.frames@ == base.push(Frame::Eval { node: right, ctx: ctx }),
        post.status == pre.status,
        post.diags@ == pre.diags@,
{
}

/// Short-circuit of `Or`, the dual: when the left branch succeeded, the
/// right branch is dropped unevaluated and the success stands.
pub proof fn lemma_or_short_circuit(
    base: Seq<Frame>,
    pre: Executor,
    right: Command,
    ctx: Option<IoCtx>,
    post: Executor,
)
    requires
        or_else_ok(base, pre, right, ctx, post),
        pre.status == ExitStatus::Success,
    ensures
        post.frames@ == base,
        post.status == pre.status,
        post.diags@ == pre.diags@,
{
}

/// Progress of `Or`: the right branch runs exactly when the left branch
/// failed.
pub proof fn lemma_or_runs_right(
    base: Seq<Frame>,
    pre: Executor,
    right: Command,
    ctx: Option<IoCtx>,
    post: Executor,
)
    requires
        or_else_ok(base, pre, right, ctx, post),
        pre.status != ExitStatus::Success,
    ensures
        post.frames@ == base.push(Frame::Eval { node: right, ctx: ctx }),
        post.status == pre.status,
        post.diags@ == pre.diags@,
{
}

/// An empty `List` completes with success at once.
pub proof fn lemma_list_empty_succeeds(
    base: Seq<Frame>,
    pre: Executor,
    psh: Shell,
    cmds: Vec<Command>,
    ctx: Option<IoCtx>,
    post: Executor,
    sh: Shell,
    act: Action,
)
    requires
        eval_ok(base, pre, psh, Command::List { cmds }, ctx, post, sh, act),
        cmds@.len() == 0,
    ensures
        post.frames@ == base,
        post.status == ExitStatus::Success,
        sh == psh,
{
}

/// A `List` runs its stages in declared order: while stages remain, the next
/// one scheduled is exactly the first of the remaining ones (the stack holds
/// them reversed), and it is scheduled exactly once — whatever the previous
/// stage's status was.
pub proof fn lemma_list_runs_in_order(
    base: Seq<Frame>,
    pre: Executor,
    rest: Vec<Command>,
    ctx: Option<IoCtx>,
    post: Executor,
)
    requires
        stages_ok(base, pre, rest, ctx, post),
        rest@.len() > 0,
        post.frames@.len() == base.len() + 2,
    ensures
        (post.frames@.last() matches Frame::Eval { node, ctx: c2 } && node == rest@.last()),
        (post.frames@[base.len() as int] matches Frame::Stages { rest: r2, ctx: c } && r2@
            == rest@.drop_last()),
        post.status == pre.status,
{
}

/// A `List`'s result is the status of its last stage: when no stage remains,
/// the list completes with the status register as the last stage left it.
pub proof fn lemma_list_status_is_last(
    base: Seq<Frame>,
    pre: Executor,
    rest: Vec<Command>,
    ctx: Option<IoCtx>,
    post: Executor,
)
    requires
        stages_ok(base, pre, rest, ctx, post),
        rest@.len() == 0,
    ensures
        post.frames@ == base,
        post.status == pre.status,
{
}

/// An unresolvable, unregistered keyword: the command completes with the
/// "unavailable" status, exactly one diagnostic line naming the keyword is
/// issued, and no spawn is requested (the step yields no further action).
pub proof fn lemma_unresolved_keyword(
    base: Seq<Frame>,
    pre: Executor,
    keyword: String,
    args: Vec<String>,
    ctx: IoCtx,
    post: Executor,
    act: Action,
)
    requires
        resolve_ok(base, pre, keyword, args, ctx, None::<String>, post, act),
    ensures
        post.frames@ == base,
        post.status == ExitStatus::Unavailable,
        post.diags@ == pre.diags@.push("crsh: command not found: "@ + keyword@ + "\n"@),
        post.diags@.len() == pre.diags@.len() + 1,
        post.outs@ == pre.outs@,
        act is Continue,
{
}

/// A pipeline's result is the status of its last stage alone: once every
/// stage has run, the pipeline completes with whatever status the last stage
/// left, the statuses of earlier stages having been discarded.
pub proof fn lemma_pipeline_status_is_last(
    base: Seq<Frame>,
    pre: Executor,
    rest: Vec<Command>,
    carry: Option<IoHandle>,
    ctx: IoCtx,
    post: Executor,
)
    requires
        wire_ok(base, pre, rest, carry, ctx, post),
        rest@.len() == 0,
    ensures
        post.frames@ == base,
        post.status == pre.status,
{
}

/// Pipeline data-flow wiring, inner stage: a stage with a successor reads
/// from the very pipe end carried from its left neighbour and writes into
/// the fresh pipe whose read end is carried on to its right neighbour; the
/// error stream is the pipeline's own.
pub proof fn lemma_pipeline_wiring_inner(
    base: Seq<Frame>,
    pre: Executor,
    rest: Vec<Command>,
    carry: Option<IoHandle>,
    ctx: IoCtx,
    post: Executor,
)
    requires
        wire_ok(base, pre, rest, carry, ctx, post),
        rest@.len() > 1,
        post.frames@.len() == base.len() + 2,
    ensures
        ({
            &&& post.frames@.last() matches Frame::Eval { node, ctx: sctx }
            &&& node == rest@.last()
            &&& sctx matches Some(sc)
            &&& (carry matches Some(h0) ==> sc.input == h0)
            &&& (carry is None ==> sc.input.kind() == ctx.input.kind())
            &&& sc.output.kind() == HandleKind::PipeWrite(pre.next_pipe as int)
            &&& sc.error.kind() == ctx.error.kind()
        }),
        ({
            &&& post.frames@[base.len() as int] matches Frame::Wire { rest: r2, carry: c2, ctx: cx }
            &&& r2@ == rest@.drop_last()
            &&& c2 matches Some(h)
            &&& h.kind() == HandleKind::PipeRead(pre.next_pipe as int)
        }),
{
}

/// Pipeline data-flow wiring, last stage: the final stage reads from the
/// pipe end carried from its left neighbour and writes to the pipeline's own
/// output, so the bytes the previous stage wrote are exactly what it reads,
/// and what it writes is the pipeline's externally observed output.
pub proof fn lemma_pipeline_wiring_last(
    base: Seq<Frame>,
    pre: Executor,
    rest: Vec<Command>,
    carry: Option<IoHandle>,
    ctx: IoCtx,
    post: Executor,
)
    requires
        wire_ok(base, pre, rest, carry, ctx, post),
        rest@.len() == 1,
        post.frames@.len() == base.len() + 2,
    ensures
        ({
            &&& post.frames@.last() matches Frame::Eval { node, ctx: sctx }
            &&& node == rest@.last()
            &&& sctx matches Some(sc)
            &&& (carry matches Some(h0) ==> sc.input == h0)
            &&& sc.output.kind() == ctx.output.kind()
            &&& sc.error.kind() == ctx.error.kind()
        }),
{
}

/// `which` on a builtin keyword hands exactly one line to its output
/// stream: the keyword followed by the builtin note.
pub proof fn lemma_which_reports_builtin(
    base: Seq<Frame>,
    pre: Executor,
    keyword: Seq<char>,
    post: Executor,
)
    requires
        which_done(base, pre, which_message_spec(keyword, true, None::<Seq<char>>), post),
    ensures
        post.outs@ == pre.outs@.push(keyword + ": shell builtin
"@),
        post.outs@.len() == pre.outs@.len() + 1,
{
}

/// `which` on a keyword that is neither a builtin nor on the search path
/// hands exactly one line to its output stream: the keyword followed by the
/// not-found note.
pub proof fn lemma_which_reports_not_found(
    base: Seq<Frame>,
    pre: Executor,
    keyword: Seq<char>,
    post: Executor,
)
    requires
        which_done(base, pre, which_message_spec(keyword, false, None::<Seq<char>>), post),
        !is_builtin_name(keyword),
    ensures
        post.outs@ == pre.outs@.push(keyword + " not found
"@),
        post.outs@.len() == pre.outs@.len() + 1,
{
}

/// `cd` round-trip: from a directory `a`, entering `b` and then asking `cd -`
/// targets `a` again, and after that second change the bookkeeping reflects
/// the swap — the current directory is `a` and the previous one is `b`.
pub proof fn lemma_cd_round_trip(env: ShellEnv, b: String)
    ensures
        cd_target_spec(CdOption::Back, None::<Seq<char>>, cd_apply(env, b).home@, cd_apply(env, b).oldpwd@)
            == env.pwd@,
        cd_apply(cd_apply(env, b), env.pwd).pwd == env.pwd,
        cd_apply(cd_apply(env, b), env.pwd).oldpwd == b,
        cd_apply(cd_apply(env, b), env.pwd).home == env.home,
{
}

} // verus!
