//! The command executor: a recursive-descent interpreter over the command
//! tree, realized as an explicit step machine.
//!
//! Process spawning, search-path lookup and directory changes are operating
//! system work; the machine requests them from its driver as [`Action`]s and
//! receives the outcomes back as [`Event`]s. Everything else — short-circuit
//! evaluation, status combination, pipeline wiring, builtin decisions and the
//! directory bookkeeping — happens inside [`Executor::step`], whose contract
//! states each transition exactly.
//!
//! Pipeline stages are realized and awaited strictly in sequence, as one
//! stage must finish before the next is wired: a deliberate, documented
//! limitation — a pipeline whose early stages emit more data than one OS pipe
//! buffer can hold may block, since the downstream reader has not started.

use vstd::prelude::*;
use vstd::string::StringExecFns;
use vstd::pervasive::unreached;
use crate::ast::{Command, cmd_wf};
use crate::status::{ExitStatus, status_of_code};
use crate::ioctx::{
    IoCtx, IoHandle, HandleKind, opt_ctx_kind, opt_ctx_inherited, make_pipe, dup_opt_ctx,
};
use crate::builtin::{
    Builtin, Cd, Which, lookup_builtin, cd_build_ok, cd_build_err, cd_args_ok, cd_target_spec,
    opt_view, is_builtin_name, which_message_spec,
};

verus! {

/// The interpreter's directory-navigation state, mutated only by `cd`.
pub struct ShellEnv {
    pub home: String,
    pub pwd: String,
    pub oldpwd: String,
}

/// The long-lived interpreter state: the directory bookkeeping and the
/// default I/O context that execution falls back to when no override is
/// given.
pub struct Shell {
    pub env: ShellEnv,
    pub io: IoCtx,
}

impl Shell {
    /// A fresh session: the previous directory starts out as the current
    /// one, and the default streams are the interpreter's own.
    pub fn new(home: String, pwd: String) -> (s: Shell)
        ensures
            s.env.home == home,
            s.env.pwd == pwd,
            s.env.oldpwd@ == pwd@,
            s.io.is_inherited(),
    {
        let oldpwd = pwd.clone();
        Shell { env: ShellEnv { home, pwd, oldpwd }, io: IoCtx::inherited() }
    }

    /// A session whose default streams are routed elsewhere.
    pub fn with_io(home: String, pwd: String, io: IoCtx) -> (s: Shell)
        ensures
            s.env.home == home,
            s.env.pwd == pwd,
            s.env.oldpwd@ == pwd@,
            s.io == io,
    {
        let oldpwd = pwd.clone();
        Shell { env: ShellEnv { home, pwd, oldpwd }, io }
    }
}

/// How `cd` updates the directory bookkeeping on a successful change into
/// `pwd`: the old working directory becomes the previous one.
pub open spec fn cd_apply(env: ShellEnv, pwd: String) -> ShellEnv {
    ShellEnv { home: env.home, pwd: pwd, oldpwd: env.pwd }
}

/// An operating-system request the machine hands to its driver.
pub enum Action {
    /// Nothing to do outside; step the machine again with `Event::Tick`.
    Continue,
    /// Look `keyword` up on the search path; answer with `Event::Resolved`.
    Resolve { keyword: String },
    /// Spawn `keyword` with `args`, binding the context's three handles as
    /// the child's standard streams, release the handles, and wait; answer
    /// with `Event::RunExited` or `Event::RunFailed`.
    Run { keyword: String, args: Vec<String>, ctx: IoCtx },
    /// Enter directory `path` and export `oldpwd` as the previous working
    /// directory; answer with `Event::ChDirDone` (carrying the new current
    /// directory) or `Event::ChDirFailed`.
    ChDir { path: String, oldpwd: String },
}

/// The outcome of the previous action, handed back by the driver.
pub enum Event {
    /// The answer to `Action::Continue`.
    Tick,
    /// The search-path hit, if any.
    Resolved { found: Option<String> },
    /// The child ran; its exit code, where the OS reported one.
    RunExited { code: Option<i32> },
    /// The child could not be spawned or awaited; the OS error text.
    RunFailed { error: String },
    /// The directory was entered; the new current directory.
    ChDirDone { pwd: String },
    /// The directory could not be entered; the OS error text.
    ChDirFailed { error: String },
}

/// One continuation of the walk over the command tree.
pub enum Frame {
    /// Evaluate this node under the given context override.
    Eval { node: Command, ctx: Option<IoCtx> },
    /// After the left branch of an `And`: evaluate `right` iff the status is
    /// success.
    AndThen { right: Command, ctx: Option<IoCtx> },
    /// After the left branch of an `Or`: evaluate `right` iff the status is
    /// failure.
    OrElse { right: Command, ctx: Option<IoCtx> },
    /// The stages of a `List` still to run, in reverse order.
    Stages { rest: Vec<Command>, ctx: Option<IoCtx> },
    /// The stages of a `Pipeline` still to wire, in reverse order; `carry`
    /// is the read end of the pipe the previous stage writes to.
    Wire { rest: Vec<Command>, carry: Option<IoHandle>, ctx: IoCtx },
    /// Awaiting the search-path answer for a non-builtin keyword.
    AwaitResolve { keyword: String, args: Vec<String>, ctx: IoCtx },
    /// Awaiting the exit of a spawned child.
    AwaitRun,
    /// Awaiting the outcome of entering `path`.
    AwaitChDir { path: String, ctx: IoCtx },
    /// Awaiting the search-path answer for `which`'s queried keyword.
    AwaitWhich { w: Which, ctx: IoCtx },
}

/// Well-formedness of one frame: every command it still holds is
/// well-formed.
pub open spec fn frame_wf(f: Frame) -> bool {
    match f {
        Frame::Eval { node, ctx } => cmd_wf(node),
        Frame::AndThen { right, ctx } => cmd_wf(right),
        Frame::OrElse { right, ctx } => cmd_wf(right),
        Frame::Stages { rest, ctx } => forall|i: int|
            0 <= i < rest@.len() ==> cmd_wf(#[trigger] rest@[i]),
        Frame::Wire { rest, carry, ctx } => forall|i: int|
            0 <= i < rest@.len() ==> cmd_wf(#[trigger] rest@[i]),
        _ => true,
    }
}

/// Which events answer which pending frame.
pub open spec fn expected_event(f: Frame, ev: Event) -> bool {
    match f {
        Frame::AwaitResolve { .. } => ev is Resolved,
        Frame::AwaitWhich { .. } => ev is Resolved,
        Frame::AwaitRun => ev is RunExited || ev is RunFailed,
        Frame::AwaitChDir { .. } => ev is ChDirDone || ev is ChDirFailed,
        _ => ev is Tick,
    }
}

/// The executor: the frame stack of the walk, the status of the last
/// completed node, the identifier for the next pipe to be created, and two
/// ghost logs — the diagnostic lines issued so far, and the lines builtins
/// handed to their output stream.
pub struct Executor {
    pub frames: Vec<Frame>,
    pub status: ExitStatus,
    pub next_pipe: u64,
    pub diags: Ghost<Seq<Seq<char>>>,
    pub outs: Ghost<Seq<Seq<char>>>,
}

// ---------------------------------------------------------------------------
// The transition relation, piece by piece. `base` is the frame stack below
// the frame being stepped; `pre`/`post` are the executor before and after;
// `psh`/`sh` the shell state before and after.
// ---------------------------------------------------------------------------

/// Status, pipe counter and diagnostics log are untouched.
pub open spec fn core_same(pre: Executor, post: Executor) -> bool {
    &&& post.status == pre.status
    &&& post.next_pipe == pre.next_pipe
    &&& post.diags@ == pre.diags@
    &&& post.outs@ == pre.outs@
}

/// The stepped frame completed with status `s`, with no diagnostic.
pub open spec fn completes(base: Seq<Frame>, pre: Executor, post: Executor, s: ExitStatus) -> bool {
    &&& post.frames@ == base
    &&& post.status == s
    &&& post.next_pipe == pre.next_pipe
    &&& post.diags@ == pre.diags@
    &&& post.outs@ == pre.outs@
}

/// The stepped frame completed with status `s`, issuing exactly the
/// diagnostic line `m`.
pub open spec fn completes_diag(
    base: Seq<Frame>,
    pre: Executor,
    post: Executor,
    s: ExitStatus,
    m: Seq<char>,
) -> bool {
    &&& post.frames@ == base
    &&& post.status == s
    &&& post.next_pipe == pre.next_pipe
    &&& post.diags@ == pre.diags@.push(m)
    &&& post.outs@ == pre.outs@
}

/// An operating-system failure: the stepped frame completed with status `s`
/// and exactly one diagnostic line, whose text comes from the OS.
pub open spec fn os_fail(base: Seq<Frame>, pre: Executor, post: Executor, s: ExitStatus) -> bool {
    &&& post.frames@ == base
    &&& post.status == s
    &&& post.next_pipe == pre.next_pipe
    &&& post.diags@.len() == pre.diags@.len() + 1
    &&& post.diags@.drop_last() == pre.diags@
    &&& post.outs@ == pre.outs@
}

/// The stack grew by one frame on top of `base`.
pub open spec fn pushed1(base: Seq<Frame>, fs: Seq<Frame>) -> bool {
    fs.len() == base.len() + 1 && fs.subrange(0, base.len() as int) == base
}

/// The stack grew by two frames on top of `base`.
pub open spec fn pushed2(base: Seq<Frame>, fs: Seq<Frame>) -> bool {
    fs.len() == base.len() + 2 && fs.subrange(0, base.len() as int) == base
}

/// `r` lists exactly the elements of `v`, in reverse order.
pub open spec fn is_reverse_of(r: Seq<Command>, v: Seq<Command>) -> bool {
    r.len() == v.len() && forall|i: int| 0 <= i < r.len() ==> #[trigger] r[i] == v[v.len() - 1 - i]
}

/// The referents of the context a node runs under: the override where one
/// was given, the shell's default streams otherwise.
pub open spec fn eval_io_kind(ctx: Option<IoCtx>, psh: Shell) -> crate::ioctx::CtxKind {
    match ctx {
        Some(c) => c.kind(),
        None => psh.io.kind(),
    }
}

/// Whether resolving the node's context can never fail: all handles involved
/// are inherited standard streams.
pub open spec fn eval_io_inherited(ctx: Option<IoCtx>, psh: Shell) -> bool {
    match ctx {
        Some(c) => c.is_inherited(),
        None => psh.io.is_inherited(),
    }
}

/// Stepping `And { left, right }`: the machine pushes the continuation for
/// `right` and then the evaluation of `left` (so `left` runs first and
/// `right`'s fate is decided by `left`'s status), both under contexts with
/// the same referents; or duplicating the context failed at the OS level.
pub open spec fn and_eval_ok(
    base: Seq<Frame>,
    pre: Executor,
    left: Command,
    right: Command,
    ctx: Option<IoCtx>,
    post: Executor,
) -> bool {
    ||| {
        &&& core_same(pre, post)
        &&& pushed2(base, post.frames@)
        &&& post.frames@[base.len() as int] matches Frame::AndThen { right: r, ctx: c } && r
            == right && c == ctx
        &&& post.frames@.last() matches Frame::Eval { node: n, ctx: c2 } && n == left
            && opt_ctx_kind(c2) == opt_ctx_kind(ctx)
    }
    ||| (!opt_ctx_inherited(ctx) && os_fail(base, pre, post, ExitStatus::IoErr))
}

/// Stepping `Or { left, right }`: as with `And`, with the dual continuation.
pub open spec fn or_eval_ok(
    base: Seq<Frame>,
    pre: Executor,
    left: Command,
    right: Command,
    ctx: Option<IoCtx>,
    post: Executor,
) -> bool {
    ||| {
        &&& core_same(pre, post)
        &&& pushed2(base, post.frames@)
        &&& post.frames@[base.len() as int] matches Frame::OrElse { right: r, ctx: c } && r
            == right && c == ctx
        &&& post.frames@.last() matches Frame::Eval { node: n, ctx: c2 } && n == left
            && opt_ctx_kind(c2) == opt_ctx_kind(ctx)
    }
    ||| (!opt_ctx_inherited(ctx) && os_fail(base, pre, post, ExitStatus::IoErr))
}

/// Stepping `List { cmds }`: an empty list succeeds at once; otherwise the
/// stages are stacked for execution in declared order.
pub open spec fn list_eval_ok(
    base: Seq<Frame>,
    pre: Executor,
    cmds: Vec<Command>,
    ctx: Option<IoCtx>,
    post: Executor,
) -> bool {
    if cmds@.len() == 0 {
        completes(base, pre, post, ExitStatus::Success)
    } else {
        &&& core_same(pre, post)
        &&& pushed1(base, post.frames@)
        &&& post.frames@.last() matches Frame::Stages { rest, ctx: c } && c == ctx
            && is_reverse_of(rest@, cmds@)
    }
}

/// Stepping `Pipeline { cmds }`: an empty pipeline succeeds at once;
/// otherwise the stages are stacked for wiring in declared order, under the
/// pipeline's resolved context; or resolving that context failed at the OS
/// level.
pub open spec fn pipeline_eval_ok(
    base: Seq<Frame>,
    pre: Executor,
    psh: Shell,
    cmds: Vec<Command>,
    ctx: Option<IoCtx>,
    post: Executor,
) -> bool {
    if cmds@.len() == 0 {
        completes(base, pre, post, ExitStatus::Success)
    } else {
        ||| {
            &&& core_same(pre, post)
            &&& pushed1(base, post.frames@)
            &&& post.frames@.last() matches Frame::Wire { rest, carry, ctx: io } && carry is None
                && is_reverse_of(rest@, cmds@) && io.kind() == eval_io_kind(ctx, psh)
        }
        ||| (!eval_io_inherited(ctx, psh) && os_fail(base, pre, post, ExitStatus::IoErr))
    }
}

/// Stepping `Simple { args }`. The keyword decides: `cd` resolves its target
/// and requests the directory change (or rejects its arguments with the
/// exact diagnostic); `which` answers for builtins at once or requests a
/// search-path lookup; any other keyword requests a search-path lookup
/// toward spawning. An OS failure while resolving the context yields an I/O
/// error instead.
pub open spec fn simple_eval_ok(
    base: Seq<Frame>,
    pre: Executor,
    psh: Shell,
    args: Vec<String>,
    ctx: Option<IoCtx>,
    post: Executor,
    sh: Shell,
    act: Action,
) -> bool {
    let kw = args@[0];
    let rest = args@.skip(1);
    if kw@ == "cd"@ {
        &&& sh == psh
        &&& {
            ||| (!eval_io_inherited(ctx, psh) && act is Continue && os_fail(
                base,
                pre,
                post,
                ExitStatus::IoErr,
            ))
            ||| (!cd_args_ok(rest) && act is Continue && (exists|m: Seq<char>|
                cd_build_err(rest, m) && completes_diag(
                    base,
                    pre,
                    post,
                    ExitStatus::Usage,
                    m + "\n"@,
                )))
            ||| (cd_args_ok(rest) && core_same(pre, post) && pushed1(base, post.frames@)
                && (exists|c: Cd|
                {
                    &&& cd_build_ok(rest, c)
                    &&& act matches Action::ChDir { path, oldpwd } && path@ == cd_target_spec(
                        c.option,
                        opt_view(c.path),
                        psh.env.home@,
                        psh.env.oldpwd@,
                    ) && oldpwd == psh.env.pwd && (post.frames@.last() matches Frame::AwaitChDir {
                        path: p2,
                        ctx: io,
                    } && p2 == path && io.kind() == eval_io_kind(ctx, psh))
                }))
        }
    } else if kw@ == "which"@ {
        let wkw = if rest.len() > 0 {
            rest[0]@
        } else {
            Seq::<char>::empty()
        };
        &&& sh == psh
        &&& {
            ||| (!eval_io_inherited(ctx, psh) && act is Continue && os_fail(
                base,
                pre,
                post,
                ExitStatus::IoErr,
            ))
            ||| (is_builtin_name(wkw) && act is Continue && which_done(
                base,
                pre,
                which_message_spec(wkw, true, None::<Seq<char>>),
                post,
            ))
            ||| (!is_builtin_name(wkw) && core_same(pre, post) && pushed1(base, post.frames@)
                && (act matches Action::Resolve { keyword } && keyword@ == wkw) && (
                post.frames@.last() matches Frame::AwaitWhich { w, ctx: io } && w.keyword@ == wkw
                    && io.kind() == eval_io_kind(ctx, psh)))
        }
    } else {
        &&& sh == psh
        &&& {
            ||| (!eval_io_inherited(ctx, psh) && act is Continue && os_fail(
                base,
                pre,
                post,
                ExitStatus::IoErr,
            ))
            ||| {
                &&& core_same(pre, post)
                &&& pushed1(base, post.frames@)
                &&& act matches Action::Resolve { keyword } && keyword == kw
                &&& post.frames@.last() matches Frame::AwaitResolve { keyword: k2, args: a2, ctx: io }
                    && k2 == kw && a2@ == rest && io.kind() == eval_io_kind(ctx, psh)
            }
        }
    }
}

/// Stepping an `Eval` frame, by node kind. `Empty` completes with success,
/// touching nothing — no process, no builtin, no diagnostic.
pub open spec fn eval_ok(
    base: Seq<Frame>,
    pre: Executor,
    psh: Shell,
    node: Command,
    ctx: Option<IoCtx>,
    post: Executor,
    sh: Shell,
    act: Action,
) -> bool {
    match node {
        Command::Empty => sh == psh && act is Continue && completes(
            base,
            pre,
            post,
            ExitStatus::Success,
        ),
        Command::Simple { args } => simple_eval_ok(base, pre, psh, args, ctx, post, sh, act),
        Command::And { left, right } => sh == psh && act is Continue && and_eval_ok(
            base,
            pre,
            *left,
            *right,
            ctx,
            post,
        ),
        Command::Or { left, right } => sh == psh && act is Continue && or_eval_ok(
            base,
            pre,
            *left,
            *right,
            ctx,
            post,
        ),
        Command::Pipeline { cmds } => sh == psh && act is Continue && pipeline_eval_ok(
            base,
            pre,
            psh,
            cmds,
            ctx,
            post,
        ),
        Command::List { cmds } => sh == psh && act is Continue && list_eval_ok(
            base,
            pre,
            cmds,
            ctx,
            post,
        ),
    }
}

/// Stepping `AndThen { right }`: `right` is evaluated exactly when the left
/// branch succeeded; otherwise it is discarded unevaluated and the left
/// status stands.
pub open spec fn and_then_ok(
    base: Seq<Frame>,
    pre: Executor,
    right: Command,
    ctx: Option<IoCtx>,
    post: Executor,
) -> bool {
    if pre.status == ExitStatus::Success {
        &&& core_same(pre, post)
        &&& pushed1(base, post.frames@)
        &&& post.frames@.last() == Frame::Eval { node: right, ctx: ctx }
    } else {
        completes(base, pre, post, pre.status)
    }
}

/// Stepping `OrElse { right }`: `right` is evaluated exactly when the left
/// branch failed; on success it is discarded unevaluated.
pub open spec fn or_else_ok(
    base: Seq<Frame>,
    pre: Executor,
    right: Command,
    ctx: Option<IoCtx>,
    post: Executor,
) -> bool {
    if pre.status != ExitStatus::Success {
        &&& core_same(pre, post)
        &&& pushed1(base, post.frames@)
        &&& post.frames@.last() == Frame::Eval { node: right, ctx: ctx }
    } else {
        completes(base, pre, post, pre.status)
    }
}

/// Stepping `Stages { rest }` of a `List`: when stages remain, the next one
/// in declared order is evaluated under a duplicate of the list's context
/// (an OS failure duplicating it counts as that stage failing with an I/O
/// error, and the list goes on); when none remain, the list completes with
/// the status of its last stage.
pub open spec fn stages_ok(
    base: Seq<Frame>,
    pre: Executor,
    rest: Vec<Command>,
    ctx: Option<IoCtx>,
    post: Executor,
) -> bool {
    if rest@.len() == 0 {
        completes(base, pre, post, pre.status)
    } else {
        ||| {
            &&& core_same(pre, post)
            &&& pushed2(base, post.frames@)
            &&& post.frames@[base.len() as int] matches Frame::Stages { rest: r2, ctx: c } && r2@
                == rest@.drop_last() && c == ctx
            &&& post.frames@.last() matches Frame::Eval { node, ctx: c2 } && node == rest@.last()
                && opt_ctx_kind(c2) == opt_ctx_kind(ctx)
        }
        ||| {
            &&& !opt_ctx_inherited(ctx)
            &&& post.status == ExitStatus::IoErr
            &&& post.next_pipe == pre.next_pipe
            &&& post.diags@.len() == pre.diags@.len() + 1
            &&& post.diags@.drop_last() == pre.diags@
            &&& post.outs@ == pre.outs@
            &&& pushed1(base, post.frames@)
            &&& post.frames@.last() matches Frame::Stages { rest: r2, ctx: c } && r2@
                == rest@.drop_last() && c == ctx
        }
    }
}

/// Stepping `Wire { rest, carry }` of a `Pipeline`: when stages remain, the
/// next one runs with its input wired to the pipe carried from its left
/// neighbour (the pipeline's own input for the first stage), its output
/// wired to a fresh pipe toward its right neighbour (the pipeline's own
/// output for the last stage), and the pipeline's error stream; an OS
/// failure making or duplicating a handle aborts the whole pipeline with an
/// I/O error. When no stage remains, the pipeline completes with the status
/// of its last stage.
pub open spec fn wire_ok(
    base: Seq<Frame>,
    pre: Executor,
    rest: Vec<Command>,
    carry: Option<IoHandle>,
    ctx: IoCtx,
    post: Executor,
) -> bool {
    if rest@.len() == 0 {
        completes(base, pre, post, pre.status)
    } else {
        let in_ok = {
            &&& post.frames@.last() matches Frame::Eval { node, ctx: sctx }
            &&& node == rest@.last()
            &&& sctx matches Some(sc)
            &&& (carry matches Some(h0) ==> sc.input == h0)
            &&& (carry is None ==> sc.input.kind() == ctx.input.kind())
            &&& sc.error.kind() == ctx.error.kind()
        };
        ||| {
            &&& rest@.len() > 1
            &&& post.status == pre.status
            &&& post.diags@ == pre.diags@
            &&& post.outs@ == pre.outs@
            &&& post.next_pipe == pre.next_pipe + 1
            &&& pushed2(base, post.frames@)
            &&& post.frames@[base.len() as int] matches Frame::Wire { rest: r2, carry: c2, ctx: cx }
                && r2@ == rest@.drop_last() && cx == ctx && (c2 matches Some(h) && h.kind()
                == HandleKind::PipeRead(pre.next_pipe as int))
            &&& in_ok
            &&& post.frames@.last() matches Frame::Eval { node, ctx: sctx } && sctx matches Some(sc)
                && sc.output.kind() == HandleKind::PipeWrite(pre.next_pipe as int)
        }
        ||| {
            &&& rest@.len() == 1
            &&& core_same(pre, post)
            &&& pushed2(base, post.frames@)
            &&& post.frames@[base.len() as int] matches Frame::Wire { rest: r2, carry: c2, ctx: cx }
                && r2@.len() == 0 && c2 is None && cx == ctx
            &&& in_ok
            &&& post.frames@.last() matches Frame::Eval { node, ctx: sctx } && sctx matches Some(sc)
                && sc.output.kind() == ctx.output.kind()
        }
        ||| os_fail(base, pre, post, ExitStatus::IoErr)
    }
}

/// Stepping `AwaitResolve` on the search-path answer: an unresolved keyword
/// completes with the "unavailable" status and exactly one diagnostic line,
/// and no spawn is requested; a hit moves the command's tokens and context
/// into a `Run` request.
pub open spec fn resolve_ok(
    base: Seq<Frame>,
    pre: Executor,
    keyword: String,
    args: Vec<String>,
    ctx: IoCtx,
    found: Option<String>,
    post: Executor,
    act: Action,
) -> bool {
    match found {
        None => act is Continue && completes_diag(
            base,
            pre,
            post,
            ExitStatus::Unavailable,
            "crsh: command not found: "@ + keyword@ + "\n"@,
        ),
        Some(p) => {
            &&& core_same(pre, post)
            &&& pushed1(base, post.frames@)
            &&& post.frames@.last() == Frame::AwaitRun
            &&& act matches Action::Run { keyword: k, args: a, ctx: c } && k == keyword && a == args
                && c == ctx
        },
    }
}

/// Stepping `AwaitRun` on the child's outcome: a reported exit code is
/// normalized (an absent code counts as 0); a spawn or wait failure
/// completes with the OS-error status and one diagnostic line.
pub open spec fn run_ok(
    base: Seq<Frame>,
    pre: Executor,
    ev: Event,
    post: Executor,
    act: Action,
) -> bool {
    &&& act is Continue
    &&& match ev {
        Event::RunExited { code } => completes(
            base,
            pre,
            post,
            status_of_code(
                match code {
                    Some(c) => c as int,
                    None => 0,
                },
            ),
        ),
        Event::RunFailed { error } => os_fail(base, pre, post, ExitStatus::OsErr),
        _ => false,
    }
}

/// Stepping `AwaitChDir` on the outcome: on success the bookkeeping swaps —
/// the old working directory becomes the previous one, the reported
/// directory the current one — and the builtin succeeds; on failure the
/// state is untouched and the builtin fails as a usage error with the exact
/// diagnostic.
pub open spec fn chdir_ok(
    base: Seq<Frame>,
    pre: Executor,
    psh: Shell,
    path: String,
    ev: Event,
    post: Executor,
    sh: Shell,
    act: Action,
) -> bool {
    &&& act is Continue
    &&& sh.io == psh.io
    &&& match ev {
        Event::ChDirDone { pwd } => sh.env == cd_apply(psh.env, pwd) && completes(
            base,
            pre,
            post,
            ExitStatus::Success,
        ),
        Event::ChDirFailed { error } => sh.env == psh.env && completes_diag(
            base,
            pre,
            post,
            ExitStatus::Usage,
            "cd: cannot access '"@ + path@ + "': "@ + error@ + "\n"@,
        ),
        _ => false,
    }
}

/// `which` concluded: exactly the line `msg` was handed to its output
/// stream, and the builtin succeeded — unless the write itself failed,
/// which makes it a usage error with one diagnostic line.
pub open spec fn which_done(base: Seq<Frame>, pre: Executor, msg: Seq<char>, post: Executor) -> bool {
    &&& post.frames@ == base
    &&& post.next_pipe == pre.next_pipe
    &&& post.outs@ == pre.outs@.push(msg)
    &&& {
        ||| (post.status == ExitStatus::Success && post.diags@ == pre.diags@)
        ||| (post.status == ExitStatus::Usage && post.diags@.len() == pre.diags@.len() + 1
            && post.diags@.drop_last() == pre.diags@)
    }
}

/// The whole transition relation of one step, dispatching on the stepped
/// frame.
pub open spec fn step_ok(
    pre: Executor,
    psh: Shell,
    ev: Event,
    post: Executor,
    sh: Shell,
    act: Action,
) -> bool {
    let f = pre.frames@.last();
    let base = pre.frames@.drop_last();
    match f {
        Frame::Eval { node, ctx } => eval_ok(base, pre, psh, node, ctx, post, sh, act),
        Frame::AndThen { right, ctx } => sh == psh && act is Continue && and_then_ok(
            base,
            pre,
            right,
            ctx,
            post,
        ),
        Frame::OrElse { right, ctx } => sh == psh && act is Continue && or_else_ok(
            base,
            pre,
            right,
            ctx,
            post,
        ),
        Frame::Stages { rest, ctx } => sh == psh && act is Continue && stages_ok(
            base,
            pre,
            rest,
            ctx,
            post,
        ),
        Frame::Wire { rest, carry, ctx } => sh == psh && act is Continue && wire_ok(
            base,
            pre,
            rest,
            carry,
            ctx,
            post,
        ),
        Frame::AwaitResolve { keyword, args, ctx } => sh == psh && (
        ev matches Event::Resolved { found } && resolve_ok(
            base,
            pre,
            keyword,
            args,
            ctx,
            found,
            post,
            act,
        )),
        Frame::AwaitRun => sh == psh && run_ok(base, pre, ev, post, act),
        Frame::AwaitChDir { path, ctx } => chdir_ok(base, pre, psh, path, ev, post, sh, act),
        Frame::AwaitWhich { w, ctx } => sh == psh && act is Continue && (
        ev matches Event::Resolved { found } && which_done(
            base,
            pre,
            which_message_spec(w.keyword@, false, opt_view(found)),
            post,
        )),
    }
}

impl Executor {
    /// All commands still held by the stack are well-formed.
    pub open spec fn wf(&self) -> bool {
        forall|i: int| 0 <= i < self.frames@.len() ==> frame_wf(#[trigger] self.frames@[i])
    }

    /// The walk is finished; `result` is the tree's exit status.
    pub open spec fn is_done(&self) -> bool {
        self.frames@.len() == 0
    }

    /// Start executing one command tree.
    pub fn new(node: Command) -> (e: Executor)
        requires
            cmd_wf(node),
        ensures
            e.wf(),
            !e.is_done(),
            e.frames@.len() == 1,
            (e.frames@[0] == Frame::Eval { node: node, ctx: None::<IoCtx> }),
            e.status == ExitStatus::Success,
            (e.diags@ == Seq::<Seq<char>>::empty()),
            (e.outs@ == Seq::<Seq<char>>::empty()),
    {
        let mut frames: Vec<Frame> = Vec::new();
        frames.push(Frame::Eval { node, ctx: None });
        Executor {
            frames,
            status: ExitStatus::Success,
            next_pipe: 0,
            diags: Ghost(Seq::empty()),
            outs: Ghost(Seq::empty()),
        }
    }

    /// Whether the walk is finished.
    pub fn done(&self) -> (b: bool)
        ensures
            b == self.is_done(),
    {
        self.frames.len() == 0
    }

    /// The exit status of the finished walk (of the last completed node,
    /// while the walk is still going).
    pub fn result(&self) -> (s: ExitStatus)
        ensures
            s == self.status,
    {
        self.status
    }

    /// Issue a diagnostic line on the shell's own error stream.
    fn diag_shell(&mut self, shell: &Shell, line: String)
        ensures
            final(self).frames == old(self).frames,
            final(self).status == old(self).status,
            final(self).next_pipe == old(self).next_pipe,
            final(self).diags@ == old(self).diags@.push(line@),
            final(self).outs@ == old(self).outs@,
    {
        let _ = shell.io.error.write_str(&line);
        self.diags = Ghost(self.diags@.push(line@));
    }

    /// Issue a diagnostic line on the given error handle.
    fn diag_on(&mut self, err: &IoHandle, line: String)
        ensures
            final(self).frames == old(self).frames,
            final(self).status == old(self).status,
            final(self).next_pipe == old(self).next_pipe,
            final(self).diags@ == old(self).diags@.push(line@),
            final(self).outs@ == old(self).outs@,
    {
        let _ = err.write_str(&line);
        self.diags = Ghost(self.diags@.push(line@));
    }

    /// Report an OS error text as `crsh: <error>` on the shell's error
    /// stream and record the given failure status.
    fn fail_os(&mut self, shell: &Shell, e: String, s: ExitStatus)
        ensures
            final(self).frames == old(self).frames,
            final(self).status == s,
            final(self).next_pipe == old(self).next_pipe,
            final(self).diags@.len() == old(self).diags@.len() + 1,
            final(self).diags@.drop_last() == old(self).diags@,
            final(self).outs@ == old(self).outs@,
    {
        let line = "crsh: ".to_owned().concat(e.as_str()).concat("\n");
        let _ = shell.io.error.write_str(&line);
        self.diags = Ghost(self.diags@.push(line@));
        self.status = s;
        proof {
            assert(self.diags@.drop_last() =~= old(self).diags@);
        }
    }
}

impl Executor {
    /// Perform one transition: consume the outcome of the previous action
    /// and return the next operating-system request (or `Continue`). The
    /// contract is the transition relation [`step_ok`].
    pub fn step(&mut self, shell: &mut Shell, event: Event) -> (act: Action)
        requires
            old(self).wf(),
            !old(self).is_done(),
            expected_event(old(self).frames@.last(), event),
        ensures
            final(self).wf(),
            step_ok(*old(self), *old(shell), event, *final(self), *final(shell), act),
    {
        proof {
            assert(frame_wf(old(self).frames@[old(self).frames@.len() - 1]));
        }
        let f = match self.frames.pop() {
            Some(f) => f,
            None => unreached(),
        };
        match f {
            Frame::Eval { node, ctx } => self.eval_node(shell, node, ctx),
            Frame::AndThen { right, ctx } => {
                if self.status.is_success() {
                    self.frames.push(Frame::Eval { node: right, ctx });
                    proof {
                        assert(self.frames@.subrange(0, old(self).frames@.len() - 1)
                            =~= old(self).frames@.drop_last());
                        self.lemma_wf_after_push1(*old(self));
                    }
                }
                Action::Continue
            },
            Frame::OrElse { right, ctx } => {
                if !self.status.is_success() {
                    self.frames.push(Frame::Eval { node: right, ctx });
                    proof {
                        assert(self.frames@.subrange(0, old(self).frames@.len() - 1)
                            =~= old(self).frames@.drop_last());
                        self.lemma_wf_after_push1(*old(self));
                    }
                }
                Action::Continue
            },
            Frame::Stages { rest, ctx } => {
                let mut rest = rest;
                let ghost rest0 = rest@;
                match rest.pop() {
                    None => Action::Continue,
                    Some(cmd) => {
                        match dup_opt_ctx(&ctx) {
                            Ok(c2) => {
                                self.frames.push(Frame::Stages { rest, ctx });
                                self.frames.push(Frame::Eval { node: cmd, ctx: c2 });
                                proof {
                                    assert(self.frames@.subrange(0, old(self).frames@.len() - 1)
                                        =~= old(self).frames@.drop_last());
                                    self.lemma_wf_after_push2(*old(self));
                                }
                                Action::Continue
                            },
                            Err(e) => {
                                self.frames.push(Frame::Stages { rest, ctx });
                                self.fail_os(shell, e, ExitStatus::IoErr);
                                proof {
                                    assert(self.frames@.subrange(0, old(self).frames@.len() - 1)
                                        =~= old(self).frames@.drop_last());
                                    self.lemma_wf_after_push1(*old(self));
                                }
                                Action::Continue
                            },
                        }
                    },
                }
            },
            Frame::Wire { rest, carry, ctx } => self.wire_step(shell, rest, carry, ctx),
            Frame::AwaitResolve { keyword, args, ctx } => match event {
                Event::Resolved { found } => match found {
                    None => {
                        let line = "crsh: command not found: ".to_owned().concat(
                            keyword.as_str(),
                        ).concat("\n");
                        self.diag_shell(shell, line);
                        self.status = ExitStatus::Unavailable;
                        Action::Continue
                    },
                    Some(p) => {
                        self.frames.push(Frame::AwaitRun);
                        proof {
                            assert(self.frames@.subrange(0, old(self).frames@.len() - 1)
                                =~= old(self).frames@.drop_last());
                            self.lemma_wf_after_push1(*old(self));
                        }
                        Action::Run { keyword, args, ctx }
                    },
                },
                _ => unreached(),
            },
            Frame::AwaitRun => match event {
                Event::RunExited { code } => {
                    let c: i32 = match code {
                        Some(c) => c,
                        None => 0,
                    };
                    self.status = ExitStatus::from_code(c);
                    Action::Continue
                },
                Event::RunFailed { error } => {
                    self.fail_os(shell, error, ExitStatus::OsErr);
                    Action::Continue
                },
                _ => unreached(),
            },
            Frame::AwaitChDir { path, ctx } => match event {
                Event::ChDirDone { pwd } => {
                    let oldp = shell.env.pwd.clone();
                    shell.env.oldpwd = oldp;
                    shell.env.pwd = pwd;
                    self.status = ExitStatus::Success;
                    Action::Continue
                },
                Event::ChDirFailed { error } => {
                    let line = "cd: cannot access '".to_owned().concat(path.as_str()).concat(
                        "': ",
                    ).concat(error.as_str()).concat("\n");
                    self.diag_on(&ctx.error, line);
                    self.status = ExitStatus::Usage;
                    Action::Continue
                },
                _ => unreached(),
            },
            Frame::AwaitWhich { w, ctx } => match event {
                Event::Resolved { found } => {
                    let msg = w.message(false, &found);
                    let ok = ctx.output.write_str(&msg);
                    self.outs = Ghost(self.outs@.push(msg@));
                    if ok {
                        self.status = ExitStatus::Success;
                    } else {
                        self.diag_on(&ctx.error, "which: cannot write to output\n".to_owned());
                        self.status = ExitStatus::Usage;
                        proof {
                            assert(self.diags@.drop_last() =~= old(self).diags@);
                        }
                    }
                    Action::Continue
                },
                _ => unreached(),
            },
        }
    }

    /// The stack grew by one well-formed frame on a well-formed rest.
    proof fn lemma_wf_after_push1(&self, pre: Executor)
        requires
            pre.wf(),
            pre.frames@.len() > 0,
            self.frames@.len() == pre.frames@.len(),
            self.frames@.subrange(0, pre.frames@.len() - 1) == pre.frames@.drop_last(),
            frame_wf(self.frames@.last()),
        ensures
            self.wf(),
    {
        assert forall|i: int| 0 <= i < self.frames@.len() implies frame_wf(
            #[trigger] self.frames@[i],
        ) by {
            if i < pre.frames@.len() - 1 {
                assert(self.frames@[i] == pre.frames@.drop_last()[i]);
                assert(pre.frames@.drop_last()[i] == pre.frames@[i]);
                assert(frame_wf(pre.frames@[i]));
            }
        }
    }

    /// The stack grew by two well-formed frames on a well-formed rest.
    proof fn lemma_wf_after_push2(&self, pre: Executor)
        requires
            pre.wf(),
            pre.frames@.len() > 0,
            self.frames@.len() == pre.frames@.len() + 1,
            self.frames@.subrange(0, pre.frames@.len() - 1) == pre.frames@.drop_last(),
            frame_wf(self.frames@[pre.frames@.len() - 1]),
            frame_wf(self.frames@.last()),
        ensures
            self.wf(),
    {
        assert forall|i: int| 0 <= i < self.frames@.len() implies frame_wf(
            #[trigger] self.frames@[i],
        ) by {
            if i < pre.frames@.len() - 1 {
                assert(self.frames@[i] == pre.frames@.drop_last()[i]);
                assert(pre.frames@.drop_last()[i] == pre.frames@[i]);
                assert(frame_wf(pre.frames@[i]));
            }
        }
    }

    /// Evaluate one command node (whose frame is already popped).
    fn eval_node(&mut self, shell: &mut Shell, node: Command, ctx: Option<IoCtx>) -> (act: Action)
        requires
            old(self).wf(),
            cmd_wf(node),
        ensures
            final(self).wf(),
            eval_ok(
                old(self).frames@,
                *old(self),
                *old(shell),
                node,
                ctx,
                *final(self),
                *final(shell),
                act,
            ),
    {
        match node {
            Command::Empty => {
                self.status = ExitStatus::Success;
                Action::Continue
            },
            Command::Simple { args } => self.eval_simple(shell, args, ctx),
            Command::And { left, right } => {
                match dup_opt_ctx(&ctx) {
                    Ok(c2) => {
                        self.frames.push(Frame::AndThen { right: *right, ctx });
                        self.frames.push(Frame::Eval { node: *left, ctx: c2 });
                        proof {
                            assert(self.frames@.subrange(0, old(self).frames@.len() as int)
                                =~= old(self).frames@);
                            self.lemma_wf_grow2(*old(self));
                        }
                        Action::Continue
                    },
                    Err(e) => {
                        self.fail_os(shell, e, ExitStatus::IoErr);
                        Action::Continue
                    },
                }
            },
            Command::Or { left, right } => {
                match dup_opt_ctx(&ctx) {
                    Ok(c2) => {
                        self.frames.push(Frame::OrElse { right: *right, ctx });
                        self.frames.push(Frame::Eval { node: *left, ctx: c2 });
                        proof {
                            assert(self.frames@.subrange(0, old(self).frames@.len() as int)
                                =~= old(self).frames@);
                            self.lemma_wf_grow2(*old(self));
                        }
                        Action::Continue
                    },
                    Err(e) => {
                        self.fail_os(shell, e, ExitStatus::IoErr);
                        Action::Continue
                    },
                }
            },
            Command::List { cmds } => {
                if cmds.len() == 0 {
                    self.status = ExitStatus::Success;
                    Action::Continue
                } else {
                    let ghost gcmds = cmds@;
                    let rev = reverse_cmds(cmds);
                    proof {
                        assert forall|i: int| 0 <= i < rev@.len() implies cmd_wf(
                            #[trigger] rev@[i],
                        ) by {
                            assert(rev@[i] == gcmds[gcmds.len() - 1 - i]);
                        }
                    }
                    self.frames.push(Frame::Stages { rest: rev, ctx });
                    proof {
                        assert(self.frames@.subrange(0, old(self).frames@.len() as int)
                            =~= old(self).frames@);
                        self.lemma_wf_grow1(*old(self));
                    }
                    Action::Continue
                }
            },
            Command::Pipeline { cmds } => {
                if cmds.len() == 0 {
                    self.status = ExitStatus::Success;
                    Action::Continue
                } else {
                    let io = match ctx {
                        Some(c) => c,
                        None => match shell.io.dup() {
                            Ok(c) => c,
                            Err(e) => {
                                self.fail_os(shell, e, ExitStatus::IoErr);
                                return Action::Continue;
                            },
                        },
                    };
                    let ghost gcmds = cmds@;
                    let rev = reverse_cmds(cmds);
                    proof {
                        assert forall|i: int| 0 <= i < rev@.len() implies cmd_wf(
                            #[trigger] rev@[i],
                        ) by {
                            assert(rev@[i] == gcmds[gcmds.len() - 1 - i]);
                        }
                    }
                    self.frames.push(Frame::Wire { rest: rev, carry: None, ctx: io });
                    proof {
                        assert(self.frames@.subrange(0, old(self).frames@.len() as int)
                            =~= old(self).frames@);
                        self.lemma_wf_grow1(*old(self));
                    }
                    Action::Continue
                }
            },
        }
    }

    /// The stack of a popped-frame state grew by one well-formed frame.
    proof fn lemma_wf_grow1(&self, pre: Executor)
        requires
            pre.wf(),
            self.frames@.len() == pre.frames@.len() + 1,
            self.frames@.subrange(0, pre.frames@.len() as int) == pre.frames@,
            frame_wf(self.frames@.last()),
        ensures
            self.wf(),
    {
        assert forall|i: int| 0 <= i < self.frames@.len() implies frame_wf(
            #[trigger] self.frames@[i],
        ) by {
            if i < pre.frames@.len() {
                assert(self.frames@[i] == pre.frames@[i]);
                assert(frame_wf(pre.frames@[i]));
            }
        }
    }

    /// The stack of a popped-frame state grew by two well-formed frames.
    proof fn lemma_wf_grow2(&self, pre: Executor)
        requires
            pre.wf(),
            self.frames@.len() == pre.frames@.len() + 2,
            self.frames@.subrange(0, pre.frames@.len() as int) == pre.frames@,
            frame_wf(self.frames@[pre.frames@.len() as int]),
            frame_wf(self.frames@.last()),
        ensures
            self.wf(),
    {
        assert forall|i: int| 0 <= i < self.frames@.len() implies frame_wf(
            #[trigger] self.frames@[i],
        ) by {
            if i < pre.frames@.len() {
                assert(self.frames@[i] == pre.frames@[i]);
                assert(frame_wf(pre.frames@[i]));
            }
        }
    }

    /// Evaluate a `Simple` node: dispatch on its keyword.
    fn eval_simple(&mut self, shell: &mut Shell, args: Vec<String>, ctx: Option<IoCtx>) -> (act:
        Action)
        requires
            old(self).wf(),
            args@.len() > 0,
        ensures
            final(self).wf(),
            simple_eval_ok(
                old(self).frames@,
                *old(self),
                *old(shell),
                args,
                ctx,
                *final(self),
                *final(shell),
                act,
            ),
    {
        let keyword = args[0].clone();
        let mut rest: Vec<String> = Vec::new();
        let mut i: usize = 1;
        while i < args.len()
            invariant
                1 <= i <= args@.len(),
                rest@ == args@.subrange(1, i as int),
            decreases args@.len() - i,
        {
            rest.push(args[i].clone());
            proof {
                assert(rest@ =~= args@.subrange(1, i + 1 as int));
            }
            i += 1;
        }
        proof {
            assert(rest@ =~= args@.skip(1));
        }
        let io = match ctx {
            Some(c) => c,
            None => match shell.io.dup() {
                Ok(c) => c,
                Err(e) => {
                    self.fail_os(shell, e, ExitStatus::IoErr);
                    return Action::Continue;
                },
            },
        };
        match lookup_builtin(&keyword) {
            Some(Builtin::Cd) => {
                match Cd::build(&rest) {
                    Err(e) => {
                        let line = e.concat("\n");
                        self.diag_on(&io.error, line);
                        self.status = ExitStatus::Usage;
                        Action::Continue
                    },
                    Ok(cdb) => {
                        let path = cdb.target(&shell.env.home, &shell.env.oldpwd);
                        let path2 = path.clone();
                        let oldpwd = shell.env.pwd.clone();
                        self.frames.push(Frame::AwaitChDir { path, ctx: io });
                        proof {
                            assert(self.frames@.subrange(0, old(self).frames@.len() as int)
                                =~= old(self).frames@);
                            self.lemma_wf_grow1(*old(self));
                        }
                        Action::ChDir { path: path2, oldpwd }
                    },
                }
            },
            Some(Builtin::Which) => {
                let w = match Which::build(&rest) {
                    Ok(w) => w,
                    Err(_) => unreached(),
                };
                let is_b = match lookup_builtin(&w.keyword) {
                    Some(_) => true,
                    None => false,
                };
                if is_b {
                    let nf: Option<String> = None;
                    let msg = w.message(true, &nf);
                    let ok = io.output.write_str(&msg);
                    self.outs = Ghost(self.outs@.push(msg@));
                    if ok {
                        self.status = ExitStatus::Success;
                    } else {
                        self.diag_on(&io.error, "which: cannot write to output\n".to_owned());
                        self.status = ExitStatus::Usage;
                        proof {
                            assert(self.diags@.drop_last() =~= old(self).diags@);
                        }
                    }
                    Action::Continue
                } else {
                    let kw2 = w.keyword.clone();
                    self.frames.push(Frame::AwaitWhich { w, ctx: io });
                    proof {
                        assert(self.frames@.subrange(0, old(self).frames@.len() as int)
                            =~= old(self).frames@);
                        self.lemma_wf_grow1(*old(self));
                    }
                    Action::Resolve { keyword: kw2 }
                }
            },
            None => {
                let kw2 = keyword.clone();
                self.frames.push(Frame::AwaitResolve { keyword, args: rest, ctx: io });
                proof {
                    assert(self.frames@.subrange(0, old(self).frames@.len() as int)
                        =~= old(self).frames@);
                    self.lemma_wf_grow1(*old(self));
                }
                Action::Resolve { keyword: kw2 }
            },
        }
    }

    /// Wire and stack the next pipeline stage (the `Wire` frame is already
    /// popped).
    fn wire_step(
        &mut self,
        shell: &mut Shell,
        rest: Vec<Command>,
        carry: Option<IoHandle>,
        ctx: IoCtx,
    ) -> (act: Action)
        requires
            old(self).wf(),
            forall|i: int| 0 <= i < rest@.len() ==> cmd_wf(#[trigger] rest@[i]),
        ensures
            final(self).wf(),
            *final(shell) == *old(shell),
            act is Continue,
            wire_ok(old(self).frames@, *old(self), rest, carry, ctx, *final(self)),
    {
        let mut work = rest;
        match work.pop() {
            None => Action::Continue,
            Some(cmd) => {
                let err_h = match ctx.error.dup() {
                    Ok(h) => h,
                    Err(e) => {
                        self.fail_os(shell, e, ExitStatus::IoErr);
                        return Action::Continue;
                    },
                };
                let in_h = match carry {
                    Some(h0) => h0,
                    None => match ctx.input.dup() {
                        Ok(h) => h,
                        Err(e) => {
                            self.fail_os(shell, e, ExitStatus::IoErr);
                            return Action::Continue;
                        },
                    },
                };
                if work.len() == 0 {
                    let out_h = match ctx.output.dup() {
                        Ok(h) => h,
                        Err(e) => {
                            self.fail_os(shell, e, ExitStatus::IoErr);
                            return Action::Continue;
                        },
                    };
                    let sctx = IoCtx { input: in_h, output: out_h, error: err_h };
                    self.frames.push(Frame::Wire { rest: work, carry: None, ctx });
                    self.frames.push(Frame::Eval { node: cmd, ctx: Some(sctx) });
                    proof {
                        assert(self.frames@.subrange(0, old(self).frames@.len() as int)
                            =~= old(self).frames@);
                        self.lemma_wf_grow2(*old(self));
                    }
                    Action::Continue
                } else {
                    if self.next_pipe == u64::MAX {
                        self.diag_shell(shell, "crsh: cannot create pipe\n".to_owned());
                        self.status = ExitStatus::IoErr;
                        proof {
                            assert(self.diags@.drop_last() =~= old(self).diags@);
                        }
                        return Action::Continue;
                    }
                    let id = Ghost(self.next_pipe as int);
                    match make_pipe(id) {
                        Err(e) => {
                            self.fail_os(shell, e, ExitStatus::IoErr);
                            Action::Continue
                        },
                        Ok((rd, wr)) => {
                            let sctx = IoCtx { input: in_h, output: wr, error: err_h };
                            self.next_pipe = self.next_pipe + 1;
                            self.frames.push(Frame::Wire { rest: work, carry: Some(rd), ctx });
                            self.frames.push(Frame::Eval { node: cmd, ctx: Some(sctx) });
                            proof {
                                assert(self.frames@.subrange(0, old(self).frames@.len() as int)
                                    =~= old(self).frames@);
                                self.lemma_wf_grow2(*old(self));
                            }
                            Action::Continue
                        },
                    }
                }
            },
        }
    }
}

/// Reverse a command sequence, to stack its stages for in-order execution.
fn reverse_cmds(v: Vec<Command>) -> (r: Vec<Command>)
    ensures
        is_reverse_of(r@, v@),
{
    let ghost orig = v@;
    let mut v = v;
    let mut r: Vec<Command> = Vec::new();
    while v.len() > 0
        invariant
            v@ == orig.subrange(0, v@.len() as int),
            r@.len() + v@.len() == orig.len(),
            forall|i: int| 0 <= i < r@.len() ==> #[trigger] r@[i] == orig[orig.len() - 1 - i],
        decreases v@.len(),
    {
        match v.pop() {
            Some(c) => r.push(c),
            None => (),
        }
    }
    r
}

} // verus!
