use std::io::Read;

use crsh_exec::ast::Command;
use crsh_exec::exec::{Action, Event, Executor, Shell};
use crsh_exec::ioctx::{IoCtx, IoHandle};
use crsh_exec::status::ExitStatus;

fn strs(v: &[&str]) -> Vec<String> {
    v.iter().map(|s| s.to_string()).collect()
}

fn simple(v: &[&str]) -> Command {
    Command::Simple { args: strs(v) }
}

fn fresh_shell() -> Shell {
    Shell::new("/home/u".to_string(), "/start".to_string())
}

/// Run the machine to completion, answering each action with the closure.
fn drive(
    ex: &mut Executor,
    shell: &mut Shell,
    mut on_act: impl FnMut(Action) -> Event,
) -> ExitStatus {
    let mut ev = Event::Tick;
    while !ex.done() {
        let act = ex.step(shell, ev);
        ev = on_act(act);
    }
    ex.result()
}

/// Answer every lookup with "not found", run nothing, record lookups.
fn drive_unresolved(cmd: Command, shell: &mut Shell) -> (ExitStatus, Vec<String>, usize) {
    let mut ex = Executor::new(cmd);
    let mut resolves: Vec<String> = vec![];
    let mut runs: usize = 0;
    let st = drive(&mut ex, shell, |act| match act {
        Action::Continue => Event::Tick,
        Action::Resolve { keyword } => {
            resolves.push(keyword);
            Event::Resolved { found: None }
        },
        Action::Run { .. } => {
            runs += 1;
            Event::RunExited { code: Some(0) }
        },
        Action::ChDir { path, .. } => Event::ChDirDone { pwd: path },
    });
    (st, resolves, runs)
}

/// Answer every lookup with a hit and give each run the next exit code.
fn drive_with_codes(cmd: Command, shell: &mut Shell, codes: &[i32]) -> (ExitStatus, Vec<String>) {
    let mut ex = Executor::new(cmd);
    let mut ran: Vec<String> = vec![];
    let mut next: usize = 0;
    let st = drive(&mut ex, shell, |act| match act {
        Action::Continue => Event::Tick,
        Action::Resolve { keyword } => Event::Resolved { found: Some(format!("/bin/{keyword}")) },
        Action::Run { keyword, .. } => {
            ran.push(keyword);
            let code = codes[next];
            next += 1;
            Event::RunExited { code: Some(code) }
        },
        Action::ChDir { path, .. } => Event::ChDirDone { pwd: path },
    });
    (st, ran)
}

#[test]
fn empty_yields_success_and_no_action() {
    let mut shell = fresh_shell();
    let (st, resolves, runs) = drive_unresolved(Command::Empty, &mut shell);
    assert_eq!(st, ExitStatus::Success);
    assert!(resolves.is_empty());
    assert_eq!(runs, 0);
    assert_eq!(shell.env.pwd, "/start");
    assert_eq!(shell.env.oldpwd, "/start");
}

#[test]
fn empty_is_neutral_wherever_it_appears() {
    let mut shell = fresh_shell();
    let cmd = Command::List {
        cmds: vec![
            Command::Empty,
            Command::And {
                left: Box::new(Command::Empty),
                right: Box::new(Command::Empty),
            },
            Command::Empty,
        ],
    };
    let (st, resolves, runs) = drive_unresolved(cmd, &mut shell);
    assert_eq!(st, ExitStatus::Success);
    assert!(resolves.is_empty());
    assert_eq!(runs, 0);
}

#[test]
fn unknown_keyword_is_unavailable_and_spawns_nothing() {
    let mut shell = fresh_shell();
    let (st, resolves, runs) = drive_unresolved(simple(&["nope", "-x"]), &mut shell);
    assert_eq!(st, ExitStatus::Unavailable);
    assert_eq!(resolves, vec!["nope".to_string()]);
    assert_eq!(runs, 0);
}

#[test]
fn unknown_keyword_writes_one_diagnostic_line() {
    let (reader, writer) = os_pipe::pipe().unwrap();
    let io = IoCtx {
        input: IoHandle::Stdin,
        output: IoHandle::Stdout,
        error: IoHandle::foreign_write(writer),
    };
    let mut shell = Shell::with_io("/home/u".to_string(), "/start".to_string(), io);
    let (st, _, runs) = drive_unresolved(simple(&["nope"]), &mut shell);
    assert_eq!(st, ExitStatus::Unavailable);
    assert_eq!(runs, 0);
    drop(shell);
    let mut out = String::new();
    let mut reader = reader;
    reader.read_to_string(&mut out).unwrap();
    assert_eq!(out, "crsh: command not found: nope\n");
}

#[test]
fn and_short_circuits_on_failure() {
    let mut shell = fresh_shell();
    let cmd = Command::And {
        left: Box::new(simple(&["bad"])),
        right: Box::new(simple(&["never"])),
    };
    let (st, resolves, runs) = drive_unresolved(cmd, &mut shell);
    assert_eq!(st, ExitStatus::Unavailable);
    assert_eq!(resolves, vec!["bad".to_string()]);
    assert_eq!(runs, 0);
}

#[test]
fn and_runs_right_exactly_once_on_success() {
    let mut shell = fresh_shell();
    let cmd = Command::And {
        left: Box::new(simple(&["a"])),
        right: Box::new(simple(&["b"])),
    };
    let (st, ran) = drive_with_codes(cmd, &mut shell, &[0, 69]);
    assert_eq!(ran, vec!["a".to_string(), "b".to_string()]);
    assert_eq!(st, ExitStatus::Unavailable);
}

#[test]
fn or_skips_right_on_success() {
    let mut shell = fresh_shell();
    let cmd = Command::Or {
        left: Box::new(simple(&["a"])),
        right: Box::new(simple(&["never"])),
    };
    let (st, ran) = drive_with_codes(cmd, &mut shell, &[0]);
    assert_eq!(ran, vec!["a".to_string()]);
    assert_eq!(st, ExitStatus::Success);
}

#[test]
fn or_runs_right_iff_left_failed() {
    let mut shell = fresh_shell();
    let cmd = Command::Or {
        left: Box::new(simple(&["bad"])),
        right: Box::new(simple(&["b"])),
    };
    let (st, ran) = drive_with_codes(cmd, &mut shell, &[64, 0]);
    assert_eq!(ran, vec!["bad".to_string(), "b".to_string()]);
    assert_eq!(st, ExitStatus::Success);
}

#[test]
fn list_runs_every_stage_in_order_and_keeps_last_status() {
    let mut shell = fresh_shell();
    let cmd = Command::List { cmds: vec![simple(&["a"]), simple(&["b"]), simple(&["c"])] };
    let (st, ran) = drive_with_codes(cmd, &mut shell, &[64, 0, 69]);
    assert_eq!(ran, vec!["a".to_string(), "b".to_string(), "c".to_string()]);
    assert_eq!(st, ExitStatus::Unavailable);
}

#[test]
fn list_keeps_going_after_failures() {
    let mut shell = fresh_shell();
    let cmd = Command::List { cmds: vec![simple(&["a"]), simple(&["b"])] };
    let (st, ran) = drive_with_codes(cmd, &mut shell, &[71, 0]);
    assert_eq!(ran.len(), 2);
    assert_eq!(st, ExitStatus::Success);
}

#[test]
fn empty_list_yields_success() {
    let mut shell = fresh_shell();
    let (st, resolves, _) = drive_unresolved(Command::List { cmds: vec![] }, &mut shell);
    assert_eq!(st, ExitStatus::Success);
    assert!(resolves.is_empty());
}

#[test]
fn empty_pipeline_yields_success() {
    let mut shell = fresh_shell();
    let (st, resolves, _) = drive_unresolved(Command::Pipeline { cmds: vec![] }, &mut shell);
    assert_eq!(st, ExitStatus::Success);
    assert!(resolves.is_empty());
}

#[test]
fn run_exit_codes_are_normalized() {
    let mut shell = fresh_shell();
    let (st, _) = drive_with_codes(simple(&["a"]), &mut shell, &[64]);
    assert_eq!(st, ExitStatus::Usage);
    let (st, _) = drive_with_codes(simple(&["a"]), &mut shell, &[7]);
    assert_eq!(st, ExitStatus::Success);
}

#[test]
fn spawn_failure_yields_os_error() {
    let mut shell = fresh_shell();
    let mut ex = Executor::new(simple(&["a"]));
    let st = drive(&mut ex, &mut shell, |act| match act {
        Action::Continue => Event::Tick,
        Action::Resolve { .. } => Event::Resolved { found: Some("/bin/a".to_string()) },
        Action::Run { .. } => Event::RunFailed { error: "no such file".to_string() },
        Action::ChDir { path, .. } => Event::ChDirDone { pwd: path },
    });
    assert_eq!(st, ExitStatus::OsErr);
}

#[test]
fn cd_requests_target_and_updates_bookkeeping() {
    let mut shell = fresh_shell();
    let mut ex = Executor::new(simple(&["cd", "/tmp"]));
    let mut seen: Vec<(String, String)> = vec![];
    let st = drive(&mut ex, &mut shell, |act| match act {
        Action::Continue => Event::Tick,
        Action::ChDir { path, oldpwd } => {
            seen.push((path.clone(), oldpwd));
            Event::ChDirDone { pwd: path }
        },
        _ => panic!("unexpected action"),
    });
    assert_eq!(st, ExitStatus::Success);
    assert_eq!(seen, vec![("/tmp".to_string(), "/start".to_string())]);
    assert_eq!(shell.env.pwd, "/tmp");
    assert_eq!(shell.env.oldpwd, "/start");
}

#[test]
fn cd_round_trip_restores_directory() {
    let mut shell = fresh_shell();
    let answer = |act: Action| match act {
        Action::Continue => Event::Tick,
        Action::ChDir { path, .. } => Event::ChDirDone { pwd: path },
        _ => panic!("unexpected action"),
    };
    let mut ex = Executor::new(simple(&["cd", "/b"]));
    let st = drive(&mut ex, &mut shell, answer);
    assert_eq!(st, ExitStatus::Success);
    assert_eq!(shell.env.pwd, "/b");
    assert_eq!(shell.env.oldpwd, "/start");

    let mut requested: Vec<String> = vec![];
    let mut ex = Executor::new(simple(&["cd", "-"]));
    let st = drive(&mut ex, &mut shell, |act| match act {
        Action::Continue => Event::Tick,
        Action::ChDir { path, .. } => {
            requested.push(path.clone());
            Event::ChDirDone { pwd: path }
        },
        _ => panic!("unexpected action"),
    });
    assert_eq!(st, ExitStatus::Success);
    assert_eq!(requested, vec!["/start".to_string()]);
    assert_eq!(shell.env.pwd, "/start");
    assert_eq!(shell.env.oldpwd, "/b");
}

#[test]
fn cd_tilde_expands_to_home() {
    let mut shell = fresh_shell();
    let mut ex = Executor::new(simple(&["cd", "~/docs"]));
    let mut requested: Vec<String> = vec![];
    let st = drive(&mut ex, &mut shell, |act| match act {
        Action::Continue => Event::Tick,
        Action::ChDir { path, .. } => {
            requested.push(path.clone());
            Event::ChDirDone { pwd: path }
        },
        _ => panic!("unexpected action"),
    });
    assert_eq!(st, ExitStatus::Success);
    assert_eq!(requested, vec!["/home/u/docs".to_string()]);
}

#[test]
fn cd_failure_keeps_bookkeeping_and_reports_usage() {
    let (reader, writer) = os_pipe::pipe().unwrap();
    let io = IoCtx {
        input: IoHandle::Stdin,
        output: IoHandle::Stdout,
        error: IoHandle::foreign_write(writer),
    };
    let mut shell = Shell::with_io("/home/u".to_string(), "/start".to_string(), io);
    let mut ex = Executor::new(simple(&["cd", "/nope"]));
    let st = drive(&mut ex, &mut shell, |act| match act {
        Action::Continue => Event::Tick,
        Action::ChDir { .. } => Event::ChDirFailed { error: "No such file or directory".to_string() },
        _ => panic!("unexpected action"),
    });
    assert_eq!(st, ExitStatus::Usage);
    assert_eq!(shell.env.pwd, "/start");
    assert_eq!(shell.env.oldpwd, "/start");
    drop(shell);
    drop(ex);
    let mut out = String::new();
    let mut reader = reader;
    reader.read_to_string(&mut out).unwrap();
    assert_eq!(out, "cd: cannot access '/nope': No such file or directory\n");
}

#[test]
fn cd_rejects_too_many_arguments_with_usage() {
    let (reader, writer) = os_pipe::pipe().unwrap();
    let io = IoCtx {
        input: IoHandle::Stdin,
        output: IoHandle::Stdout,
        error: IoHandle::foreign_write(writer),
    };
    let mut shell = Shell::with_io("/home/u".to_string(), "/start".to_string(), io);
    let (st, resolves, runs) = drive_unresolved(simple(&["cd", "a", "b", "c"]), &mut shell);
    assert_eq!(st, ExitStatus::Usage);
    assert!(resolves.is_empty());
    assert_eq!(runs, 0);
    drop(shell);
    let mut out = String::new();
    let mut reader = reader;
    reader.read_to_string(&mut out).unwrap();
    assert_eq!(out, "cd: too many arguments\n");
}

#[test]
fn which_reports_a_builtin_without_lookup() {
    let (reader, writer) = os_pipe::pipe().unwrap();
    let io = IoCtx {
        input: IoHandle::Stdin,
        output: IoHandle::foreign_write(writer),
        error: IoHandle::Stderr,
    };
    let mut shell = Shell::with_io("/home/u".to_string(), "/start".to_string(), io);
    let (st, resolves, _) = drive_unresolved(simple(&["which", "cd"]), &mut shell);
    assert_eq!(st, ExitStatus::Success);
    assert!(resolves.is_empty());
    drop(shell);
    let mut out = String::new();
    let mut reader = reader;
    reader.read_to_string(&mut out).unwrap();
    assert_eq!(out, "cd: shell builtin\n");
}

#[test]
fn which_reports_a_path_hit() {
    let (reader, writer) = os_pipe::pipe().unwrap();
    let io = IoCtx {
        input: IoHandle::Stdin,
        output: IoHandle::foreign_write(writer),
        error: IoHandle::Stderr,
    };
    let mut shell = Shell::with_io("/home/u".to_string(), "/start".to_string(), io);
    let mut ex = Executor::new(simple(&["which", "ls"]));
    let st = drive(&mut ex, &mut shell, |act| match act {
        Action::Continue => Event::Tick,
        Action::Resolve { keyword } => {
            assert_eq!(keyword, "ls");
            Event::Resolved { found: Some("/bin/ls".to_string()) }
        },
        _ => panic!("unexpected action"),
    });
    assert_eq!(st, ExitStatus::Success);
    drop(shell);
    drop(ex);
    let mut out = String::new();
    let mut reader = reader;
    reader.read_to_string(&mut out).unwrap();
    assert_eq!(out, "/bin/ls\n");
}

#[test]
fn which_reports_not_found() {
    let (reader, writer) = os_pipe::pipe().unwrap();
    let io = IoCtx {
        input: IoHandle::Stdin,
        output: IoHandle::foreign_write(writer),
        error: IoHandle::Stderr,
    };
    let mut shell = Shell::with_io("/home/u".to_string(), "/start".to_string(), io);
    let (st, resolves, _) = drive_unresolved(simple(&["which", "zzz"]), &mut shell);
    assert_eq!(st, ExitStatus::Success);
    assert_eq!(resolves, vec!["zzz".to_string()]);
    drop(shell);
    let mut out = String::new();
    let mut reader = reader;
    reader.read_to_string(&mut out).unwrap();
    assert_eq!(out, "zzz not found\n");
}

#[test]
fn which_write_failure_is_a_usage_error() {
    let (err_reader, err_writer) = os_pipe::pipe().unwrap();
    let (closed_reader, out_writer) = os_pipe::pipe().unwrap();
    drop(closed_reader);
    let io = IoCtx {
        input: IoHandle::Stdin,
        output: IoHandle::foreign_write(out_writer),
        error: IoHandle::foreign_write(err_writer),
    };
    let mut shell = Shell::with_io("/home/u".to_string(), "/start".to_string(), io);
    let (st, resolves, _) = drive_unresolved(simple(&["which", "cd"]), &mut shell);
    assert_eq!(st, ExitStatus::Usage);
    assert!(resolves.is_empty());
    drop(shell);
    let mut out = String::new();
    let mut err_reader = err_reader;
    err_reader.read_to_string(&mut out).unwrap();
    assert_eq!(out, "which: cannot write to output\n");
}
