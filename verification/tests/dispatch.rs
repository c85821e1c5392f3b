use katarl::conf::Exec;
use katarl::dispatch::{get_command, report, write_output, CommandLine, Outcome, Report};
use katarl::press::Action;
use katarl::shutdown::{
    next_step, on_signal, phase_of, LoopStep, Phase, SignalEffect, FORCED_EXIT_STATUS,
    POLL_INTERVAL_MS,
};

#[test]
fn command_line_is_split_at_white_space() {
    let action = Action::Exec(Exec::String(String::from("say hello")));
    assert_eq!(
        get_command(&action),
        Some(CommandLine { program: String::from("say"), args: vec![String::from("hello")] })
    );
}

#[test]
fn list_is_taken_as_it_stands() {
    let action = Action::Exec(Exec::List(vec![String::from("say"), String::from("hello world")]));
    assert_eq!(
        get_command(&action),
        Some(CommandLine { program: String::from("say"), args: vec![String::from("hello world")] })
    );
}

#[test]
fn program_alone_has_no_arguments() {
    let action = Action::Exec(Exec::String(String::from("  true ")));
    assert_eq!(
        get_command(&action),
        Some(CommandLine { program: String::from("true"), args: Vec::new() })
    );
}

#[test]
fn nothing_to_run_gives_no_command() {
    assert_eq!(get_command(&Action::Exec(Exec::String(String::new()))), None);
    assert_eq!(get_command(&Action::Exec(Exec::String(String::from(" \t\n")))), None);
    assert_eq!(get_command(&Action::Exec(Exec::List(Vec::new()))), None);
}

#[test]
fn list_element_of_white_space_is_kept() {
    let action = Action::Exec(Exec::List(vec![String::from(" "), String::new()]));
    assert_eq!(
        get_command(&action),
        Some(CommandLine { program: String::from(" "), args: vec![String::new()] })
    );
}

#[test]
fn output_loses_one_final_line_feed() {
    assert_eq!(write_output(b"hi\n"), "hi");
    assert_eq!(write_output(b"hi"), "hi");
    assert_eq!(write_output(b"hi\n\n"), "hi\n");
    assert_eq!(write_output(b"a\nb\n"), "a\nb");
    assert_eq!(write_output(b"hi\r\n"), "hi\r");
    assert_eq!(write_output(b"\n"), "");
    assert_eq!(write_output(b""), "");
    assert_eq!(write_output("gr\u{fc}n\n".as_bytes()), "gr\u{fc}n");
}

#[test]
fn output_that_is_no_text_is_marked() {
    assert_eq!(write_output(&[0xff, 0xfe]), "err: unreadable output");
    assert_eq!(write_output(&[b'h', 0xc3]), "err: unreadable output");
    assert_eq!(write_output(&[0xed, 0xa0, 0x80]), "err: unreadable output");
}

#[test]
fn success_with_output_is_reported() {
    let outcome = Outcome::Exited { success: true, stdout: b"hi\n".to_vec(), stderr: Vec::new() };
    assert_eq!(report(&outcome), Report::Output(String::from("hi")));
    let outcome =
        Outcome::Exited { success: true, stdout: b"hi\n".to_vec(), stderr: b"warn\n".to_vec() };
    assert_eq!(report(&outcome), Report::Output(String::from("hi")));
    let outcome = Outcome::Exited { success: true, stdout: Vec::new(), stderr: b"warn".to_vec() };
    assert_eq!(report(&outcome), Report::Output(String::new()));
}

#[test]
fn success_without_output_is_silent() {
    let outcome = Outcome::Exited { success: true, stdout: Vec::new(), stderr: Vec::new() };
    assert_eq!(report(&outcome), Report::Silent);
}

#[test]
fn failure_reports_the_error_stream() {
    let outcome =
        Outcome::Exited { success: false, stdout: b"out\n".to_vec(), stderr: b"bad\n".to_vec() };
    assert_eq!(report(&outcome), Report::Failed(String::from("bad")));
    let outcome = Outcome::Exited { success: false, stdout: Vec::new(), stderr: vec![0xff] };
    assert_eq!(report(&outcome), Report::Failed(String::from("err: unreadable output")));
    let outcome = Outcome::Exited { success: false, stdout: Vec::new(), stderr: Vec::new() };
    assert_eq!(report(&outcome), Report::Failed(String::new()));
}

#[test]
fn command_that_did_not_start_is_reported() {
    let outcome = Outcome::NotStarted(String::from("No such file or directory"));
    assert_eq!(report(&outcome), Report::NotStarted(String::from("No such file or directory")));
}

#[test]
fn first_signal_drains_and_second_forces_exit() {
    let (phase, effect) = on_signal(Phase::Running);
    assert_eq!(phase, Phase::Draining);
    assert_eq!(effect, SignalEffect::Drain);
    let (phase, effect) = on_signal(phase);
    assert_eq!(phase, Phase::Terminated);
    assert_eq!(effect, SignalEffect::Exit(1));
    let (phase, effect) = on_signal(phase);
    assert_eq!(phase, Phase::Terminated);
    assert_eq!(effect, SignalEffect::Exit(FORCED_EXIT_STATUS));
}

#[test]
fn dispatcher_polls_only_while_running() {
    assert_eq!(next_step(Phase::Running), LoopStep::Poll(POLL_INTERVAL_MS));
    assert_eq!(next_step(Phase::Running), LoopStep::Poll(50));
    assert_eq!(next_step(Phase::Draining), LoopStep::Stop);
    assert_eq!(next_step(Phase::Terminated), LoopStep::Stop);
    assert_eq!(next_step(on_signal(Phase::Running).0), LoopStep::Stop);
}

#[test]
fn phase_follows_the_flag() {
    assert_eq!(phase_of(false), Phase::Running);
    assert_eq!(phase_of(true), Phase::Draining);
}
