use katarl::conf::{Config, Exec, Input};
use katarl::dispatch::{get_command, report, CommandLine, Outcome, Report};
use katarl::ports::resolve_input;
use katarl::press::{classify, Action, PressState};

fn config(hold_time: Option<&str>) -> Config {
    Config {
        inputs: vec![Input {
            port: String::from("Keyboard"),
            note: String::from("60"),
            command: Exec::String(String::from("echo hi")),
            hold_time: hold_time.map(String::from),
        }],
    }
}

fn fired(hold_time: Option<&str>, events: &[(u64, [u8; 3])]) -> Vec<Action> {
    let names = vec![String::from("USB Keyboard")];
    let resolved = resolve_input(&config(hold_time).inputs[0], &names).unwrap().unwrap();
    assert_eq!(resolved.port, 0);
    let mut state = PressState::new();
    let mut queue: Vec<Action> = Vec::new();
    for (timestamp, message) in events {
        if let Some(action) = classify(&resolved.binding, &mut state, *timestamp, message) {
            queue.push(action);
        }
    }
    queue
}

#[test]
fn short_press_runs_echo_once() {
    let queue = fired(None, &[(0, [144, 60, 100])]);
    assert_eq!(queue.len(), 1);
    assert_eq!(
        get_command(&queue[0]),
        Some(CommandLine { program: String::from("echo"), args: vec![String::from("hi")] })
    );
    let outcome = Outcome::Exited { success: true, stdout: b"hi\n".to_vec(), stderr: Vec::new() };
    assert_eq!(report(&outcome), Report::Output(String::from("hi")));
}

#[test]
fn hold_of_150ms_against_200ms_runs_nothing() {
    let queue = fired(Some("200ms"), &[(0, [144, 60, 100]), (150_000, [128, 60, 0])]);
    assert_eq!(queue.len(), 0);
}

#[test]
fn hold_of_250ms_against_200ms_runs_once() {
    let queue = fired(Some("200ms"), &[(0, [144, 60, 100]), (250_000, [128, 60, 0])]);
    assert_eq!(queue, vec![Action::Exec(Exec::String(String::from("echo hi")))]);
}
