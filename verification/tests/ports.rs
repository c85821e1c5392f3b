use katarl::binding::ConfigError;
use katarl::conf::{Exec, Input};
use katarl::ports::{find_port, resolve_input};

fn names() -> Vec<String> {
    vec![
        String::from("Midi Through Port-0"),
        String::from("USB Keyboard"),
        String::from("Other Keyboard"),
    ]
}

fn input(port: &str, note: &str) -> Input {
    Input {
        port: String::from(port),
        note: String::from(note),
        command: Exec::String(String::from("echo hi")),
        hold_time: None,
    }
}

#[test]
fn first_matching_port_wins() {
    assert_eq!(find_port("Keyboard", &names()), Some(1));
    assert_eq!(find_port("Other", &names()), Some(2));
    assert_eq!(find_port("Midi", &names()), Some(0));
    assert_eq!(find_port("", &names()), Some(0));
}

#[test]
fn no_matching_port_is_none() {
    assert_eq!(find_port("keyboard", &names()), None);
    assert_eq!(find_port("Piano", &names()), None);
    assert_eq!(find_port("Keyboard", &Vec::new()), None);
    assert_eq!(find_port("", &Vec::new()), None);
}

#[test]
fn resolve_input_picks_the_port() {
    let resolved = resolve_input(&input("Keyboard", "60"), &names()).unwrap().unwrap();
    assert_eq!(resolved.port, 1);
    assert_eq!(resolved.binding.note, 60);
    assert_eq!(resolved.binding.hold_nanos, 0);
    assert_eq!(resolved.binding.port_pattern, "Keyboard");
}

#[test]
fn resolve_input_skips_an_input_without_a_port() {
    assert_eq!(resolve_input(&input("Piano", "60"), &names()), Ok(None));
}

#[test]
fn resolve_input_refuses_an_invalid_input() {
    assert_eq!(resolve_input(&input("Keyboard", "128"), &names()), Err(ConfigError::NoteOutOfRange));
    assert_eq!(resolve_input(&input("Piano", "abc"), &names()), Err(ConfigError::InvalidNote));
}
