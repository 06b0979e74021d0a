use rmpc_core::external::{create_env, outcome, prepare, CurrentSong, Exit, ExternalError};

fn strings(list: &[&str]) -> Vec<String> {
    list.iter().map(|s| s.to_string()).collect()
}

/// Replaces `{}` by the first argument that is left.
fn replace(part: &String, values: &[String]) -> Result<(usize, String), String> {
    if part == "bad" {
        return Err("bad part".to_string());
    }
    if part.contains("{}") {
        let value = values.first().cloned().unwrap_or_default();
        Ok((1, part.replace("{}", &value)))
    } else {
        Ok((0, part.clone()))
    }
}

#[test]
fn placeholders_use_up_the_arguments_in_order() {
    let command = strings(&["run-{}", "x", "{}", "y={}"]);
    let ready = prepare(&command, &strings(&["1", "2", "3"]), &replace).unwrap();
    assert_eq!(ready.program, "run-1");
    assert_eq!(ready.args, ["x", "2", "y=3"]);
}

#[test]
fn command_lines_that_do_not_fit_are_refused() {
    let empty = prepare(&Vec::new(), &strings(&["1"]), &replace);
    match empty {
        Err(e) => {
            assert!(matches!(e, ExternalError::InvalidCommand));
            assert_eq!(e.message().as_deref(), Some("Invalid command: []"));
        }
        Ok(_) => panic!("no command"),
    }
    match prepare(&strings(&["run", "{}", "x"]), &Vec::new(), &replace) {
        Err(e) => {
            assert!(matches!(e, ExternalError::NotEnoughArguments));
            assert_eq!(
                e.message().as_deref(),
                Some("Not enough arguments provided for command")
            );
        }
        Ok(_) => panic!("not enough"),
    }
    match prepare(&strings(&["run", "{}"]), &strings(&["1", "2"]), &replace) {
        Err(e) => {
            assert!(matches!(e, ExternalError::TooManyArguments));
            assert_eq!(e.message().as_deref(), Some("Too many arguments provided for command"));
        }
        Ok(_) => panic!("too many"),
    }
    match prepare(&strings(&["run", "bad"]), &Vec::new(), &replace) {
        Err(ExternalError::Placeholder(e)) => assert_eq!(e, "bad part"),
        _ => panic!("bad part"),
    }
    let first = prepare(&strings(&["bad"]), &Vec::new(), &replace);
    match first {
        Err(e) => assert_eq!(e.message(), None),
        Ok(_) => panic!("bad part"),
    }
}

#[test]
fn a_lack_in_the_last_part_is_let_through() {
    let ready = prepare(&strings(&["run", "{}"]), &Vec::new(), &replace).unwrap();
    assert_eq!(ready.args, [""]);
}

#[test]
fn failures_are_described() {
    let ended = |success, code| Exit::Ended {
        success,
        code,
        stdout: " out\n".to_string(),
        stderr: "\terr ".to_string(),
    };
    assert_eq!(outcome(&ended(true, Some(0))), Ok(()));
    assert_eq!(
        outcome(&ended(false, Some(-3))),
        Err("External command failed: exit code: '-3', stdout: 'out', stderr: 'err'".to_string())
    );
    assert_eq!(
        outcome(&ended(false, None)),
        Err("External command failed: exit code: '-', stdout: 'out', stderr: 'err'".to_string())
    );
    assert_eq!(
        outcome(&Exit::NotStarted { error: "NotFound".to_string() }),
        Err("Unexpected error when executing external command: NotFound".to_string())
    );
}

fn pairs(env: Vec<(String, String)>) -> String {
    let lines: Vec<String> = env.iter().map(|(k, v)| format!("{k}={v}")).collect();
    lines.join(";")
}

#[test]
fn the_environment_describes_the_current_song() {
    let song = CurrentSong {
        file: "a.mp3".to_string(),
        metadata: vec![
            ("artist".to_string(), "B".to_string()),
            ("Title".to_string(), "T".to_string()),
        ],
        duration: Some("3:04".to_string()),
        has_lrc: true,
        lrc_path: None,
    };
    let env = create_env(Some(&song), 77, &strings(&["x", "y"]), "0.9.0", "Play");
    assert_eq!(
        pairs(env),
        "CURRENT_SONG=a.mp3;ARTIST=B;TITLE=T;DURATION=3:04;HAS_LRC=true;LRC_FILE=;FILE=a.mp3;\
         PID=77;SELECTED_SONGS=x\ny;VERSION=0.9.0;STATE=Play"
    );
}

#[test]
fn an_empty_selection_is_left_out() {
    for selected in [Vec::new(), strings(&[""])] {
        let env = create_env(None, 1, &selected, "v", "Stop");
        assert_eq!(pairs(env), "PID=1;VERSION=v;STATE=Stop");
    }
    let env = create_env(None, 1, &strings(&["", ""]), "v", "Stop");
    assert_eq!(pairs(env), "PID=1;SELECTED_SONGS=\n;VERSION=v;STATE=Stop");
}
