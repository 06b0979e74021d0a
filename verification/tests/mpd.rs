use rmpc_core::mpd::client::{
    create_and_switch_to_partition, get_songs_info, greeted_version, is_unsupported,
    min_supported_version, read_greeting, songs_of_files, swap_positions, unsupported_warning,
    Answer, Client, HandshakeError, ListCommand, PartitionStep, SessionStep, ToggleStep,
};
use rmpc_core::mpd::types::{MpdConfig, Output, PartitionedOutputKind, Version};

fn strings(list: &[&str]) -> Vec<String> {
    list.iter().map(|s| s.to_string()).collect()
}

fn client(password: Option<&str>, partition: Option<&str>, autocreate: bool) -> Client {
    Client::init(
        "command".to_string(),
        password.map(|s| s.to_string()),
        partition.map(|s| s.to_string()),
        autocreate,
        Version::new(0, 24, 0),
    )
}

/// All steps of a session whose requests all succeed.
fn session(client: &Client, new: bool) -> Vec<String> {
    let mut step = client.begin_session(new);
    let mut steps = Vec::new();
    while step != SessionStep::Ready {
        steps.push(format!("{step:?}"));
        step = client.next_step(step, Answer::Done, new);
    }
    steps
}

#[test]
fn greetings_are_checked() {
    assert_eq!(read_greeting("OK MPD 0.23.5\n").unwrap(), "0.23.5\n");
    let refused = read_greeting("ACK no\n").unwrap_err();
    assert!(matches!(refused, HandshakeError::NotOk { .. }));
    assert_eq!(refused.message(), "Handshake validation failed. 'ACK no\n'");
    let nameless = read_greeting("OKAY\n").unwrap_err();
    assert!(matches!(nameless, HandshakeError::NoVersion { .. }));
    assert_eq!(
        nameless.message(),
        "Handshake validation failed. Cannot parse version from 'OKAY\n'"
    );
    assert_eq!(
        greeted_version("OK MPD 1.2.3\n", Some(Version::new(1, 2, 3))).unwrap(),
        Version::new(1, 2, 3)
    );
    assert_eq!(
        greeted_version("OK MPD x\n", None).unwrap_err().message(),
        "Handshake validation failed. Cannot parse version from 'OK MPD x\n'"
    );
}

#[test]
fn old_versions_are_warned_of() {
    assert!(is_unsupported(&Version::new(0, 23, 4)));
    assert!(!is_unsupported(&Version::new(0, 23, 5)));
    assert!(!is_unsupported(&Version::new(1, 0, 0)));
    assert_eq!(min_supported_version(), Version::new(0, 23, 5));
    assert_eq!(
        unsupported_warning("0.22.0", "0.23.5"),
        "MPD version '0.22.0' is lower than supported. Minimum supported protocol version is \
         '0.23.5'. Some features may work incorrectly."
    );
}

#[test]
fn sessions_of_new_and_old_connections() {
    assert_eq!(
        session(&client(None, None, false), true),
        ["SetBinaryLimit { bytes: 262144 }", "ListCommands"]
    );
    assert_eq!(
        session(&client(None, None, false), false),
        ["ListCommands", "SetBinaryLimit { bytes: 5242880 }"]
    );
    assert_eq!(
        session(&client(Some("pw"), Some("kitchen"), false), true),
        [
            "SendPassword { password: \"pw\" }",
            "Partition(Switch { name: \"kitchen\" })",
            "SetBinaryLimit { bytes: 262144 }",
            "ListCommands",
        ]
    );
}

fn kitchen() -> String {
    "kitchen".to_string()
}

#[test]
fn missing_partitions_are_created_where_allowed() {
    let creating = client(None, Some("kitchen"), true);
    let mut step = creating.begin_session(false);
    step = creating.next_step(step, Answer::NoExist, false);
    assert_eq!(step, SessionStep::Partition(PartitionStep::Create { name: kitchen() }));
    step = creating.next_step(step, Answer::Done, false);
    assert_eq!(step, SessionStep::Partition(PartitionStep::SwitchCreated { name: kitchen() }));
    step = creating.next_step(step, Answer::Done, false);
    assert_eq!(step, SessionStep::ListCommands);
    assert_eq!(creating.next_step(step, Answer::Failed, false), SessionStep::Refused);

    let strict = client(None, Some("kitchen"), false);
    let step = strict.begin_session(true);
    assert_eq!(strict.next_step(step, Answer::NoExist, true), SessionStep::Refused);

    let switch = PartitionStep::begin("kitchen");
    assert_eq!(switch, PartitionStep::Switch { name: kitchen() });
    assert_eq!(switch.next(Answer::Failed, true), PartitionStep::Refused);
    let create = PartitionStep::Create { name: kitchen() };
    assert_eq!(create.next(Answer::NoExist, true), PartitionStep::Refused);
    let switch = PartitionStep::begin("kitchen");
    assert_eq!(switch.next(Answer::Done, false), PartitionStep::Switched);
}

#[test]
fn reconnecting_forgets_the_configuration() {
    let mut c = client(Some("pw"), None, false);
    c.config = Some(MpdConfig { music_directory: "/m".to_string() });
    c.set_supported_commands(strings(&["play", "add", "play", "add", "idle"]));
    assert_eq!(c.supported_commands, ["play", "add", "idle"]);
    c.reconnect(Version::new(0, 21, 0));
    assert!(c.config.is_none());
    assert_eq!(c.version, Version::new(0, 21, 0));
    assert_eq!(c.password.as_deref(), Some("pw"));
    assert_eq!(c.supported_commands, ["play", "add", "idle"]);
}

#[test]
fn requests_of_several_commands() {
    let create = create_and_switch_to_partition("p");
    assert!(matches!(
        create.as_slice(),
        [
            ListCommand::Start,
            ListCommand::NewPartition { name },
            ListCommand::SwitchToPartition { name: same },
            ListCommand::Execute,
            ListCommand::ReadOk,
        ] if name == "p" && same == "p"
    ));
    let swaps = swap_positions(&vec![(1, 2), (3, 4)]);
    assert!(matches!(
        swaps.as_slice(),
        [
            ListCommand::Start,
            ListCommand::SwapPositions { from: 1, to: 2 },
            ListCommand::SwapPositions { from: 3, to: 4 },
            ListCommand::Execute,
            ListCommand::ReadOk,
        ]
    ));
    let infos = get_songs_info(strings(&["a"]));
    assert!(matches!(
        infos.as_slice(),
        [ListCommand::Start, ListCommand::LsInfo { uri }, ListCommand::Execute, ListCommand::ReadSongs]
            if uri == "a"
    ));
}

#[test]
fn outputs_of_other_partitions_are_fetched_and_enabled() {
    let name = "hifi".to_string();
    let outputs = vec![
        Output { id: 1, name: "radio".to_string() },
        Output { id: 4, name: "hifi".to_string() },
        Output { id: 5, name: "hifi".to_string() },
    ];
    let step = ToggleStep::begin(PartitionedOutputKind::OtherPartition, "hifi", 9);
    assert_eq!(step, ToggleStep::MoveOutput { name: name.clone() });
    assert_eq!(step.done(), ToggleStep::ListOutputs { name: name.clone() });
    let list = || ToggleStep::ListOutputs { name: "hifi".to_string() };
    assert_eq!(list().listed(&outputs), ToggleStep::EnableOutput { id: 4 });
    assert_eq!(list().listed(&Vec::new()), ToggleStep::Finished);
    let step = ToggleStep::begin(PartitionedOutputKind::CurrentPartition, "hifi", 9);
    assert_eq!(step, ToggleStep::ToggleOutput { id: 9 });
    assert_eq!(step.done(), ToggleStep::Finished);
}

#[test]
fn listed_files_become_songs() {
    let songs = songs_of_files(strings(&["a", "b"]));
    assert_eq!(songs.len(), 2);
    assert_eq!((songs[1].id, songs[1].file.as_str()), (0, "b"));
    assert_eq!(songs[1].duration_ms, None);
    assert!(songs[1].metadata.is_empty());
}
