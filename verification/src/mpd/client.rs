//! The MPD client: its handshake, what it sends at the start of a session, and
//! the requests that take more than one command.

use crate::mpd::types;
use crate::mpd::types::{MpdConfig, Output, PartitionedOutputKind, Song, SongView, Version};
use crate::text;
use vstd::prelude::*;

verus! {

/// How much binary data a new client asks for at once; a server gives no more.
pub const INITIAL_BINARY_LIMIT: u64 = 262144;

/// How much binary data a client asks for at once after it has reconnected.
pub const RECONNECT_BINARY_LIMIT: u64 = 5242880;

/// The oldest version that is supported.
pub open spec fn min_supported() -> Version {
    Version { major: 0, minor: 23, patch: 5 }
}

/// The oldest version that is supported.
pub fn min_supported_version() -> (r: Version)
    ensures
        r == min_supported(),
{
    Version::new(0, 23, 5)
}

/// Why a greeting was not understood.
#[derive(Debug)]
pub enum HandshakeError {
    NotOk { line: String },
    NoVersion { line: String },
}

impl HandshakeError {
    /// The text of the error.
    pub open spec fn text(self) -> Seq<char> {
        match self {
            HandshakeError::NotOk { line } => "Handshake validation failed. '"@ + line@ + "'"@,
            HandshakeError::NoVersion { line } => {
                "Handshake validation failed. Cannot parse version from '"@ + line@ + "'"@
            },
        }
    }

    /// The text of the error.
    pub fn message(&self) -> (r: String)
        ensures
            r@ == self.text(),
    {
        match self {
            HandshakeError::NotOk { line } => {
                let mut s = String::from_str("Handshake validation failed. '");
                s.append(line.as_str());
                s.append("'");
                s
            },
            HandshakeError::NoVersion { line } => {
                let mut s = String::from_str(
                    "Handshake validation failed. Cannot parse version from '",
                );
                s.append(line.as_str());
                s.append("'");
                s
            },
        }
    }
}

/// What stands in a greeting where the version belongs.
pub open spec fn version_text(line: Seq<char>) -> Option<Seq<char>> {
    if "OK MPD "@.is_prefix_of(line) {
        Some(line.skip("OK MPD "@.len() as int))
    } else {
        None
    }
}

/// What a greeting tells: the text of the version, or why there is none.
pub open spec fn greeting_tells(line: Seq<char>, r: Result<String, HandshakeError>) -> bool {
    match r {
        Ok(version) => version_text(line) == Some(version@),
        Err(HandshakeError::NotOk { line: l }) => l@ == line && !"OK"@.is_prefix_of(line),
        Err(HandshakeError::NoVersion { line: l }) => l@ == line && "OK"@.is_prefix_of(line)
            && version_text(line) is None,
    }
}

/// Finds the text of the version in the server's greeting.
pub fn read_greeting(line: &str) -> (r: Result<String, HandshakeError>)
    ensures
        greeting_tells(line@, r),
        match r {
            Ok(version) => version_text(line@) == Some(version@),
            Err(HandshakeError::NotOk { line: l }) => l@ == line@ && !"OK"@.is_prefix_of(line@),
            Err(HandshakeError::NoVersion { line: l }) => l@ == line@ && "OK"@.is_prefix_of(line@)
                && version_text(line@) is None,
        },
{
    if !text::starts_with(line, "OK") {
        return Err(HandshakeError::NotOk { line: String::from_str(line) });
    }
    match text::strip_prefix(line, "OK MPD ") {
        Some(version) => Ok(version),
        None => Err(HandshakeError::NoVersion { line: String::from_str(line) }),
    }
}

/// The version that was read out of a greeting, if it is one.
pub fn greeted_version(line: &str, parsed: Option<Version>) -> (r: Result<Version, HandshakeError>)
    ensures
        match (parsed, r) {
            (Some(version), Ok(v)) => v == version,
            (None, Err(HandshakeError::NoVersion { line: l })) => l@ == line@,
            _ => false,
        },
{
    match parsed {
        Some(version) => Ok(version),
        None => Err(HandshakeError::NoVersion { line: String::from_str(line) }),
    }
}

/// Whether a version is too old to work well.
pub fn is_unsupported(version: &Version) -> (r: bool)
    ensures
        r == version.before(min_supported()),
{
    version.is_before(&min_supported_version())
}

/// What to tell the user of a server that is too old.
pub fn unsupported_warning(version: &str, minimum: &str) -> (r: String)
    ensures
        r@ == "MPD version '"@ + version@
            + "' is lower than supported. Minimum supported protocol version is '"@ + minimum@
            + "'. Some features may work incorrectly."@,
{
    let mut s = String::from_str("MPD version '");
    s.append(version);
    s.append("' is lower than supported. Minimum supported protocol version is '");
    s.append(minimum);
    s.append("'. Some features may work incorrectly.");
    s
}

/// What a client knows of itself and of the server.
pub struct Client {
    pub name: String,
    pub password: Option<String>,
    pub partition: Option<String>,
    pub autocreate_partition: bool,
    pub version: Version,
    pub config: Option<MpdConfig>,
    /// The commands that the server takes, each of them once.
    pub supported_commands: Vec<String>,
}

/// No two of `list` are the same text.
pub open spec fn all_different(list: Seq<String>) -> bool {
    forall|i: int, j: int| 0 <= i < j < list.len() ==> #[trigger] list[i]@ != #[trigger] list[j]@
}

/// `list` holds the text `s`.
pub open spec fn holds(list: Seq<String>, s: Seq<char>) -> bool {
    exists|i: int| 0 <= i < list.len() && #[trigger] list[i]@ == s
}

/// `set` holds exactly the texts of `list`, each of them once.
pub open spec fn is_set_of(set: Seq<String>, list: Seq<String>) -> bool {
    &&& all_different(set)
    &&& forall|s: Seq<char>| #[trigger] holds(set, s) <==> holds(list, s)
}

fn contains_text(list: &Vec<String>, s: &String) -> (r: bool)
    ensures
        r == holds(list@, s@),
{
    let mut i: usize = 0;
    while i < list.len()
        invariant
            i <= list.len(),
            forall|j: int| 0 <= j < i ==> (#[trigger] list@[j])@ != s@,
        decreases list.len() - i,
    {
        if list[i] == *s {
            return true;
        }
        i = i + 1;
    }
    false
}

fn as_set(list: Vec<String>) -> (r: Vec<String>)
    ensures
        is_set_of(r@, list@),
{
    let mut set: Vec<String> = Vec::new();
    let mut i: usize = 0;
    while i < list.len()
        invariant
            i <= list.len(),
            is_set_of(set@, list@.take(i as int)),
        decreases list.len() - i,
    {
        let ghost before = set@;
        let ghost item = list@[i as int];
        let ghost seen = list@.take(i as int);
        assert(list@.take(i + 1) == seen.push(item));
        if !contains_text(&set, &list[i]) {
            set.push(list[i].clone());
            proof {
                lemma_holds_push(before, item);
                assert forall|a: int, b: int| 0 <= a < b < set@.len() implies #[trigger] set@[a]@
                    != #[trigger] set@[b]@ by {
                    if b == before.len() {
                        assert(before[a]@ != item@) by {
                            if before[a]@ == item@ {
                                assert(holds(before, item@));
                            }
                        }
                    }
                }
            }
        }
        proof {
            lemma_holds_push(seen, item);
        }
        i = i + 1;
    }
    assert(list@.take(i as int) == list@);
    set
}

proof fn lemma_holds_push(list: Seq<String>, item: String)
    ensures
        forall|s: Seq<char>| #[trigger]
            holds(list.push(item), s) <==> holds(list, s) || s == item@,
{
    assert forall|s: Seq<char>| #[trigger] holds(list.push(item), s) <==> holds(list, s) || s
        == item@ by {
        let longer = list.push(item);
        if holds(longer, s) {
            let i = choose|i: int| 0 <= i < longer.len() && #[trigger] longer[i]@ == s;
            if i < list.len() {
                assert(list[i]@ == s);
            }
        }
        if holds(list, s) {
            let i = choose|i: int| 0 <= i < list.len() && #[trigger] list[i]@ == s;
            assert(longer[i]@ == s);
        }
        if s == item@ {
            assert(longer[list.len() as int]@ == s);
        }
    }
}

/// What to do to switch to a partition.
#[derive(Debug, PartialEq, Eq)]
pub enum PartitionStep {
    /// Switch to the partition `name`.
    Switch { name: String },
    /// Create the partition `name`.
    Create { name: String },
    /// Switch to the partition `name` that was created.
    SwitchCreated { name: String },
    Switched,
    /// The request failed; its own error is the reason.
    Refused,
}

/// How a request to the server went.
#[derive(Clone, Copy, Debug, PartialEq, Eq, Structural)]
pub enum Answer {
    Done,
    /// What the request speaks of does not exist.
    NoExist,
    Failed,
}

impl PartitionStep {
    /// What comes after this step: a partition that does not exist is created
    /// where `autocreate`.
    pub open spec fn after(self, answer: Answer, autocreate: bool) -> PartitionStep {
        match self {
            PartitionStep::Switch { name } => match answer {
                Answer::Done => PartitionStep::Switched,
                Answer::NoExist if autocreate => PartitionStep::Create { name },
                _ => PartitionStep::Refused,
            },
            PartitionStep::Create { name } => match answer {
                Answer::Done => PartitionStep::SwitchCreated { name },
                _ => PartitionStep::Refused,
            },
            PartitionStep::SwitchCreated { .. } => match answer {
                Answer::Done => PartitionStep::Switched,
                _ => PartitionStep::Refused,
            },
            _ => self,
        }
    }

    /// Starts to switch to a partition.
    pub fn begin(name: &str) -> (r: PartitionStep)
        ensures
            r matches PartitionStep::Switch { name: n } && n@ == name@,
    {
        PartitionStep::Switch { name: String::from_str(name) }
    }

    pub fn next(self, answer: Answer, autocreate: bool) -> (r: PartitionStep)
        ensures
            r == self.after(answer, autocreate),
    {
        match self {
            PartitionStep::Switch { name } => match answer {
                Answer::Done => PartitionStep::Switched,
                Answer::NoExist => if autocreate {
                    PartitionStep::Create { name }
                } else {
                    PartitionStep::Refused
                },
                Answer::Failed => PartitionStep::Refused,
            },
            PartitionStep::Create { name } => match answer {
                Answer::Done => PartitionStep::SwitchCreated { name },
                _ => PartitionStep::Refused,
            },
            PartitionStep::SwitchCreated { .. } => match answer {
                Answer::Done => PartitionStep::Switched,
                _ => PartitionStep::Refused,
            },
            PartitionStep::Switched => PartitionStep::Switched,
            PartitionStep::Refused => PartitionStep::Refused,
        }
    }
}

/// What to do at the start of a session.
#[derive(Debug, PartialEq, Eq)]
pub enum SessionStep {
    SendPassword { password: String },
    Partition(PartitionStep),
    SetBinaryLimit { bytes: u64 },
    /// Ask for the commands that the server takes.
    ListCommands,
    Ready,
    /// The request failed; its own error is the reason.
    Refused,
}

impl Client {
    /// Who the client is and what it was told to do is as in `other`.
    pub open spec fn same_settings(self, other: Client) -> bool {
        &&& self.name == other.name
        &&& self.password == other.password
        &&& self.partition == other.partition
        &&& self.autocreate_partition == other.autocreate_partition
    }

    /// A client for a connection over which the server has told its version.
    pub fn init(
        name: String,
        password: Option<String>,
        partition: Option<String>,
        autocreate_partition: bool,
        version: Version,
    ) -> (r: Client)
        ensures
            r.name == name,
            r.password == password,
            r.partition == partition,
            r.autocreate_partition == autocreate_partition,
            r.version == version,
            r.config is None,
            r.supported_commands@.len() == 0,
    {
        Client {
            name,
            password,
            partition,
            autocreate_partition,
            version,
            config: None,
            supported_commands: Vec::new(),
        }
    }

    /// Goes over to a new connection over which the server has told its version.
    pub fn reconnect(&mut self, version: Version)
        ensures
            final(self).same_settings(*old(self)),
            final(self).version == version,
            final(self).config is None,
            final(self).supported_commands == old(self).supported_commands,
    {
        self.version = version;
        self.config = None;
    }

    /// Keeps the commands that the server takes.
    pub fn set_supported_commands(&mut self, commands: Vec<String>)
        ensures
            final(self).same_settings(*old(self)),
            final(self).version == old(self).version,
            final(self).config == old(self).config,
            is_set_of(final(self).supported_commands@, commands@),
    {
        self.supported_commands = as_set(commands);
    }

    /// What comes when the server knows who the client is.
    pub open spec fn identified(self, new: bool) -> SessionStep {
        match self.partition {
            Some(name) => SessionStep::Partition(PartitionStep::Switch { name }),
            None => Self::located(new),
        }
    }

    /// What comes when the client is in its partition.
    pub open spec fn located(new: bool) -> SessionStep {
        if new {
            SessionStep::SetBinaryLimit { bytes: INITIAL_BINARY_LIMIT }
        } else {
            SessionStep::ListCommands
        }
    }

    /// How a session begins, of a new client or of one that has reconnected.
    pub open spec fn first_step(self, new: bool) -> SessionStep {
        match self.password {
            Some(password) => SessionStep::SendPassword { password },
            None => self.identified(new),
        }
    }

    /// What comes after `step`.
    pub open spec fn step_after(self, step: SessionStep, answer: Answer, new: bool) -> SessionStep {
        match step {
            SessionStep::Partition(part) => match part.after(answer, self.autocreate_partition) {
                PartitionStep::Switched => Self::located(new),
                PartitionStep::Refused => SessionStep::Refused,
                next => SessionStep::Partition(next),
            },
            SessionStep::Ready => step,
            SessionStep::Refused => step,
            _ => if answer != Answer::Done {
                SessionStep::Refused
            } else {
                match step {
                    SessionStep::SendPassword { .. } => self.identified(new),
                    SessionStep::SetBinaryLimit { .. } => if new {
                        SessionStep::ListCommands
                    } else {
                        SessionStep::Ready
                    },
                    _ => if new {
                        SessionStep::Ready
                    } else {
                        SessionStep::SetBinaryLimit { bytes: RECONNECT_BINARY_LIMIT }
                    },
                }
            },
        }
    }

    fn in_partition(new: bool) -> (r: SessionStep)
        ensures
            r == Self::located(new),
    {
        if new {
            SessionStep::SetBinaryLimit { bytes: INITIAL_BINARY_LIMIT }
        } else {
            SessionStep::ListCommands
        }
    }

    fn known(&self, new: bool) -> (r: SessionStep)
        ensures
            r == self.identified(new),
    {
        match &self.partition {
            Some(name) => SessionStep::Partition(PartitionStep::Switch { name: name.clone() }),
            None => Self::in_partition(new),
        }
    }

    /// Starts the session of a new client, or of one that has reconnected.
    pub fn begin_session(&self, new: bool) -> (r: SessionStep)
        ensures
            r == self.first_step(new),
    {
        match &self.password {
            Some(password) => SessionStep::SendPassword { password: password.clone() },
            None => self.known(new),
        }
    }

    /// Goes on with the session.
    pub fn next_step(&self, step: SessionStep, answer: Answer, new: bool) -> (r: SessionStep)
        ensures
            r == self.step_after(step, answer, new),
    {
        match step {
            SessionStep::Partition(part) => {
                match part.next(answer, self.autocreate_partition) {
                    PartitionStep::Switched => Self::in_partition(new),
                    PartitionStep::Refused => SessionStep::Refused,
                    next => SessionStep::Partition(next),
                }
            },
            SessionStep::Ready => SessionStep::Ready,
            SessionStep::Refused => SessionStep::Refused,
            _ => match answer {
                Answer::Done => match step {
                    SessionStep::SendPassword { .. } => self.known(new),
                    SessionStep::SetBinaryLimit { .. } => if new {
                        SessionStep::ListCommands
                    } else {
                        SessionStep::Ready
                    },
                    _ => if new {
                        SessionStep::Ready
                    } else {
                        SessionStep::SetBinaryLimit { bytes: RECONNECT_BINARY_LIMIT }
                    },
                },
                _ => SessionStep::Refused,
            },
        }
    }
}

/// How many steps of a session are left at most.
pub open spec fn session_steps_left(step: SessionStep, new: bool) -> nat {
    match step {
        SessionStep::SendPassword { .. } => 6,
        SessionStep::Partition(PartitionStep::Switch { .. }) => 5,
        SessionStep::Partition(PartitionStep::Create { .. }) => 4,
        SessionStep::Partition(_) => 3,
        SessionStep::SetBinaryLimit { .. } => if new {
            2
        } else {
            1
        },
        SessionStep::ListCommands => if new {
            1
        } else {
            2
        },
        SessionStep::Ready | SessionStep::Refused => 0,
    }
}

/// A session comes to an end: with every step there is less to do.
pub proof fn law_sessions_begin(client: Client, step: SessionStep, answer: Answer, new: bool)
    requires
        step !is Ready,
        step !is Refused,
    ensures
        session_steps_left(client.step_after(step, answer, new), new) < session_steps_left(
            step,
            new,
        ),
{
}

/// A new client and one that has reconnected, without password and partition,
/// do the same two things, in opposite order and with different limits.
pub proof fn law_session_order(client: Client)
    requires
        client.password is None,
        client.partition is None,
    ensures
        client.first_step(true) == (SessionStep::SetBinaryLimit { bytes: 262144 }),
        client.step_after(client.first_step(true), Answer::Done, true) is ListCommands,
        client.step_after(SessionStep::ListCommands, Answer::Done, true) is Ready,
        client.first_step(false) is ListCommands,
        client.step_after(client.first_step(false), Answer::Done, false) == (
        SessionStep::SetBinaryLimit { bytes: 5242880 }),
        client.step_after(
            SessionStep::SetBinaryLimit { bytes: 5242880 },
            Answer::Done,
            false,
        ) is Ready,
{
}

/// The server is told the password before anything else, and then the partition.
pub proof fn law_password_and_partition_come_first(client: Client, new: bool)
    ensures
        client.password matches Some(password) ==> client.first_step(new) == (
        SessionStep::SendPassword { password }) && client.step_after(
            client.first_step(new),
            Answer::Done,
            new,
        ) == client.identified(new),
        client.password is None ==> client.first_step(new) == client.identified(new),
        client.partition matches Some(name) ==> client.identified(new) == SessionStep::Partition(
            PartitionStep::Switch { name },
        ),
{
}

/// A partition is created only where it does not exist and may be created, and
/// then the client switches to it. Where it may not be created, whatever goes
/// wrong ends the attempt.
pub proof fn law_partitions_are_created_on_demand(
    name: String,
    first: Answer,
    second: Answer,
    third: Answer,
)
    ensures
        (PartitionStep::Switch { name }).after(first, false) == if first == Answer::Done {
            PartitionStep::Switched
        } else {
            PartitionStep::Refused
        },
        (PartitionStep::Switch { name }).after(first, true) == (PartitionStep::Create { name })
            <==> first == Answer::NoExist,
        (PartitionStep::Create { name }).after(second, true) == (PartitionStep::SwitchCreated {
            name,
        }) <==> second == Answer::Done,
        (PartitionStep::Switch { name }).after(first, true).after(second, true).after(third, true)
            == PartitionStep::Switched <==> first == Answer::Done || first == Answer::NoExist
            && second == Answer::Done && third == Answer::Done,
{
}

/// A command to send as part of a request of several commands, or what to do
/// with the server's answer to all of them.
pub enum ListCommand {
    Start,
    NewPartition { name: String },
    SwitchToPartition { name: String },
    SwapPositions { from: usize, to: usize },
    LsInfo { uri: String },
    Execute,
    ReadOk,
    ReadSongs,
}

/// The commands that create a partition and switch to it.
pub open spec fn partition_commands(list: Seq<ListCommand>, name: Seq<char>) -> bool {
    &&& list.len() == 5
    &&& list[0] is Start
    &&& list[1] matches ListCommand::NewPartition { name: n } && n@ == name
    &&& list[2] matches ListCommand::SwitchToPartition { name: n } && n@ == name
    &&& list[3] is Execute
    &&& list[4] is ReadOk
}

/// The commands that swap songs, pair by pair.
pub open spec fn swap_commands(swaps: Seq<(usize, usize)>) -> Seq<ListCommand> {
    seq![ListCommand::Start] + swaps.map_values(
        |s: (usize, usize)| ListCommand::SwapPositions { from: s.0, to: s.1 },
    ) + seq![ListCommand::Execute, ListCommand::ReadOk]
}

/// The commands that ask for the songs with these names.
pub open spec fn info_commands(uris: Seq<String>) -> Seq<ListCommand> {
    seq![ListCommand::Start] + uris.map_values(|u: String| ListCommand::LsInfo { uri: u }) + seq![
        ListCommand::Execute,
        ListCommand::ReadSongs,
    ]
}

/// The commands that create a partition and switch to it.
pub fn create_and_switch_to_partition(name: &str) -> (r: Vec<ListCommand>)
    ensures
        partition_commands(r@, name@),
        r@.len() == 5,
        r@[0] is Start,
        r@[1] matches ListCommand::NewPartition { name: n } && n@ == name@,
        r@[2] matches ListCommand::SwitchToPartition { name: n } && n@ == name@,
        r@[3] is Execute,
        r@[4] is ReadOk,
{
    let mut list: Vec<ListCommand> = Vec::new();
    list.push(ListCommand::Start);
    list.push(ListCommand::NewPartition { name: String::from_str(name) });
    list.push(ListCommand::SwitchToPartition { name: String::from_str(name) });
    list.push(ListCommand::Execute);
    list.push(ListCommand::ReadOk);
    list
}

/// The commands that swap songs, pair by pair.
pub fn swap_positions(swaps: &Vec<(usize, usize)>) -> (r: Vec<ListCommand>)
    ensures
        r@ == swap_commands(swaps@),
        r@ == seq![ListCommand::Start] + swaps@.map_values(
            |s: (usize, usize)| ListCommand::SwapPositions { from: s.0, to: s.1 },
        ) + seq![ListCommand::Execute, ListCommand::ReadOk],
{
    let mut list: Vec<ListCommand> = Vec::new();
    list.push(ListCommand::Start);
    let ghost swapping = swaps@.map_values(
        |s: (usize, usize)| ListCommand::SwapPositions { from: s.0, to: s.1 },
    );
    let mut i: usize = 0;
    while i < swaps.len()
        invariant
            i <= swaps.len(),
            swapping == swaps@.map_values(
                |s: (usize, usize)| ListCommand::SwapPositions { from: s.0, to: s.1 },
            ),
            list@ == seq![ListCommand::Start] + swapping.take(i as int),
        decreases swaps.len() - i,
    {
        list.push(ListCommand::SwapPositions { from: swaps[i].0, to: swaps[i].1 });
        i = i + 1;
    }
    assert(swapping.take(i as int) == swapping);
    list.push(ListCommand::Execute);
    list.push(ListCommand::ReadOk);
    list
}

/// The commands that ask for the songs with these names.
pub fn get_songs_info(song_uris: Vec<String>) -> (r: Vec<ListCommand>)
    ensures
        r@ == info_commands(song_uris@),
        r@ == seq![ListCommand::Start] + song_uris@.map_values(
            |u: String| ListCommand::LsInfo { uri: u },
        ) + seq![ListCommand::Execute, ListCommand::ReadSongs],
{
    let mut list: Vec<ListCommand> = Vec::new();
    list.push(ListCommand::Start);
    let ghost asking = song_uris@.map_values(|u: String| ListCommand::LsInfo { uri: u });
    let mut i: usize = 0;
    while i < song_uris.len()
        invariant
            i <= song_uris.len(),
            asking == song_uris@.map_values(|u: String| ListCommand::LsInfo { uri: u }),
            list@ == seq![ListCommand::Start] + asking.take(i as int),
        decreases song_uris.len() - i,
    {
        list.push(ListCommand::LsInfo { uri: song_uris[i].clone() });
        i = i + 1;
    }
    assert(asking.take(i as int) == asking);
    list.push(ListCommand::Execute);
    list.push(ListCommand::ReadSongs);
    list
}

/// What to do to toggle an output.
#[derive(Debug, PartialEq, Eq)]
pub enum ToggleStep {
    /// Move the output `name` to this partition.
    MoveOutput { name: String },
    /// Ask for the outputs, of which `name` is wanted.
    ListOutputs { name: String },
    EnableOutput { id: u32 },
    ToggleOutput { id: u32 },
    Finished,
}

/// The first output with this name.
pub open spec fn output_named(outputs: Seq<Output>, name: Seq<char>) -> Option<Output>
    decreases outputs.len(),
{
    if outputs.len() == 0 {
        None
    } else {
        match output_named(outputs.drop_last(), name) {
            Some(output) => Some(output),
            None => if outputs.last().name@ == name {
                Some(outputs.last())
            } else {
                None
            },
        }
    }
}

impl ToggleStep {
    /// How the output `name`, which has the id `id`, begins to be toggled.
    pub open spec fn begins(
        self,
        kind: PartitionedOutputKind,
        name: Seq<char>,
        id: u32,
    ) -> bool {
        match kind {
            PartitionedOutputKind::OtherPartition => self matches ToggleStep::MoveOutput {
                name: n,
            } && n@ == name,
            PartitionedOutputKind::CurrentPartition => self == (ToggleStep::ToggleOutput { id }),
        }
    }

    /// What comes after a step that has succeeded.
    pub open spec fn after_success(self) -> ToggleStep {
        match self {
            ToggleStep::MoveOutput { name } => ToggleStep::ListOutputs { name },
            _ => ToggleStep::Finished,
        }
    }

    /// What comes after the list of outputs.
    pub open spec fn after_list(self, outputs: Seq<Output>) -> ToggleStep {
        match self {
            ToggleStep::ListOutputs { name } => match output_named(outputs, name@) {
                Some(output) => ToggleStep::EnableOutput { id: output.id },
                None => ToggleStep::Finished,
            },
            _ => ToggleStep::Finished,
        }
    }

    /// Starts to toggle the output `name`, which has the id `id`: one of another
    /// partition is fetched first.
    pub fn begin(kind: PartitionedOutputKind, name: &str, id: u32) -> (r: ToggleStep)
        ensures
            r.begins(kind, name@, id),
            match kind {
                PartitionedOutputKind::OtherPartition => r matches ToggleStep::MoveOutput {
                    name: n,
                } && n@ == name@,
                PartitionedOutputKind::CurrentPartition => r == (ToggleStep::ToggleOutput { id }),
            },
    {
        match kind {
            PartitionedOutputKind::OtherPartition => ToggleStep::MoveOutput {
                name: String::from_str(name),
            },
            PartitionedOutputKind::CurrentPartition => ToggleStep::ToggleOutput { id },
        }
    }

    /// What comes after a step that has succeeded.
    pub fn done(self) -> (r: ToggleStep)
        ensures
            r == self.after_success(),
            r == match self {
                ToggleStep::MoveOutput { name } => ToggleStep::ListOutputs { name },
                _ => ToggleStep::Finished,
            },
    {
        match self {
            ToggleStep::MoveOutput { name } => ToggleStep::ListOutputs { name },
            _ => ToggleStep::Finished,
        }
    }

    /// What comes after the list of outputs: the output that was moved has a new
    /// id, and is enabled under it.
    pub fn listed(self, outputs: &Vec<Output>) -> (r: ToggleStep)
        ensures
            r == self.after_list(outputs@),
            r == match self {
                ToggleStep::ListOutputs { name } => match output_named(outputs@, name@) {
                    Some(output) => ToggleStep::EnableOutput { id: output.id },
                    None => ToggleStep::Finished,
                },
                _ => ToggleStep::Finished,
            },
    {
        match self {
            ToggleStep::ListOutputs { name } => Self::enable_named(outputs, &name),
            _ => ToggleStep::Finished,
        }
    }

    fn enable_named(outputs: &Vec<Output>, name: &String) -> (r: ToggleStep)
        ensures
            r == match output_named(outputs@, name@) {
                Some(output) => ToggleStep::EnableOutput { id: output.id },
                None => ToggleStep::Finished,
            },
    {
        let mut i: usize = 0;
        while i < outputs.len()
            invariant
                i <= outputs.len(),
                output_named(outputs@.take(i as int), name@) is None,
            decreases outputs.len() - i,
        {
            assert(outputs@.take(i + 1).drop_last() == outputs@.take(i as int));
            if outputs[i].name == *name {
                proof {
                    lemma_named_in_prefix(outputs@, name@, i + 1);
                }
                return ToggleStep::EnableOutput { id: outputs[i].id };
            }
            i = i + 1;
        }
        assert(outputs@.take(i as int) == outputs@);
        ToggleStep::Finished
    }
}

proof fn lemma_named_in_prefix(outputs: Seq<Output>, name: Seq<char>, n: int)
    requires
        0 <= n <= outputs.len(),
        output_named(outputs.take(n), name) is Some,
    ensures
        output_named(outputs, name) == output_named(outputs.take(n), name),
    decreases outputs.len(),
{
    if n == outputs.len() {
        assert(outputs.take(n) == outputs);
    } else {
        assert(outputs.drop_last().take(n) == outputs.take(n));
        lemma_named_in_prefix(outputs.drop_last(), name, n);
    }
}

/// A song of which only the file is known.
pub open spec fn bare_song(file: Seq<char>) -> SongView {
    SongView { id: 0, file, duration_ms: None, metadata: Seq::empty() }
}

/// The songs that a listing of files stands for.
pub open spec fn bare_songs(files: Seq<String>) -> Seq<SongView> {
    files.map_values(|f: String| bare_song(f@))
}

/// The songs that a listing of files stands for.
pub fn songs_of_files(files: Vec<String>) -> (r: Vec<Song>)
    ensures
        types::song_views(r@) == bare_songs(files@),
        types::song_views(r@) == files@.map_values(|f: String| bare_song(f@)),
{
    let mut songs: Vec<Song> = Vec::new();
    let ghost bare = files@.map_values(|f: String| bare_song(f@));
    let mut i: usize = 0;
    while i < files.len()
        invariant
            i <= files.len(),
            bare == files@.map_values(|f: String| bare_song(f@)),
            types::song_views(songs@) == bare.take(i as int),
        decreases files.len() - i,
    {
        let ghost before = songs@;
        let song = Song {
            id: 0,
            file: files[i].clone(),
            duration_ms: None,
            metadata: Vec::new(),
        };
        assert(song@.metadata == bare_song(files@[i as int]@).metadata);
        songs.push(song);
        assert(types::song_views(songs@) == types::song_views(before).push(song@));
        i = i + 1;
    }
    assert(bare.take(i as int) == bare);
    songs
}

/// A song of which only the file is known has no tags, and so none twice.
pub proof fn law_bare_songs_have_each_tag_once(file: Seq<char>)
    ensures
        bare_song(file).has_each_tag_once(),
{
}

} // verus!
