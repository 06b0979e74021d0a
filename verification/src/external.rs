//! External commands: their command line, their environment and their outcome.

use crate::text;
use vstd::prelude::*;

verus! {

/// A command line with all placeholders filled in.
pub struct ExternalCommand {
    pub program: String,
    pub args: Vec<String>,
}

/// Why an external command did not run, or failed.
#[derive(Debug)]
pub enum ExternalError<E> {
    /// There is no command.
    InvalidCommand,
    /// More placeholders than arguments.
    NotEnoughArguments,
    /// Arguments are left over.
    TooManyArguments,
    /// A placeholder could not be filled in.
    Placeholder(E),
}

/// How many arguments the first `n` parts of a command line have used.
pub open spec fn used(filled: Seq<(usize, String)>, n: int) -> int
    decreases n,
{
    if n <= 0 {
        0
    } else {
        used(filled, n - 1) + filled[n - 1].0
    }
}

/// `filled` are the first parts of `command` with their placeholders replaced,
/// each by the arguments that the parts before it left, and how many
/// arguments each of them used.
pub open spec fn fills<E, F: Fn(&String, &[String]) -> Result<(usize, String), E>>(
    replace: F,
    command: Seq<String>,
    args: Seq<String>,
    filled: Seq<(usize, String)>,
) -> bool {
    &&& filled.len() <= command.len()
    &&& forall|i: int|
        0 <= i < filled.len() ==> #[trigger] fills_part(replace, command, args, filled, i)
}

/// Part `i` of `command` is replaced by `filled[i]`.
pub open spec fn fills_part<E, F: Fn(&String, &[String]) -> Result<(usize, String), E>>(
    replace: F,
    command: Seq<String>,
    args: Seq<String>,
    filled: Seq<(usize, String)>,
    i: int,
) -> bool {
    &&& used(filled, i) <= args.len()
    &&& answers(replace, command[i], args.skip(used(filled, i)), Ok(filled[i]))
}

/// `replace` can answer `result` for `part` and the arguments `rest`.
pub open spec fn answers<E, F: Fn(&String, &[String]) -> Result<(usize, String), E>>(
    replace: F,
    part: String,
    rest: Seq<String>,
    result: Result<(usize, String), E>,
) -> bool {
    exists|values: &[String]|
        values@ == rest && #[trigger] call_ensures(replace, (&part, values), result)
}

/// What comes of filling in the placeholders of `command` with `args`.
pub open spec fn prepares<E, F: Fn(&String, &[String]) -> Result<(usize, String), E>>(
    replace: F,
    command: Seq<String>,
    args: Seq<String>,
    r: Result<ExternalCommand, ExternalError<E>>,
) -> bool {
    match r {
        Ok(ready) => exists|filled: Seq<(usize, String)>|
            {
                &&& #[trigger] fills(replace, command, args, filled)
                &&& filled.len() == command.len() > 0
                &&& used(filled, filled.len() as int) >= args.len()
                &&& ready.program == filled[0].1
                &&& ready.args@ == filled.skip(1).map_values(|f: (usize, String)| f.1)
            },
        Err(ExternalError::InvalidCommand) => command.len() == 0,
        Err(ExternalError::NotEnoughArguments) => exists|filled: Seq<(usize, String)>|
            {
                &&& #[trigger] fills(replace, command, args, filled)
                &&& 0 < filled.len() < command.len()
                &&& used(filled, filled.len() as int) > args.len()
            },
        Err(ExternalError::TooManyArguments) => exists|filled: Seq<(usize, String)>|
            {
                &&& #[trigger] fills(replace, command, args, filled)
                &&& filled.len() == command.len() > 0
                &&& used(filled, filled.len() as int) < args.len()
            },
        Err(ExternalError::Placeholder(e)) => exists|filled: Seq<(usize, String)>|
            {
                &&& #[trigger] fills(replace, command, args, filled)
                &&& filled.len() < command.len()
                &&& used(filled, filled.len() as int) <= args.len()
                &&& answers(
                    replace,
                    command[filled.len() as int],
                    args.skip(used(filled, filled.len() as int)),
                    Err(e),
                )
            },
    }
}

/// Fills in the placeholders of a command line.
///
/// `replace` fills in those of one part: it gets the arguments that are left
/// and answers how many of them it used, and the text.
pub fn prepare<E, F: Fn(&String, &[String]) -> Result<(usize, String), E>>(
    command: &[String],
    args: &[String],
    replace: &F,
) -> (r: Result<ExternalCommand, ExternalError<E>>)
    requires
        forall|part: &String, values: &[String]| #[trigger]
            call_requires(*replace, (part, values)),
        forall|part: &String, values: &[String], n: usize, text: String| #[trigger]
            call_ensures(*replace, (part, values), Ok::<(usize, String), E>((n, text))) ==> n
                + args@.len() <= usize::MAX,
    ensures
        prepares(*replace, command@, args@, r),
        match r {
            Ok(ready) => exists|filled: Seq<(usize, String)>|
                {
                    &&& #[trigger] fills(*replace, command@, args@, filled)
                    &&& filled.len() == command@.len() > 0
                    &&& used(filled, filled.len() as int) >= args@.len()
                    &&& ready.program == filled[0].1
                    &&& ready.args@ == filled.skip(1).map_values(|f: (usize, String)| f.1)
                },
            Err(ExternalError::InvalidCommand) => command@.len() == 0,
            Err(ExternalError::NotEnoughArguments) => exists|filled: Seq<(usize, String)>|
                {
                    &&& #[trigger] fills(*replace, command@, args@, filled)
                    &&& 0 < filled.len() < command@.len()
                    &&& used(filled, filled.len() as int) > args@.len()
                },
            Err(ExternalError::TooManyArguments) => exists|filled: Seq<(usize, String)>|
                {
                    &&& #[trigger] fills(*replace, command@, args@, filled)
                    &&& filled.len() == command@.len() > 0
                    &&& used(filled, filled.len() as int) < args@.len()
                },
            Err(ExternalError::Placeholder(e)) => exists|filled: Seq<(usize, String)>|
                {
                    &&& #[trigger] fills(*replace, command@, args@, filled)
                    &&& filled.len() < command@.len()
                    &&& used(filled, filled.len() as int) <= args@.len()
                    &&& answers(
                        *replace,
                        command@[filled.len() as int],
                        args@.skip(used(filled, filled.len() as int)),
                        Err(e),
                    )
                },
        },
{
    if command.len() == 0 {
        return Err(ExternalError::InvalidCommand);
    }
    let ghost mut filled: Seq<(usize, String)> = Seq::empty();
    assert(args@.skip(0) == args@);
    let (first_used, program) = match replace(&command[0], args) {
        Ok(first) => first,
        Err(e) => {
            assert(fills(*replace, command@, args@, filled));
            assert(answers(*replace, command@[0], args@.skip(0), Err(e)));
            return Err(ExternalError::Placeholder(e));
        },
    };
    let mut used_count: usize = first_used;
    proof {
        let first = (first_used, program);
        filled = filled.push(first);
        assert(answers(*replace, command@[0], args@.skip(0), Ok(first)));
        reveal_with_fuel(used, 2);
    }
    let mut ready: Vec<String> = Vec::new();
    let mut i: usize = 1;
    while i < command.len()
        invariant
            1 <= i <= command.len(),
            forall|part: &String, values: &[String]| #[trigger]
                call_requires(*replace, (part, values)),
            forall|part: &String, values: &[String], n: usize, text: String| #[trigger]
                call_ensures(*replace, (part, values), Ok::<(usize, String), E>((n, text))) ==> n
                    + args@.len() <= usize::MAX,
            filled.len() == i,
            fills(*replace, command@, args@, filled),
            used_count == used(filled, i as int),
            program == filled[0].1,
            ready@ == filled.skip(1).map_values(|f: (usize, String)| f.1),
        decreases command.len() - i,
    {
        if used_count > args.len() {
            return Err(ExternalError::NotEnoughArguments);
        }
        let rest = vstd::slice::slice_subrange(args, used_count, args.len());
        assert(rest@ == args@.skip(used_count as int));
        match replace(&command[i], rest) {
            Ok((n, text)) => {
                proof {
                    let next = (n, text);
                    assert(answers(
                        *replace,
                        command@[i as int],
                        args@.skip(used_count as int),
                        Ok(next),
                    ));
                    lemma_used_push(filled, next, i as int);
                    let longer = filled.push(next);
                    assert forall|j: int| 0 <= j < longer.len() implies #[trigger] fills_part(
                        *replace,
                        command@,
                        args@,
                        longer,
                        j,
                    ) by {
                        lemma_used_push(filled, next, j);
                        if j < i {
                            assert(fills_part(*replace, command@, args@, filled, j));
                        }
                    }
                    assert(longer.skip(1).map_values(|f: (usize, String)| f.1)
                        == filled.skip(1).map_values(|f: (usize, String)| f.1).push(text));
                    filled = longer;
                }
                used_count = used_count + n;
                ready.push(text);
            },
            Err(e) => {
                assert(answers(
                    *replace,
                    command@[i as int],
                    args@.skip(used_count as int),
                    Err(e),
                ));
                return Err(ExternalError::Placeholder(e));
            },
        }
        i = i + 1;
    }
    if used_count < args.len() {
        return Err(ExternalError::TooManyArguments);
    }
    Ok(ExternalCommand { program, args: ready })
}

proof fn lemma_used_push(filled: Seq<(usize, String)>, next: (usize, String), n: int)
    requires
        0 <= n <= filled.len(),
    ensures
        used(filled.push(next), n) == used(filled, n),
        used(filled, n) >= 0,
    decreases n,
{
    if n > 0 {
        lemma_used_push(filled, next, n - 1);
    }
}

impl<E> ExternalError<E> {
    /// The text of an error that the placeholders are not to blame for.
    pub open spec fn text(self) -> Option<Seq<char>> {
        match self {
            ExternalError::InvalidCommand => Some("Invalid command: []"@),
            ExternalError::NotEnoughArguments => Some("Not enough arguments provided for command"@),
            ExternalError::TooManyArguments => Some("Too many arguments provided for command"@),
            ExternalError::Placeholder(_) => None,
        }
    }

    /// The text of an error that the placeholders are not to blame for; the
    /// error of a placeholder has its own.
    pub fn message(&self) -> (r: Option<String>)
        ensures
            match r {
                Some(s) => self.text() == Some(s@),
                None => self.text() is None,
            },
    {
        match self {
            ExternalError::InvalidCommand => Some(String::from_str("Invalid command: []")),
            ExternalError::NotEnoughArguments => Some(
                String::from_str("Not enough arguments provided for command"),
            ),
            ExternalError::TooManyArguments => Some(
                String::from_str("Too many arguments provided for command"),
            ),
            ExternalError::Placeholder(_) => None,
        }
    }
}

/// How an external command ended.
pub enum Exit {
    /// It did not start; the system's error, in its debug form.
    NotStarted { error: String },
    Ended { success: bool, code: Option<i32>, stdout: String, stderr: String },
}

/// The message for a command that ended with a failure.
pub open spec fn failure_text(
    code: Option<i32>,
    stdout: Seq<char>,
    stderr: Seq<char>,
) -> Seq<char> {
    "External command failed: exit code: '"@ + (match code {
        Some(c) => text::signed_decimal(c as int),
        None => "-"@,
    }) + "', stdout: '"@ + text::trimmed(stdout) + "', stderr: '"@ + text::trimmed(stderr) + "'"@
}

/// What comes of the end of a command.
pub open spec fn comes_of(exit: Exit, r: Result<(), String>) -> bool {
    match (exit, r) {
        (Exit::Ended { success, .. }, Ok(_)) => success,
        (Exit::Ended { success, code, stdout, stderr }, Err(message)) => !success && message@
            == failure_text(code, stdout@, stderr@),
        (Exit::NotStarted { error }, Err(message)) => message@
            == "Unexpected error when executing external command: "@ + error@,
        (Exit::NotStarted { .. }, Ok(_)) => false,
    }
}

/// Tells whether a command succeeded, and if not what to say of it.
pub fn outcome(exit: &Exit) -> (r: Result<(), String>)
    ensures
        comes_of(*exit, r),
        match (*exit, r) {
            (Exit::Ended { success, .. }, Ok(_)) => success,
            (Exit::Ended { success, code, stdout, stderr }, Err(message)) => !success && message@
                == failure_text(code, stdout@, stderr@),
            (Exit::NotStarted { error }, Err(message)) => message@
                == "Unexpected error when executing external command: "@ + error@,
            (Exit::NotStarted { .. }, Ok(_)) => false,
        },
{
    match exit {
        Exit::NotStarted { error } => {
            let mut s = String::from_str("Unexpected error when executing external command: ");
            s.append(error.as_str());
            Err(s)
        },
        Exit::Ended { success, code, stdout, stderr } => {
            if *success {
                return Ok(());
            }
            let mut s = String::from_str("External command failed: exit code: '");
            match code {
                Some(c) => s.append(text::to_signed_decimal(*c).as_str()),
                None => s.append("-"),
            }
            s.append("', stdout: '");
            s.append(text::trim(stdout.as_str()).as_str());
            s.append("', stderr: '");
            s.append(text::trim(stderr.as_str()).as_str());
            s.append("'");
            Err(s)
        },
    }
}

/// What the environment tells of the current song.
pub struct CurrentSong {
    pub file: String,
    /// Each tag with the last of its values.
    pub metadata: Vec<(String, String)>,
    pub duration: Option<String>,
    pub has_lrc: bool,
    pub lrc_path: Option<String>,
}

/// A list of variables by their texts.
pub open spec fn env_view(env: Seq<(String, String)>) -> Seq<(Seq<char>, Seq<char>)> {
    env.map_values(|e: (String, String)| (e.0@, e.1@))
}

/// The tags as variables: upper-case names.
pub open spec fn tag_vars(metadata: Seq<(String, String)>) -> Seq<(Seq<char>, Seq<char>)> {
    metadata.map_values(
        |e: (String, String)| (text::ascii_uppercase(e.0@), e.1@),
    )
}

pub open spec fn or_empty(s: Option<String>) -> Seq<char> {
    match s {
        Some(s) => s@,
        None => Seq::empty(),
    }
}

/// The variables of the current song.
pub open spec fn song_vars(song: CurrentSong) -> Seq<(Seq<char>, Seq<char>)> {
    seq![("CURRENT_SONG"@, song.file@)] + tag_vars(song.metadata@) + seq![
        ("DURATION"@, or_empty(song.duration)),
        (
            "HAS_LRC"@,
            if song.has_lrc {
                "true"@
            } else {
                "false"@
            },
        ),
        ("LRC_FILE"@, or_empty(song.lrc_path)),
        ("FILE"@, song.file@),
    ]
}

/// The variable of the selected songs, one to a line; none where there is
/// nothing to say.
pub open spec fn selection_vars(selected: Seq<String>) -> Seq<(Seq<char>, Seq<char>)> {
    let lines = text::joined(text::views(selected), seq!['\n']);
    if lines.len() == 0 {
        Seq::empty()
    } else {
        seq![("SELECTED_SONGS"@, lines)]
    }
}

/// The variables of an external command.
pub open spec fn env_of(
    current: Option<CurrentSong>,
    pid: u32,
    selected: Seq<String>,
    version: Seq<char>,
    state: Seq<char>,
) -> Seq<(Seq<char>, Seq<char>)> {
    (match current {
        Some(song) => song_vars(song),
        None => Seq::empty(),
    }) + seq![("PID"@, text::decimal(pid as nat))] + selection_vars(selected) + seq![
        ("VERSION"@, version),
        ("STATE"@, state),
    ]
}

/// The environment of an external command.
pub fn create_env(
    current: Option<&CurrentSong>,
    pid: u32,
    selected_songs_paths: &Vec<String>,
    version: &str,
    state: &str,
) -> (r: Vec<(String, String)>)
    ensures
        env_view(r@) == env_of(
            match current {
                Some(song) => Some(*song),
                None => None,
            },
            pid,
            selected_songs_paths@,
            version@,
            state@,
        ),
        env_view(r@) == (match current {
            Some(song) => song_vars(*song),
            None => Seq::empty(),
        }) + seq![("PID"@, text::decimal(pid as nat))] + selection_vars(selected_songs_paths@)
            + seq![("VERSION"@, version@), ("STATE"@, state@)],
{
    let mut env: Vec<(String, String)> = Vec::new();
    if let Some(song) = current {
        add_song_vars(&mut env, song);
    }
    let ghost base = env_view(env@);
    push_var(&mut env, String::from_str("PID"), text::to_decimal(pid as u64));
    let newline = newline();
    let songs = text::join(selected_songs_paths, newline.as_str());
    if songs.as_str().unicode_len() > 0 {
        push_var(&mut env, String::from_str("SELECTED_SONGS"), songs);
    }
    assert(env_view(env@) == base + seq![("PID"@, text::decimal(pid as nat))] + selection_vars(
        selected_songs_paths@,
    ));
    push_var(&mut env, String::from_str("VERSION"), String::from_str(version));
    push_var(&mut env, String::from_str("STATE"), String::from_str(state));
    env
}

fn push_var(env: &mut Vec<(String, String)>, name: String, value: String)
    ensures
        env_view(final(env)@) == env_view(old(env)@).push((name@, value@)),
{
    env.push((name, value));
    assert(env_view(env@) == env_view(old(env)@).push((name@, value@)));
}

fn newline() -> (r: String)
    ensures
        r@ == seq!['\n'],
{
    let mut s = String::new();
    s.push('\n');
    s
}

fn text_or_empty(s: &Option<String>) -> (r: String)
    ensures
        r@ == or_empty(*s),
{
    match s {
        Some(s) => s.clone(),
        None => String::new(),
    }
}

fn add_song_vars(env: &mut Vec<(String, String)>, song: &CurrentSong)
    requires
        old(env)@.len() == 0,
    ensures
        env_view(final(env)@) == song_vars(*song),
{
    push_var(env, String::from_str("CURRENT_SONG"), song.file.clone());
    let mut i: usize = 0;
    while i < song.metadata.len()
        invariant
            i <= song.metadata.len(),
            env_view(env@) == seq![("CURRENT_SONG"@, song.file@)] + tag_vars(song.metadata@).take(
                i as int,
            ),
        decreases song.metadata.len() - i,
    {
        let key = text::to_ascii_uppercase(song.metadata[i].0.as_str());
        let value = song.metadata[i].1.clone();
        assert(tag_vars(song.metadata@)[i as int] == (key@, value@));
        push_var(env, key, value);
        i = i + 1;
    }
    push_var(env, String::from_str("DURATION"), text_or_empty(&song.duration));
    let has_lrc = if song.has_lrc {
        String::from_str("true")
    } else {
        String::from_str("false")
    };
    push_var(env, String::from_str("HAS_LRC"), has_lrc);
    push_var(env, String::from_str("LRC_FILE"), text_or_empty(&song.lrc_path));
    push_var(env, String::from_str("FILE"), song.file.clone());
}

} // verus!
