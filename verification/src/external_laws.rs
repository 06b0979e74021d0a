//! What external commands are given, and what is said of them.

use crate::external;
use crate::external::{CurrentSong, Exit, ExternalCommand, ExternalError};
use crate::text;
use vstd::prelude::*;

verus! {

/// The arguments are used one after the other: every part of a command line uses
/// those right behind the ones that the parts before it have used.
pub proof fn law_arguments_are_used_in_order(filled: Seq<(usize, String)>, n: int)
    requires
        0 <= n < filled.len(),
    ensures
        external::used(filled, 0) == 0,
        external::used(filled, n + 1) - external::used(filled, n) == filled[n].0,
{
}

/// `replace` has filled in the placeholders of `part` with the arguments from `from`
/// on, used `filled.0` of them, and made `filled.1` of the part.
pub open spec fn filled_from<E, F: Fn(&String, &[String]) -> Result<(usize, String), E>>(
    replace: F,
    part: String,
    args: Seq<String>,
    from: int,
    filled: (usize, String),
) -> bool {
    0 <= from <= args.len() && exists|values: &[String]|
        values@ == args.skip(from) && #[trigger] call_ensures(
            replace,
            (&part, values),
            Ok::<(usize, String), E>(filled),
        )
}

/// Each part of a command has used so many arguments, and become such a text.
pub open spec fn all_filled<E, F: Fn(&String, &[String]) -> Result<(usize, String), E>>(
    replace: F,
    command: Seq<String>,
    args: Seq<String>,
    filled: Seq<(usize, String)>,
    from: Seq<int>,
) -> bool {
    &&& from.len() == filled.len() + 1
    &&& from[0] == 0
    &&& forall|i: int|
        0 <= i < filled.len() ==> filled_from(replace, command[i], args, from[i], #[trigger] filled[i])
    &&& forall|i: int|
        0 <= i < filled.len() ==> from[i + 1] == from[i] + (#[trigger] filled[i]).0
}

/// A command that is ready has all of its parts filled in, in order: the first is
/// the program, the others are its arguments. No argument that was given is left.
pub proof fn law_a_ready_command_is_filled_in<
    E,
    F: Fn(&String, &[String]) -> Result<(usize, String), E>,
>(
    replace: F,
    command: Seq<String>,
    args: Seq<String>,
    ready: ExternalCommand,
)
    requires
        external::prepares(replace, command, args, Ok::<ExternalCommand, ExternalError<E>>(ready)),
    ensures
        command.len() > 0,
        ready.args@.len() == command.len() - 1,
        exists|filled: Seq<(usize, String)>, from: Seq<int>|
            {
                &&& #[trigger] all_filled(replace, command, args, filled, from)
                &&& filled.len() == command.len()
                &&& from.last() >= args.len()
                &&& filled[0].1 == ready.program
                &&& forall|i: int|
                    0 <= i < ready.args@.len() ==> #[trigger] ready.args@[i] == filled[i + 1].1
            },
{
    let filled = choose|filled: Seq<(usize, String)>|
        {
            &&& #[trigger] external::fills(replace, command, args, filled)
            &&& filled.len() == command.len() > 0
            &&& external::used(filled, filled.len() as int) >= args.len()
            &&& ready.program == filled[0].1
            &&& ready.args@ == filled.skip(1).map_values(|f: (usize, String)| f.1)
        };
    lemma_all_filled(replace, command, args, filled);
}

/// Where each part begins to use arguments.
spec fn starts(filled: Seq<(usize, String)>) -> Seq<int> {
    Seq::new(filled.len() + 1, |i: int| external::used(filled, i))
}

proof fn lemma_all_filled<E, F: Fn(&String, &[String]) -> Result<(usize, String), E>>(
    replace: F,
    command: Seq<String>,
    args: Seq<String>,
    filled: Seq<(usize, String)>,
)
    requires
        external::fills(replace, command, args, filled),
    ensures
        all_filled(replace, command, args, filled, starts(filled)),
        starts(filled).last() == external::used(filled, filled.len() as int),
{
    let from = starts(filled);
    assert forall|i: int| 0 <= i < filled.len() implies filled_from(
        replace,
        command[i],
        args,
        from[i],
        #[trigger] filled[i],
    ) by {
        assert(external::fills_part(replace, command, args, filled, i));
        lemma_used_is_not_negative(filled, i);
    }
}

proof fn lemma_used_is_not_negative(filled: Seq<(usize, String)>, n: int)
    requires
        0 <= n <= filled.len(),
    ensures
        external::used(filled, n) >= 0,
    decreases n,
{
    if n > 0 {
        lemma_used_is_not_negative(filled, n - 1);
    }
}

/// So many parts of a command have been filled in, and have used so many arguments.
pub open spec fn has_used<E, F: Fn(&String, &[String]) -> Result<(usize, String), E>>(
    replace: F,
    command: Seq<String>,
    args: Seq<String>,
    parts: int,
    count: int,
) -> bool {
    exists|filled: Seq<(usize, String)>, from: Seq<int>| #[trigger]
        all_filled(replace, command, args, filled, from) && filled.len() == parts && from.last()
            == count
}

/// Arguments are left over if all parts together have used fewer than there are, and
/// there are not enough if parts are left when more than there are were used. Without
/// parts there is no command.
#[verifier::rlimit(60)]
pub proof fn law_arguments_have_to_fit<
    E,
    F: Fn(&String, &[String]) -> Result<(usize, String), E>,
>(
    replace: F,
    command: Seq<String>,
    args: Seq<String>,
    r: Result<ExternalCommand, ExternalError<E>>,
)
    requires
        external::prepares(replace, command, args, r),
    ensures
        command.len() == 0 <==> r == Err::<ExternalCommand, ExternalError<E>>(
            ExternalError::InvalidCommand,
        ),
        match r {
            Ok(_) => exists|count: int|
                count >= args.len() && #[trigger] has_used(
                    replace,
                    command,
                    args,
                    command.len() as int,
                    count,
                ),
            Err(ExternalError::InvalidCommand) => command.len() == 0,
            Err(ExternalError::TooManyArguments) => exists|count: int|
                count < args.len() && #[trigger] has_used(
                    replace,
                    command,
                    args,
                    command.len() as int,
                    count,
                ),
            Err(ExternalError::NotEnoughArguments) => exists|parts: int, count: int|
                parts < command.len() && count > args.len() && #[trigger] has_used(
                    replace,
                    command,
                    args,
                    parts,
                    count,
                ),
            Err(ExternalError::Placeholder(_)) => exists|parts: int, count: int|
                parts < command.len() && count <= args.len() && #[trigger] has_used(
                    replace,
                    command,
                    args,
                    parts,
                    count,
                ),
        },
{
    if r != Err::<ExternalCommand, ExternalError<E>>(ExternalError::InvalidCommand) {
        let filled = match r {
            Ok(ready) => choose|filled: Seq<(usize, String)>|
                {
                    &&& #[trigger] external::fills(replace, command, args, filled)
                    &&& filled.len() == command.len() > 0
                    &&& external::used(filled, filled.len() as int) >= args.len()
                    &&& ready.program == filled[0].1
                    &&& ready.args@ == filled.skip(1).map_values(|f: (usize, String)| f.1)
                },
            Err(ExternalError::NotEnoughArguments) => choose|filled: Seq<(usize, String)>|
                {
                    &&& #[trigger] external::fills(replace, command, args, filled)
                    &&& 0 < filled.len() < command.len()
                    &&& external::used(filled, filled.len() as int) > args.len()
                },
            Err(ExternalError::TooManyArguments) => choose|filled: Seq<(usize, String)>|
                {
                    &&& #[trigger] external::fills(replace, command, args, filled)
                    &&& filled.len() == command.len() > 0
                    &&& external::used(filled, filled.len() as int) < args.len()
                },
            Err(ExternalError::Placeholder(e)) => choose|filled: Seq<(usize, String)>|
                {
                    &&& #[trigger] external::fills(replace, command, args, filled)
                    &&& filled.len() < command.len()
                    &&& external::used(filled, filled.len() as int) <= args.len()
                    &&& external::answers(
                        replace,
                        command[filled.len() as int],
                        args.skip(external::used(filled, filled.len() as int)),
                        Err(e),
                    )
                },
            _ => Seq::empty(),
        };
        lemma_all_filled(replace, command, args, filled);
        assert(has_used(
            replace,
            command,
            args,
            filled.len() as int,
            external::used(filled, filled.len() as int),
        ));
    }
}

/// What is said of a command that cannot run.
pub proof fn law_errors_of_commands<E>(e: E)
    ensures
        ExternalError::<E>::InvalidCommand.text() == Some("Invalid command: []"@),
        ExternalError::<E>::NotEnoughArguments.text() == Some(
            "Not enough arguments provided for command"@,
        ),
        ExternalError::<E>::TooManyArguments.text() == Some(
            "Too many arguments provided for command"@,
        ),
        ExternalError::Placeholder(e).text() is None,
{
}

/// `name` has the value `value`: no later entry gives it another one.
pub open spec fn is_set(
    env: Seq<(Seq<char>, Seq<char>)>,
    name: Seq<char>,
    value: Seq<char>,
) -> bool {
    exists|i: int| #[trigger] is_set_at(env, name, value, i)
}

pub open spec fn is_set_at(
    env: Seq<(Seq<char>, Seq<char>)>,
    name: Seq<char>,
    value: Seq<char>,
    i: int,
) -> bool {
    &&& 0 <= i < env.len()
    &&& env[i] == (name, value)
    &&& forall|j: int| i < j < env.len() ==> (#[trigger] env[j]).0 != name
}

/// `name` has no value.
pub open spec fn is_unset(env: Seq<(Seq<char>, Seq<char>)>, name: Seq<char>) -> bool {
    forall|i: int| 0 <= i < env.len() ==> (#[trigger] env[i]).0 != name
}

proof fn lemma_names_differ()
    ensures
        "DURATION"@.len() == 8 && "DURATION"@[0] == 'D',
        "HAS_LRC"@.len() == 7 && "HAS_LRC"@[0] == 'H',
        "LRC_FILE"@.len() == 8 && "LRC_FILE"@[0] == 'L',
        "FILE"@.len() == 4 && "FILE"@[0] == 'F',
        "PID"@.len() == 3 && "PID"@[0] == 'P',
        "SELECTED_SONGS"@.len() == 14 && "SELECTED_SONGS"@[0] == 'S',
        "VERSION"@.len() == 7 && "VERSION"@[0] == 'V',
        "STATE"@.len() == 5 && "STATE"@[0] == 'S',
        "CURRENT_SONG"@.len() == 12 && "CURRENT_SONG"@[0] == 'C',
{
    reveal_strlit("DURATION");
    reveal_strlit("HAS_LRC");
    reveal_strlit("LRC_FILE");
    reveal_strlit("FILE");
    reveal_strlit("PID");
    reveal_strlit("SELECTED_SONGS");
    reveal_strlit("VERSION");
    reveal_strlit("STATE");
    reveal_strlit("CURRENT_SONG");
}

/// A command is told, under these names, the process id in plain digits, the
/// version, the state, and the selected songs, one to a line, if there are any.
#[verifier::rlimit(60)]
pub proof fn law_what_every_command_is_told(
    current: Option<CurrentSong>,
    pid: u32,
    selected: Seq<String>,
    version: Seq<char>,
    state: Seq<char>,
)
    ensures
        ({
            let env = external::env_of(current, pid, selected, version, state);
            let lines = text::joined(text::views(selected), seq!['\n']);
            &&& is_set(env, "VERSION"@, version)
            &&& is_set(env, "STATE"@, state)
            &&& is_set(env, "PID"@, text::decimal(pid as nat))
            &&& text::u32_value(text::decimal(pid as nat)) == Some(pid)
            &&& lines.len() > 0 ==> is_set(env, "SELECTED_SONGS"@, lines)
            &&& lines.len() == 0 && current is None ==> is_unset(env, "SELECTED_SONGS"@)
            &&& current is None ==> is_unset(env, "CURRENT_SONG"@) && is_unset(env, "FILE"@)
                && is_unset(env, "HAS_LRC"@)
        }),
{
    lemma_names_differ();
    text::law_decimal_reads_back(pid);
    let env = external::env_of(current, pid, selected, version, state);
    let lines = text::joined(text::views(selected), seq!['\n']);
    let n = env.len() as int;
    assert(is_set_at(env, "STATE"@, state, n - 1));
    assert(is_set_at(env, "VERSION"@, version, n - 2));
    if lines.len() > 0 {
        assert(is_set_at(env, "SELECTED_SONGS"@, lines, n - 3));
        assert(is_set_at(env, "PID"@, text::decimal(pid as nat), n - 4));
    } else {
        assert(is_set_at(env, "PID"@, text::decimal(pid as nat), n - 3));
    }
}

/// Of the current song a command is told the file, under two names, the duration,
/// whether there are lyrics, and where; what is not known is empty. Every tag is told
/// under its name in capitals.
#[verifier::rlimit(60)]
pub proof fn law_what_is_told_of_the_current_song(
    song: CurrentSong,
    pid: u32,
    selected: Seq<String>,
    version: Seq<char>,
    state: Seq<char>,
    tag: int,
)
    ensures
        ({
            let env = external::env_of(Some(song), pid, selected, version, state);
            &&& env[0] == ("CURRENT_SONG"@, song.file@)
            &&& is_set(env, "FILE"@, song.file@)
            &&& is_set(
                env,
                "DURATION"@,
                match song.duration {
                    Some(d) => d@,
                    None => Seq::empty(),
                },
            )
            &&& song.has_lrc ==> is_set(env, "HAS_LRC"@, "true"@)
            &&& !song.has_lrc ==> is_set(env, "HAS_LRC"@, "false"@)
            &&& is_set(
                env,
                "LRC_FILE"@,
                match song.lrc_path {
                    Some(p) => p@,
                    None => Seq::empty(),
                },
            )
            &&& 0 <= tag < song.metadata@.len() ==> env[tag + 1] == (
                text::ascii_uppercase(song.metadata@[tag].0@),
                song.metadata@[tag].1@,
            )
        }),
{
    lemma_names_differ();
    let env = external::env_of(Some(song), pid, selected, version, state);
    let vars = external::song_vars(song);
    let n = vars.len() as int;
    assert forall|i: int| 0 <= i < n implies env[i] == #[trigger] vars[i] by {}
    assert(vars[n - 1] == ("FILE"@, song.file@));
    assert(is_set_at(env, "FILE"@, song.file@, n - 1));
    assert(vars[n - 2] == ("LRC_FILE"@, external::or_empty(song.lrc_path)));
    assert(is_set_at(env, "LRC_FILE"@, external::or_empty(song.lrc_path), n - 2));
    let has = if song.has_lrc {
        "true"@
    } else {
        "false"@
    };
    assert(vars[n - 3] == ("HAS_LRC"@, has));
    assert(is_set_at(env, "HAS_LRC"@, has, n - 3));
    assert(vars[n - 4] == ("DURATION"@, external::or_empty(song.duration)));
    assert(is_set_at(env, "DURATION"@, external::or_empty(song.duration), n - 4));
    assert(vars[0] == ("CURRENT_SONG"@, song.file@));
    if 0 <= tag < song.metadata@.len() {
        assert(vars[tag + 1] == external::tag_vars(song.metadata@)[tag]);
    }
}

/// A command that has ended well is not complained of. One that has not is, with
/// its exit code and what it has written, blanks around that aside; one that did
/// not start, with the reason.
pub proof fn law_failures_are_told(
    code: i32,
    out: String,
    err: String,
    reason: String,
    r: Result<(), String>,
)
    ensures
        external::comes_of(
            Exit::Ended { success: true, code: Some(code), stdout: out, stderr: err },
            r,
        ) ==> r is Ok,
        external::comes_of(
            Exit::Ended { success: false, code: Some(code), stdout: out, stderr: err },
            r,
        ) ==> (r matches Err(line) && line@ == "External command failed: exit code: '"@
            + text::signed_decimal(code as int) + "', stdout: '"@ + text::trimmed(out@)
            + "', stderr: '"@ + text::trimmed(err@) + "'"@),
        external::comes_of(
            Exit::Ended { success: false, code: None, stdout: out, stderr: err },
            r,
        ) ==> (r matches Err(line) && line@ == "External command failed: exit code: '"@ + "-"@
            + "', stdout: '"@ + text::trimmed(out@) + "', stderr: '"@ + text::trimmed(err@) + "'"@),
        external::comes_of(Exit::NotStarted { error: reason }, r) ==> (r matches Err(line) && line@
            == "Unexpected error when executing external command: "@ + reason@),
{
}

} // verus!
