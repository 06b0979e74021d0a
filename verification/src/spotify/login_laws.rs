//! The way to a client of the Web API, and to a token for it.

use crate::path;
use crate::path_laws;
use crate::spotify::auth;
use crate::spotify::auth::{
    ApiToken, AuthError, AuthFiles, ClientSettings, FoundCreds, Instant, LoginStep, SetupReport,
    SetupStep, SpotifyCreds,
};
use crate::text;
use vstd::prelude::*;

verus! {

/// `file` is the file with this name in the directory `dir`.
pub open spec fn is_file_in(file: Seq<char>, dir: Seq<char>, name: Seq<char>) -> bool {
    path::components(file) == path::components(dir).push(name) && path::lies_under(file, dir)
}

proof fn lemma_file_in(dir: Seq<char>, name: Seq<char>)
    requires
        dir.len() > 0,
        path_laws::is_name(name),
    ensures
        is_file_in(path::with_name(dir, name), dir, name),
{
    path_laws::law_a_name_goes_into_its_directory(dir, name);
    let all = path::components(path::with_name(dir, name));
    let base = path::components(dir);
    assert(all.take(base.len() as int) =~= base);
}

proof fn lemma_file_names()
    ensures
        path_laws::is_name("spotify_token.json"@),
        path_laws::is_name("spotify_creds.json"@),
{
    reveal_strlit("spotify_token.json");
    reveal_strlit("spotify_creds.json");
    assert("spotify_token.json"@.len() == 18);
    assert("spotify_creds.json"@.len() == 18);
}

/// With both halves of the credentials in the environment a client is made of these
/// at once. Otherwise those in the file of the configuration directory are looked
/// for. Without such a directory nothing can be set up. The token is looked for in
/// another file of that directory.
pub proof fn law_the_setup_starts(
    config_dir: Option<String>,
    found: FoundCreds,
    r: Result<SetupStep, AuthError>,
)
    requires
        SetupStep::starts(config_dir, found, r),
    ensures
        config_dir is None <==> r is Err,
        r matches Err(e) ==> e.text() == "Failed to get config directory"@,
        r matches Ok(step) ==> (config_dir->0@.len() > 0 ==> (step.token_path() matches Some(p)
            && is_file_in(p, config_dir->0@, "spotify_token.json"@))),
        r matches Ok(step) ==> match (found.client_id, found.client_secret) {
            (Some(id), Some(secret)) => step matches SetupStep::CreateClient { settings, .. }
                && settings.creds.client_id == id && settings.creds.client_secret == secret,
            _ => {
                &&& step matches SetupStep::CheckCreds { files, found: f }
                &&& f == found
                &&& config_dir->0@.len() > 0 ==> is_file_in(
                    files.creds@,
                    config_dir->0@,
                    "spotify_creds.json"@,
                )
            },
        },
{
    lemma_file_names();
    match config_dir {
        Some(dir) => {
            if dir@.len() > 0 {
                lemma_file_in(dir@, "spotify_token.json"@);
                lemma_file_in(dir@, "spotify_creds.json"@);
            }
        },
        None => {},
    }
}

/// Credentials in a file are used for what the environment leaves open; a user
/// without such a file, or with an empty one, is asked. When the client is made, its
/// token is looked for, and read where there is one.
pub proof fn law_the_way_of_the_setup(
    files: AuthFiles,
    found: FoundCreds,
    creds: SpotifyCreds,
    settings: ClientSettings,
    path: String,
    a: SetupStep,
    b: SetupStep,
    c: SetupStep,
    d: SetupStep,
    e: SetupStep,
    f: SetupStep,
)
    requires
        (SetupStep::CheckCreds { files, found }).goes(SetupReport::Exists(true), a),
        (SetupStep::CheckCreds { files, found }).goes(SetupReport::Exists(false), b),
        (SetupStep::ReadCreds { files, found }).goes(SetupReport::Creds(Some(creds)), c),
        (SetupStep::ReadCreds { files, found }).goes(SetupReport::Creds(None), d),
        (SetupStep::CreateClient { settings, token_path: path }).goes(SetupReport::Done, e),
        (SetupStep::CheckToken { path }).goes(SetupReport::Exists(true), f),
    ensures
        a == (SetupStep::ReadCreds { files, found }),
        b == (SetupStep::AskId { files }),
        c matches SetupStep::CreateClient { settings: s, token_path } && {
            &&& token_path == files.token
            &&& s.creds.client_id == match found.client_id {
                Some(id) => id,
                None => creds.client_id,
            }
            &&& s.creds.client_secret == match found.client_secret {
                Some(secret) => secret,
                None => creds.client_secret,
            }
        },
        d == (SetupStep::AskId { files }),
        e == (SetupStep::CheckToken { path }),
        f == (SetupStep::LoadToken { path }),
{
}

/// Every step of the setup takes what can come of it.
pub proof fn law_the_setup_takes_every_report(
    step: SetupStep,
    exists: bool,
    creds: Option<SpotifyCreds>,
    line: String,
)
    ensures
        step is CheckCreds || step is CheckToken ==> step.accepts(SetupReport::Exists(exists)),
        step is ReadCreds ==> step.accepts(SetupReport::Creds(creds)),
        step is AskId || step is AskSecret ==> step.accepts(SetupReport::Line(line)),
        step is SaveCreds || step is CreateClient ==> step.accepts(SetupReport::Done),
        step is LoadToken ==> step.accepts(SetupReport::Text(line)),
{
}

/// A client is made with its credentials, is sent back to this machine, and may see
/// and change what is played, see and change the library, see playlists, and play.
pub proof fn law_what_a_client_is_made_with(settings: ClientSettings, creds: SpotifyCreds)
    requires
        settings.is_for(creds),
    ensures
        settings.creds == creds,
        settings.redirect_uri@ == "http://localhost:8888/callback"@,
        ({
            let scopes = text::views(settings.scopes@);
            &&& scopes.len() == 8
            &&& scopes.contains("user-read-playback-state"@)
            &&& scopes.contains("user-modify-playback-state"@)
            &&& scopes.contains("user-read-currently-playing"@)
            &&& scopes.contains("user-library-read"@)
            &&& scopes.contains("user-library-modify"@)
            &&& scopes.contains("playlist-read-private"@)
            &&& scopes.contains("playlist-read-collaborative"@)
            &&& scopes.contains("streaming"@)
        }),
{
    let scopes = text::views(settings.scopes@);
    assert(scopes[0] == "user-read-playback-state"@);
    assert(scopes[1] == "user-modify-playback-state"@);
    assert(scopes[2] == "user-read-currently-playing"@);
    assert(scopes[3] == "user-library-read"@);
    assert(scopes[4] == "user-library-modify"@);
    assert(scopes[5] == "playlist-read-private"@);
    assert(scopes[6] == "playlist-read-collaborative"@);
    assert(scopes[7] == "streaming"@);
}

/// A code that was found is asked a token for; without one the login fails.
pub proof fn law_a_code_is_asked_a_token_for(
    code: Option<Seq<char>>,
    r: Result<LoginStep, AuthError>,
)
    requires
        LoginStep::comes_of(code, r),
    ensures
        match code {
            Some(found) => r matches Ok(LoginStep::RequestToken { code }) && code@ == found,
            None => r matches Err(e) && e.text() == "Failed to parse response code"@,
        },
{
}

/// A token that was brought is saved in its file of the configuration directory;
/// without such a directory the login fails, and without a token it is over.
pub proof fn law_a_token_is_saved(
    token: Option<ApiToken>,
    config_dir: Option<String>,
    r: Result<LoginStep, AuthError>,
)
    requires
        LoginStep::follows(token, config_dir, r),
    ensures
        token is None ==> (r matches Ok(step) && step is Finished),
        token is Some && config_dir is None ==> (r matches Err(e) && e.text()
            == "Failed to get config directory"@),
        token is Some ==> (config_dir matches Some(dir) ==> (dir@.len() > 0 ==> (r matches Ok(
            LoginStep::SaveToken { path: p, .. },
        ) && is_file_in(p@, dir@, "spotify_token.json"@)))),
{
    lemma_file_names();
    match config_dir {
        Some(dir) => {
            if dir@.len() > 0 {
                lemma_file_in(dir@, "spotify_token.json"@);
            }
        },
        None => {},
    }
}

/// A time of the years 0 to 9999, and of a token that can be used for less than a
/// hundred million years, is one that can be counted.
pub proof fn law_usual_times_can_be_counted(t: Instant, token: ApiToken)
    requires
        -62167219200 <= t.secs <= 253402300799,
        t.nanos < 1_000_000_000,
        0 <= token.expires_in <= 3_000_000_000_000_000,
        token.expires_at == Some(t) || token.expires_at is None,
    ensures
        t.well_formed(),
        token.well_formed(),
{
}

} // verus!
