//! Logging in: where credentials and tokens come from and go to.

use crate::path;
use crate::text;
use rspotify::prelude::OAuthClient;
use vstd::prelude::*;

verus! {

/// Where Spotify sends the user back to.
pub const DEFAULT_REDIRECT_URI: &'static str = "http://localhost:8888/callback";

/// Why logging in failed.
#[derive(Clone, Copy, Debug, PartialEq, Eq, Structural)]
pub enum AuthError {
    NoConfigDir,
    NoResponseCode,
}

impl AuthError {
    /// The text of the error.
    pub open spec fn text(self) -> Seq<char> {
        match self {
            AuthError::NoConfigDir => "Failed to get config directory"@,
            AuthError::NoResponseCode => "Failed to parse response code"@,
        }
    }

    /// The text of the error.
    pub fn message(&self) -> (r: String)
        ensures
            r@ == self.text(),
    {
        match self {
            AuthError::NoConfigDir => String::from_str("Failed to get config directory"),
            AuthError::NoResponseCode => String::from_str("Failed to parse response code"),
        }
    }
}

/// The file for the token.
pub fn get_token_path(config_dir: Option<String>) -> (r: Result<String, AuthError>)
    ensures
        match r {
            Ok(p) => config_dir matches Some(dir) && p@ == path::with_name(
                dir@,
                "spotify_token.json"@,
            ),
            Err(e) => config_dir is None && e == AuthError::NoConfigDir,
        },
{
    match config_dir {
        Some(dir) => {
            proof {
                reveal_strlit("spotify_token.json");
            }
            Ok(path::push_name(dir, "spotify_token.json"))
        },
        None => Err(AuthError::NoConfigDir),
    }
}

/// The file for the credentials.
pub fn get_creds_path(config_dir: Option<String>) -> (r: Result<String, AuthError>)
    ensures
        match r {
            Ok(p) => config_dir matches Some(dir) && p@ == path::with_name(
                dir@,
                "spotify_creds.json"@,
            ),
            Err(e) => config_dir is None && e == AuthError::NoConfigDir,
        },
{
    match config_dir {
        Some(dir) => {
            proof {
                reveal_strlit("spotify_creds.json");
            }
            Ok(path::push_name(dir, "spotify_creds.json"))
        },
        None => Err(AuthError::NoConfigDir),
    }
}

/// What identifies the application.
#[derive(Debug)]
pub struct SpotifyCreds {
    pub client_id: String,
    pub client_secret: String,
}

/// As much of it as is known.
#[derive(Debug)]
pub struct FoundCreds {
    pub client_id: Option<String>,
    pub client_secret: Option<String>,
}

impl FoundCreds {
    pub open spec fn is_complete(self) -> bool {
        self.client_id is Some && self.client_secret is Some
    }

    /// What is missing is as in `creds`.
    pub open spec fn filled_from(self, creds: SpotifyCreds) -> SpotifyCreds {
        SpotifyCreds {
            client_id: match self.client_id {
                Some(id) => id,
                None => creds.client_id,
            },
            client_secret: match self.client_secret {
                Some(secret) => secret,
                None => creds.client_secret,
            },
        }
    }
}

/// Why a text is not JSON for a value, or a value could not be written.
#[verifier::external_type_specification]
#[verifier::external_body]
pub struct ExJsonError(serde_json::Error);

/// A point in time: seconds since the beginning of 1970, and nanoseconds on top of
/// them. In a leap second these go on beyond a second.
#[derive(Clone, Copy, Debug, PartialEq, Eq, Structural)]
pub struct Instant {
    pub secs: i64,
    pub nanos: u32,
}

/// The first second of the year -262143.
pub const FIRST_SECOND: i64 = -8334601228800;

/// The last second of the year 262142.
pub const LAST_SECOND: i64 = 8210266876799;

/// The longest span, in seconds, whose milliseconds can be counted.
pub const LONGEST_SPAN: i64 = 9223372036854775;

impl Instant {
    /// The point in time is one that a calendar names.
    pub open spec fn well_formed(self) -> bool {
        &&& FIRST_SECOND <= self.secs <= LAST_SECOND
        &&& self.nanos < 1_000_000_000 || self.nanos < 2_000_000_000 && self.secs as int % 60 == 59
    }

    /// Whether the point in time is one that a calendar names.
    pub fn is_valid(&self) -> (r: bool)
        ensures
            r == self.well_formed(),
    {
        if self.secs < FIRST_SECOND || self.secs > LAST_SECOND {
            return false;
        }
        let since_first: u64 = (self.secs - FIRST_SECOND) as u64;
        self.nanos < 1_000_000_000 || self.nanos < 2_000_000_000 && since_first % 60 == 59
    }
}

/// A token that a user has got by logging in.
pub struct ApiToken {
    /// What to connect with.
    pub access_token: String,
    /// How long it can be used, in seconds.
    pub expires_in: i64,
    /// When that time is over.
    pub expires_at: Option<Instant>,
    /// What to get a new token with.
    pub refresh_token: Option<String>,
    /// What the token can be used for, in no particular order.
    pub scopes: Vec<String>,
}

/// What a token is, whatever the order of its scopes.
pub ghost struct TokenView {
    pub access_token: Seq<char>,
    pub expires_in: int,
    pub expires_at: Option<Instant>,
    pub refresh_token: Option<Seq<char>>,
    pub scopes: Set<Seq<char>>,
}

/// A text, if there is one.
pub open spec fn text_of(s: Option<String>) -> Option<Seq<char>> {
    match s {
        Some(s) => Some(s@),
        None => None,
    }
}

impl View for ApiToken {
    type V = TokenView;

    open spec fn view(&self) -> TokenView {
        TokenView {
            access_token: self.access_token@,
            expires_in: self.expires_in as int,
            expires_at: self.expires_at,
            refresh_token: text_of(self.refresh_token),
            scopes: text::views(self.scopes@).to_set(),
        }
    }
}

/// A text without blanks, and not the empty one.
pub open spec fn is_word(s: Seq<char>) -> bool {
    s.len() > 0 && forall|i: int| 0 <= i < s.len() ==> !text::is_space(#[trigger] s[i])
}

/// `word` stands in `s` between blanks or ends, from `i` on.
pub open spec fn has_word_at(s: Seq<char>, word: Seq<char>, i: int) -> bool {
    let end = i + word.len();
    &&& is_word(word)
    &&& 0 <= i
    &&& end <= s.len()
    &&& s.subrange(i, end) == word
    &&& i > 0 ==> text::is_space(s[i - 1])
    &&& end < s.len() ==> text::is_space(s[end])
}

/// The words that texts consist of.
pub open spec fn words_of(texts: Set<Seq<char>>) -> Set<Seq<char>> {
    Set::new(
        |word: Seq<char>|
            exists|s: Seq<char>, i: int| texts.contains(s) && #[trigger] has_word_at(s, word, i),
    )
}

impl TokenView {
    /// The token as its file gives it back: scopes are told apart by blanks.
    pub open spec fn saved(self) -> TokenView {
        TokenView { scopes: words_of(self.scopes), ..self }
    }

    /// The names of the scopes are words.
    pub open spec fn scopes_are_words(self) -> bool {
        forall|scope: Seq<char>| #[trigger] self.scopes.contains(scope) ==> is_word(scope)
    }
}

impl ApiToken {
    /// The times are ones that can be counted.
    pub open spec fn well_formed(self) -> bool {
        &&& -LONGEST_SPAN <= self.expires_in <= LONGEST_SPAN
        &&& self.expires_at matches Some(t) ==> t.well_formed()
    }

    /// Whether the times are ones that can be counted.
    pub fn is_valid(&self) -> (r: bool)
        ensures
            r == self.well_formed(),
    {
        let known = match &self.expires_at {
            Some(t) => t.is_valid(),
            None => true,
        };
        known && -LONGEST_SPAN <= self.expires_in && self.expires_in <= LONGEST_SPAN
    }
}

/// A file does not hold a token.
pub struct TokenError {
    pub cause: serde_json::Error,
}

/// The token that `json` is the text of, if it is the text of one.
pub uninterp spec fn saved_token(json: Seq<char>) -> Option<TokenView>;

/// Reads a token with `serde_json::from_str` into `rspotify::Token`.
///
/// Taken on trust: whether a text holds a token, and which one, depends on the
/// text alone, and the times in it are ones that can be counted.
#[verifier::external_body]
fn read_token(json: &str) -> (r: Result<ApiToken, serde_json::Error>)
    ensures
        match r {
            Ok(token) => saved_token(json@) == Some(token@) && token.well_formed(),
            Err(_) => saved_token(json@) is None,
        },
{
    let token = serde_json::from_str::<rspotify::Token>(json)?;
    Ok(ApiToken {
        access_token: token.access_token,
        expires_in: token.expires_in.num_seconds(),
        expires_at: token.expires_at.map(
            |t| Instant { secs: t.timestamp(), nanos: t.timestamp_subsec_nanos() },
        ),
        refresh_token: token.refresh_token,
        scopes: token.scopes.into_iter().collect(),
    })
}

/// Writes a token with `serde_json::to_string` of `rspotify::Token`.
///
/// Taken on trust: a token can always be written, and reading what was written
/// gives it again, but that the scopes are then told apart by blanks.
#[verifier::external_body]
fn write_token(token: &ApiToken) -> (r: Result<String, serde_json::Error>)
    requires
        token.well_formed(),
    ensures
        r is Ok,
        r matches Ok(json) ==> saved_token(json@) == Some(token@.saved()),
{
    let token = rspotify::Token {
        access_token: token.access_token.clone(),
        expires_in: chrono::TimeDelta::seconds(token.expires_in),
        expires_at: token.expires_at.and_then(
            |t| chrono::DateTime::from_timestamp(t.secs, t.nanos),
        ),
        refresh_token: token.refresh_token.clone(),
        scopes: token.scopes.iter().cloned().collect(),
    };
    serde_json::to_string(&token)
}

/// The token that a file holds.
pub fn token_of_file(json: &str) -> (r: Result<ApiToken, TokenError>)
    ensures
        match r {
            Ok(token) => saved_token(json@) == Some(token@) && token.well_formed(),
            Err(_) => saved_token(json@) is None,
        },
{
    match read_token(json) {
        Ok(token) => Ok(token),
        Err(cause) => Err(TokenError { cause }),
    }
}

/// The files that logging in leaves behind.
pub struct AuthFiles {
    /// The file for the credentials.
    pub creds: String,
    /// The file for the token.
    pub token: String,
}

/// What a client for the Web API is made with.
pub struct ClientSettings {
    pub creds: SpotifyCreds,
    pub redirect_uri: String,
    pub scopes: Vec<String>,
}

impl ClientSettings {
    /// These are the settings for the credentials `creds`.
    pub open spec fn is_for(self, creds: SpotifyCreds) -> bool {
        &&& self.creds == creds
        &&& self.redirect_uri@ == DEFAULT_REDIRECT_URI@
        &&& text::views(self.scopes@) == scope_names()
    }

    fn new(creds: SpotifyCreds) -> (r: ClientSettings)
        ensures
            r.is_for(creds),
    {
        ClientSettings {
            creds,
            redirect_uri: String::from_str(DEFAULT_REDIRECT_URI),
            scopes: client_scopes(),
        }
    }
}

/// What to do to get a client for the Web API.
pub enum SetupStep {
    /// Look whether the file for the credentials exists.
    CheckCreds { files: AuthFiles, found: FoundCreds },
    /// Read credentials from their file.
    ReadCreds { files: AuthFiles, found: FoundCreds },
    /// Print `missing_creds_lines`, and read a line.
    AskId { files: AuthFiles },
    /// Print `secret_line`, and read a line.
    AskSecret { files: AuthFiles, client_id: String },
    /// Write credentials to their file.
    SaveCreds { files: AuthFiles, creds: SpotifyCreds },
    /// Make a client with these settings; its token is in the file `token_path`.
    CreateClient { settings: ClientSettings, token_path: String },
    /// Look whether the file `path`, for the token, exists.
    CheckToken { path: String },
    /// Read the file `path`, for the token.
    LoadToken { path: String },
    /// The client is ready, with the token that was saved, if there is one.
    Ready(Option<ApiToken>),
    /// The file does not hold a token.
    BadToken(TokenError),
}

/// What came of a step that did not fail.
pub enum SetupReport {
    Exists(bool),
    /// The credentials in a file that has some.
    Creds(Option<SpotifyCreds>),
    Line(String),
    /// The text of a file.
    Text(String),
    Done,
}

impl SetupStep {
    /// `report` can be the outcome of this step.
    pub open spec fn accepts(self, report: SetupReport) -> bool {
        match self {
            SetupStep::CheckCreds { .. } | SetupStep::CheckToken { .. } => report is Exists,
            SetupStep::ReadCreds { .. } => report is Creds,
            SetupStep::AskId { .. } | SetupStep::AskSecret { .. } => report is Line,
            SetupStep::SaveCreds { .. } | SetupStep::CreateClient { .. } => report is Done,
            SetupStep::LoadToken { .. } => report is Text,
            SetupStep::Ready(_) | SetupStep::BadToken(_) => false,
        }
    }

    /// The file that the token is looked for in.
    pub open spec fn token_path(self) -> Option<Seq<char>> {
        match self {
            SetupStep::CheckCreds { files, .. } | SetupStep::ReadCreds { files, .. }
            | SetupStep::AskId { files } | SetupStep::AskSecret { files, .. }
            | SetupStep::SaveCreds { files, .. } => Some(files.token@),
            SetupStep::CreateClient { token_path, .. } => Some(token_path@),
            SetupStep::CheckToken { path } | SetupStep::LoadToken { path } => Some(path@),
            SetupStep::Ready(_) | SetupStep::BadToken(_) => None,
        }
    }

    /// This step makes a client for the credentials `creds`.
    pub open spec fn creates(self, creds: SpotifyCreds, path: String) -> bool {
        self matches SetupStep::CreateClient { settings, token_path } && settings.is_for(creds)
            && token_path == path
    }

    /// What comes after this step.
    pub open spec fn steps(self, report: SetupReport, after: SetupStep) -> bool {
        match (self, report) {
            (SetupStep::CheckCreds { files, found }, SetupReport::Exists(exists)) => after == (
            if exists {
                SetupStep::ReadCreds { files, found }
            } else {
                SetupStep::AskId { files }
            }),
            (SetupStep::ReadCreds { files, found }, SetupReport::Creds(creds)) => match creds {
                Some(creds) => after.creates(found.filled_from(creds), files.token),
                None => after == (SetupStep::AskId { files }),
            },
            (SetupStep::AskId { files }, SetupReport::Line(line)) => {
                &&& after matches SetupStep::AskSecret { files: same, client_id }
                &&& same == files
                &&& client_id@ == text::trimmed(line@)
            },
            (SetupStep::AskSecret { files, client_id }, SetupReport::Line(line)) => {
                &&& after matches SetupStep::SaveCreds { files: same, creds }
                &&& same == files
                &&& creds.client_id == client_id
                &&& creds.client_secret@ == text::trimmed(line@)
            },
            (SetupStep::SaveCreds { files, creds }, _) => after.creates(creds, files.token),
            (SetupStep::CreateClient { token_path, .. }, _) => after == (SetupStep::CheckToken {
                path: token_path,
            }),
            (SetupStep::CheckToken { path }, SetupReport::Exists(exists)) => if exists {
                after == (SetupStep::LoadToken { path })
            } else {
                after matches SetupStep::Ready(token) && token is None
            },
            (SetupStep::LoadToken { .. }, SetupReport::Text(json)) => match saved_token(json@) {
                Some(t) => after matches SetupStep::Ready(Some(token)) && token@ == t
                    && token.well_formed(),
                None => after is BadToken,
            },
            _ => false,
        }
    }

    /// The step is followed by `after`, if it can take the report at all.
    pub open spec fn goes(self, report: SetupReport, after: SetupStep) -> bool {
        self.accepts(report) ==> self.steps(report, after)
    }

    /// How the setup starts with what the environment says.
    pub open spec fn starts(
        config_dir: Option<String>,
        found: FoundCreds,
        r: Result<SetupStep, AuthError>,
    ) -> bool {
        match r {
            Ok(step) => {
                &&& config_dir matches Some(dir)
                &&& step.token_path() == Some(path::with_name(dir@, "spotify_token.json"@))
                &&& if found.is_complete() {
                    &&& step matches SetupStep::CreateClient { settings, .. }
                    &&& settings.is_for(
                        SpotifyCreds {
                            client_id: found.client_id->0,
                            client_secret: found.client_secret->0,
                        },
                    )
                } else {
                    &&& step matches SetupStep::CheckCreds { files, found: f }
                    &&& files.creds@ == path::with_name(dir@, "spotify_creds.json"@)
                    &&& f == found
                }
            },
            Err(e) => config_dir is None && e == AuthError::NoConfigDir,
        }
    }

    /// Starts with what the environment says.
    pub fn begin(config_dir: Option<String>, found: FoundCreds) -> (r: Result<
        SetupStep,
        AuthError,
    >)
        ensures
            Self::starts(config_dir, found, r),
            match r {
                Ok(step) => {
                    &&& config_dir matches Some(dir)
                    &&& step.token_path() == Some(path::with_name(dir@, "spotify_token.json"@))
                    &&& if found.is_complete() {
                        &&& step matches SetupStep::CreateClient { settings, .. }
                        &&& settings.is_for(
                            SpotifyCreds {
                                client_id: found.client_id->0,
                                client_secret: found.client_secret->0,
                            },
                        )
                    } else {
                        &&& step matches SetupStep::CheckCreds { files, found: f }
                        &&& files.creds@ == path::with_name(dir@, "spotify_creds.json"@)
                        &&& f == found
                    }
                },
                Err(e) => config_dir is None && e == AuthError::NoConfigDir,
            },
    {
        let dir = match config_dir {
            Some(dir) => dir,
            None => {
                return Err(AuthError::NoConfigDir);
            },
        };
        let files = match (get_creds_path(Some(dir.clone())), get_token_path(Some(dir))) {
            (Ok(creds), Ok(token)) => AuthFiles { creds, token },
            _ => {
                return Err(AuthError::NoConfigDir);
            },
        };
        match (found.client_id, found.client_secret) {
            (Some(client_id), Some(client_secret)) => Ok(
                Self::create(SpotifyCreds { client_id, client_secret }, files.token),
            ),
            (client_id, client_secret) => Ok(
                SetupStep::CheckCreds { files, found: FoundCreds { client_id, client_secret } },
            ),
        }
    }

    fn create(creds: SpotifyCreds, token_path: String) -> (r: SetupStep)
        ensures
            r.creates(creds, token_path),
    {
        SetupStep::CreateClient { settings: ClientSettings::new(creds), token_path }
    }

    /// Whether `report` can be the outcome of this step.
    pub fn can_take(&self, report: &SetupReport) -> (r: bool)
        ensures
            r == self.accepts(*report),
    {
        match (self, report) {
            (SetupStep::CheckCreds { .. }, SetupReport::Exists(_)) => true,
            (SetupStep::CheckToken { .. }, SetupReport::Exists(_)) => true,
            (SetupStep::ReadCreds { .. }, SetupReport::Creds(_)) => true,
            (SetupStep::AskId { .. }, SetupReport::Line(_)) => true,
            (SetupStep::AskSecret { .. }, SetupReport::Line(_)) => true,
            (SetupStep::SaveCreds { .. }, SetupReport::Done) => true,
            (SetupStep::CreateClient { .. }, SetupReport::Done) => true,
            (SetupStep::LoadToken { .. }, SetupReport::Text(_)) => true,
            _ => false,
        }
    }

    pub fn next(self, report: SetupReport) -> (r: SetupStep)
        requires
            self.accepts(report),
        ensures
            self.steps(report, r),
    {
        match (self, report) {
            (SetupStep::CheckCreds { files, found }, SetupReport::Exists(exists)) => if exists {
                SetupStep::ReadCreds { files, found }
            } else {
                SetupStep::AskId { files }
            },
            (SetupStep::ReadCreds { files, found }, SetupReport::Creds(creds)) => match creds {
                Some(creds) => Self::create(fill(found, creds), files.token),
                None => SetupStep::AskId { files },
            },
            (SetupStep::AskId { files }, SetupReport::Line(line)) => SetupStep::AskSecret {
                files,
                client_id: text::trim(line.as_str()),
            },
            (SetupStep::AskSecret { files, client_id }, SetupReport::Line(line)) => {
                SetupStep::SaveCreds {
                    files,
                    creds: SpotifyCreds { client_id, client_secret: text::trim(line.as_str()) },
                }
            },
            (SetupStep::SaveCreds { files, creds }, _) => Self::create(creds, files.token),
            (SetupStep::CreateClient { token_path, .. }, _) => SetupStep::CheckToken {
                path: token_path,
            },
            (SetupStep::CheckToken { path }, SetupReport::Exists(exists)) => if exists {
                SetupStep::LoadToken { path }
            } else {
                SetupStep::Ready(None)
            },
            (SetupStep::LoadToken { .. }, SetupReport::Text(json)) => Self::with_token(
                token_of_file(json.as_str()),
            ),
            _ => SetupStep::Ready(None),
        }
    }

    /// Ends the setup with what the file for the token holds.
    pub fn with_token(read: Result<ApiToken, TokenError>) -> (r: SetupStep)
        ensures
            r == match read {
                Ok(token) => SetupStep::Ready(Some(token)),
                Err(e) => SetupStep::BadToken(e),
            },
    {
        match read {
            Ok(token) => SetupStep::Ready(Some(token)),
            Err(e) => SetupStep::BadToken(e),
        }
    }
}

fn fill(found: FoundCreds, creds: SpotifyCreds) -> (r: SpotifyCreds)
    ensures
        r == found.filled_from(creds),
{
    SpotifyCreds {
        client_id: match found.client_id {
            Some(id) => id,
            None => creds.client_id,
        },
        client_secret: match found.client_secret {
            Some(secret) => secret,
            None => creds.client_secret,
        },
    }
}

fn lines4(a: &str, b: &str, c: &str, d: &str) -> (r: Vec<String>)
    ensures
        text::views(r@) == seq![a@, b@, c@, d@],
{
    let mut lines: Vec<String> = Vec::new();
    lines.push(String::from_str(a));
    lines.push(String::from_str(b));
    lines.push(String::from_str(c));
    lines.push(String::from_str(d));
    lines
}

/// What to tell a user without credentials before asking for the client id.
pub fn missing_creds_lines() -> (r: Vec<String>)
    ensures
        text::views(r@) == seq![
            "Spotify Client ID and Client Secret not found."@,
            "You can create them at https://developer.spotify.com/dashboard"@,
            "Use http://localhost:8888/callback as the Redirect URI."@,
            "Please enter your Client ID:"@,
        ],
{
    lines4(
        "Spotify Client ID and Client Secret not found.",
        "You can create them at https://developer.spotify.com/dashboard",
        "Use http://localhost:8888/callback as the Redirect URI.",
        "Please enter your Client ID:",
    )
}

/// What to tell the user before asking for the client secret.
pub fn secret_line() -> (r: String)
    ensures
        r@ == "Please enter your Client Secret:"@,
{
    String::from_str("Please enter your Client Secret:")
}

/// What the client wants to do.
pub open spec fn scope_names() -> Seq<Seq<char>> {
    seq![
        "user-read-playback-state"@,
        "user-modify-playback-state"@,
        "user-read-currently-playing"@,
        "user-library-read"@,
        "user-library-modify"@,
        "playlist-read-private"@,
        "playlist-read-collaborative"@,
        "streaming"@,
    ]
}

/// What the client wants to do.
pub fn client_scopes() -> (r: Vec<String>)
    ensures
        text::views(r@) == scope_names(),
{
    let mut scopes = lines4(
        "user-read-playback-state",
        "user-modify-playback-state",
        "user-read-currently-playing",
        "user-library-read",
    );
    let mut more = lines4(
        "user-library-modify",
        "playlist-read-private",
        "playlist-read-collaborative",
        "streaming",
    );
    let ghost first = scopes@;
    let ghost second = more@;
    scopes.append(&mut more);
    assert(scopes@ == first + second);
    assert(text::views(scopes@) == text::views(first) + text::views(second));
    scopes
}

/// Why the Web API's library did not do what it was asked to.
#[verifier::external_type_specification]
#[verifier::external_body]
pub struct ExClientError(rspotify::ClientError);

/// What a client asks for when it wants to be let in.
pub struct AuthorizeRequest {
    pub client_id: String,
    pub state: String,
    pub redirect_uri: String,
    pub scopes: Vec<String>,
}

impl AuthorizeRequest {
    /// The request of a client with this id and this state.
    pub fn new(client_id: &str, state: &str) -> (r: AuthorizeRequest)
        ensures
            r.client_id@ == client_id@,
            r.state@ == state@,
            r.redirect_uri@ == DEFAULT_REDIRECT_URI@,
            text::views(r.scopes@) == scope_names(),
    {
        AuthorizeRequest {
            client_id: String::from_str(client_id),
            state: String::from_str(state),
            redirect_uri: String::from_str(DEFAULT_REDIRECT_URI),
            scopes: client_scopes(),
        }
    }

    /// The parts of the URL behind the question mark; the scopes come in the
    /// order `scopes`.
    pub open spec fn parts(self, scopes: Seq<Seq<char>>) -> Seq<Seq<char>> {
        seq![
            "client_id="@ + encoded(self.client_id@),
            "response_type=code"@,
            "redirect_uri="@ + encoded(self.redirect_uri@),
            "scope="@ + encoded(text::joined(scopes, " "@)),
            "state="@ + encoded(self.state@),
        ]
    }

    /// `url` is the URL for this request whose parts are `parts`, in this
    /// order, and whose scopes come in the order `scopes`.
    pub open spec fn is_written(
        self,
        url: Seq<char>,
        scopes: Seq<Seq<char>>,
        parts: Seq<Seq<char>>,
    ) -> bool {
        &&& scopes.no_duplicates()
        &&& scopes.to_set() == text::views(self.scopes@).to_set()
        &&& parts.to_multiset() == self.parts(scopes).to_multiset()
        &&& url == "https://accounts.spotify.com/authorize?"@ + text::joined(parts, "&"@)
    }

    /// `url` is the URL for this request, with its parts and its scopes in
    /// some order.
    pub open spec fn is_put_into(self, url: Seq<char>) -> bool {
        exists|scopes: Seq<Seq<char>>, parts: Seq<Seq<char>>| #[trigger]
            self.is_written(url, scopes, parts)
    }
}

/// The upper-case hexadecimal digit for a value below 16.
pub open spec fn hex_digit(n: u8) -> char {
    if n < 10 {
        ('0' as u32 + n) as char
    } else {
        ('A' as u32 + n - 10) as char
    }
}

/// A byte in the encoding of web forms: letters, digits and some signs stay, a
/// space becomes a plus sign, and all else is written in hexadecimal.
pub open spec fn encoded_byte(b: u8) -> Seq<char> {
    let c = b as char;
    if text::is_ascii_alphanumeric(c) || c == '*' || c == '-' || c == '.' || c == '_' {
        seq![c]
    } else if c == ' ' {
        seq!['+']
    } else {
        seq!['%', hex_digit(b / 16), hex_digit(b % 16)]
    }
}

/// Bytes in the encoding of web forms.
pub open spec fn encoded_bytes(bytes: Seq<u8>) -> Seq<char>
    decreases bytes.len(),
{
    if bytes.len() == 0 {
        Seq::empty()
    } else {
        encoded_bytes(bytes.drop_last()) + encoded_byte(bytes.last())
    }
}

/// A text in the encoding of web forms, which works on its UTF-8 bytes.
pub open spec fn encoded(s: Seq<char>) -> Seq<char> {
    encoded_bytes(vstd::utf8::encode_utf8(s))
}

/// Builds the URL for a request with
/// `rspotify::AuthCodeSpotify::get_authorize_url`, without its dialog.
///
/// Taken on trust: it never fails, as the page that it starts from is fixed,
/// and behind that page stand the five parts of the request, encoded as in a
/// web form. Their order, and that of the scopes, differs from run to run.
#[verifier::external_body]
fn build_authorize_url(request: &AuthorizeRequest) -> (r: Result<String, rspotify::ClientError>)
    ensures
        r is Ok,
        r matches Ok(url) ==> request.is_put_into(url@),
{
    let creds = rspotify::Credentials { id: request.client_id.clone(), secret: None };
    let oauth = rspotify::OAuth {
        redirect_uri: request.redirect_uri.clone(),
        state: request.state.clone(),
        scopes: request.scopes.iter().cloned().collect(),
        proxies: None,
    };
    rspotify::AuthCodeSpotify::new(creds, oauth).get_authorize_url(false)
}

/// The URL at which the user lets the client in.
pub fn authorize_url(request: &AuthorizeRequest) -> (r: String)
    ensures
        request.is_put_into(r@),
{
    build_authorize_url(request).unwrap()
}

/// What to tell the user before asking for the URL that Spotify has led to.
pub fn authorize_lines(url: &str) -> (r: Vec<String>)
    ensures
        text::views(r@) == seq![
            "Please visit this URL to authorize rmpc: "@ + url@,
            "Paste the redirect URL here:"@,
        ],
{
    let mut visit = String::from_str("Please visit this URL to authorize rmpc: ");
    visit.append(url);
    let mut lines: Vec<String> = Vec::new();
    lines.push(visit);
    lines.push(String::from_str("Paste the redirect URL here:"));
    lines
}

/// The code that Spotify has put into `url`, which has to carry `state`.
pub uninterp spec fn response_code(state: Seq<char>, url: Seq<char>) -> Option<Seq<char>>;

/// Reads the code out of a URL with
/// `rspotify::AuthCodeSpotify::parse_response_code`.
///
/// Taken on trust: what it finds depends on the state that the client was made
/// with and on the URL alone.
#[verifier::external_body]
fn parse_response_code(state: &str, url: &str) -> (r: Option<String>)
    ensures
        match r {
            Some(code) => response_code(state@, url@) == Some(code@),
            None => response_code(state@, url@) is None,
        },
{
    let oauth = rspotify::OAuth { state: state.to_owned(), ..Default::default() };
    let spotify = rspotify::AuthCodeSpotify::new(rspotify::Credentials::default(), oauth);
    spotify.parse_response_code(url)
}

/// What to do to log in.
pub enum LoginStep {
    /// Ask for a token for this code.
    RequestToken { code: String },
    /// Write `json` to the file `path`, then print `login_line`.
    SaveToken { path: String, json: String },
    Finished,
}

impl LoginStep {
    /// What comes of the code that was found, if there was one.
    pub open spec fn comes_of(
        code: Option<Seq<char>>,
        after: Result<LoginStep, AuthError>,
    ) -> bool {
        match (code, after) {
            (Some(found), Ok(step)) => step matches LoginStep::RequestToken { code } && code@
                == found,
            (None, Err(e)) => e == AuthError::NoResponseCode,
            _ => false,
        }
    }

    /// Goes on with the code that was found, if there was one.
    pub fn with_code(code: Option<String>) -> (r: Result<LoginStep, AuthError>)
        ensures
            Self::comes_of(text_of(code), r),
            match code {
                Some(code) => r == Ok::<LoginStep, AuthError>(LoginStep::RequestToken { code }),
                None => r == Err::<LoginStep, AuthError>(AuthError::NoResponseCode),
            },
    {
        match code {
            Some(code) => Ok(LoginStep::RequestToken { code }),
            None => Err(AuthError::NoResponseCode),
        }
    }

    /// Goes on with the line that the user has entered.
    pub fn with_line(state: &str, line: &str) -> (r: Result<LoginStep, AuthError>)
        ensures
            Self::comes_of(response_code(state@, line@), r),
            match (response_code(state@, line@), r) {
                (Some(found), Ok(step)) => step matches LoginStep::RequestToken { code } && code@
                    == found,
                (None, Err(e)) => e == AuthError::NoResponseCode,
                _ => false,
            },
    {
        Self::with_code(parse_response_code(state, line))
    }

    /// What comes after the request, which has brought `token` or none: a token is
    /// saved.
    pub open spec fn follows(
        token: Option<ApiToken>,
        config_dir: Option<String>,
        after: Result<LoginStep, AuthError>,
    ) -> bool {
        match (token, config_dir, after) {
            (Some(token), Some(dir), Ok(step)) => {
                &&& step matches LoginStep::SaveToken { path: p, json }
                &&& p@ == path::with_name(dir@, "spotify_token.json"@)
                &&& saved_token(json@) == Some(token@.saved())
            },
            (Some(_), None, Err(e)) => e == AuthError::NoConfigDir,
            (None, _, Ok(step)) => step is Finished,
            _ => false,
        }
    }

    /// Goes on after the request, which has brought a token or not.
    pub fn with_token(token: Option<ApiToken>, config_dir: Option<String>) -> (r: Result<
        LoginStep,
        AuthError,
    >)
        requires
            token matches Some(token) ==> token.well_formed(),
        ensures
            Self::follows(token, config_dir, r),
    {
        match token {
            Some(token) => {
                let json = write_token(&token).unwrap();
                match get_token_path(config_dir) {
                    Ok(path) => Ok(LoginStep::SaveToken { path, json }),
                    Err(e) => Err(e),
                }
            },
            None => Ok(LoginStep::Finished),
        }
    }
}

/// What to tell a user who has logged in.
pub fn login_line() -> (r: String)
    ensures
        r@ == "Login successful and token saved."@,
{
    String::from_str("Login successful and token saved.")
}

/// Credentials in the environment come before those in the file, and where the
/// environment has both, the file is not looked at.
pub proof fn law_environment_comes_first(found: FoundCreds, creds: SpotifyCreds)
    ensures
        found.client_id matches Some(id) ==> found.filled_from(creds).client_id == id,
        found.client_secret matches Some(secret) ==> found.filled_from(creds).client_secret
            == secret,
        found.client_id is None ==> found.filled_from(creds).client_id == creds.client_id,
        found.client_secret is None ==> found.filled_from(creds).client_secret
            == creds.client_secret,
{
}

/// A user who has to be asked is asked for both halves, and what they enter is
/// saved and used, without the blanks around it.
pub proof fn law_entered_credentials_are_saved_and_used(
    files: AuthFiles,
    id_line: String,
    secret_line: String,
    ask_secret: SetupStep,
    save: SetupStep,
    create: SetupStep,
)
    requires
        (SetupStep::AskId { files }).goes(SetupReport::Line(id_line), ask_secret),
        ask_secret.goes(SetupReport::Line(secret_line), save),
        save.goes(SetupReport::Done, create),
    ensures
        ({
            &&& save matches SetupStep::SaveCreds { files: f, creds }
            &&& f == files
            &&& creds.client_id@ == text::trimmed(id_line@)
            &&& creds.client_secret@ == text::trimmed(secret_line@)
            &&& create.creates(creds, files.token)
        }),
{
}

/// The token is looked for in one file, whatever happens before.
pub proof fn law_setup_keeps_to_the_token_file(
    before: SetupStep,
    report: SetupReport,
    after: SetupStep,
)
    requires
        before.accepts(report),
        before.steps(report, after),
    ensures
        after is Ready || after is BadToken || after.token_path() == before.token_path(),
{
}

/// Setting up a client after a login gives it the token that the login has
/// brought, as long as the file was not touched: the same in everything but its
/// scopes, and in these too where their names are words.
pub proof fn law_setup_finds_the_saved_token(
    token: ApiToken,
    config_dir: Option<String>,
    login: Result<LoginStep, AuthError>,
    path: String,
    text: String,
    checked: SetupStep,
    loaded: SetupStep,
)
    requires
        LoginStep::follows(Some(token), config_dir, login),
        login matches Ok(LoginStep::SaveToken { path: p, json }) && path@ == p@ && text@ == json@,
        (SetupStep::CheckToken { path }).goes(SetupReport::Exists(true), checked),
        checked.goes(SetupReport::Text(text), loaded),
    ensures
        config_dir matches Some(dir) && path@ == path::with_name(dir@, "spotify_token.json"@),
        loaded matches SetupStep::Ready(Some(found)) && found@ == token@.saved(),
        token@.scopes_are_words() ==> (loaded matches SetupStep::Ready(Some(found)) && found@
            == token@),
{
    if token@.scopes_are_words() {
        lemma_words_of_words(token@.scopes);
    }
}

/// Words consist of themselves.
proof fn lemma_words_of_words(words: Set<Seq<char>>)
    requires
        forall|w: Seq<char>| #[trigger] words.contains(w) ==> is_word(w),
    ensures
        words_of(words) == words,
{
    assert forall|w: Seq<char>| words.contains(w) implies #[trigger] words_of(words).contains(
        w,
    ) by {
        assert(w.subrange(0, w.len() as int) == w);
        assert(has_word_at(w, w, 0));
    }
    assert forall|w: Seq<char>| #[trigger] words_of(words).contains(w) implies words.contains(
        w,
    ) by {
        let (s, i) = choose|s: Seq<char>, i: int|
            words.contains(s) && #[trigger] has_word_at(s, w, i);
        assert(is_word(s));
        assert(i == 0 && w.len() == s.len());
        assert(s.subrange(0, s.len() as int) == s);
    }
    assert(words_of(words) =~= words);
}

/// Without a file for the token the client gets none; with one it gets the
/// token in it; and a file without a token is an error.
pub proof fn law_token_file(
    path: String,
    exists: bool,
    text: String,
    checked: SetupStep,
    loaded: SetupStep,
)
    requires
        (SetupStep::CheckToken { path }).goes(SetupReport::Exists(exists), checked),
        exists ==> checked.goes(SetupReport::Text(text), loaded),
    ensures
        !exists ==> (checked matches SetupStep::Ready(token) && token is None),
        exists ==> match saved_token(text@) {
            Some(t) => loaded matches SetupStep::Ready(Some(token)) && token@ == t,
            None => loaded is BadToken,
        },
{
}

/// `part` stands somewhere in `s`.
pub open spec fn has_part(s: Seq<char>, part: Seq<char>) -> bool {
    exists|i: int|
        0 <= i <= s.len() - part.len() && #[trigger] s.subrange(i, i + part.len()) == part
}

/// Every part of a request stands in its URL.
pub proof fn law_url_has_all_parts(request: AuthorizeRequest, url: Seq<char>)
    requires
        request.is_put_into(url),
    ensures
        has_part(url, "client_id="@ + encoded(request.client_id@)),
        has_part(url, "response_type=code"@),
        has_part(url, "redirect_uri="@ + encoded(request.redirect_uri@)),
        has_part(url, "state="@ + encoded(request.state@)),
        exists|scopes: Seq<Seq<char>>|
            {
                &&& #[trigger] scopes.no_duplicates()
                &&& scopes.to_set() == text::views(request.scopes@).to_set()
                &&& has_part(url, "scope="@ + encoded(text::joined(scopes, " "@)))
            },
{
    let (scopes, parts) = choose|scopes: Seq<Seq<char>>, parts: Seq<Seq<char>>| #[trigger]
        request.is_written(url, scopes, parts);
    let expected = request.parts(scopes);
    assert forall|i: int| 0 <= i < expected.len() implies has_part(url, #[trigger] expected[i]) by {
        expected.to_multiset_ensures();
        parts.to_multiset_ensures();
        assert(expected.contains(expected[i]));
        assert(parts.to_multiset().count(expected[i]) > 0);
        assert(parts.contains(expected[i]));
        let j = choose|j: int| 0 <= j < parts.len() && parts[j] == expected[i];
        lemma_joined_has_part(parts, "&"@, j);
        lemma_has_part_behind(
            "https://accounts.spotify.com/authorize?"@,
            text::joined(parts, "&"@),
            expected[i],
        );
    }
    assert(has_part(url, expected[0]));
    assert(has_part(url, expected[1]));
    assert(has_part(url, expected[2]));
    assert(has_part(url, expected[3]));
    assert(has_part(url, expected[4]));
}

proof fn lemma_has_part_behind(front: Seq<char>, s: Seq<char>, part: Seq<char>)
    requires
        has_part(s, part),
    ensures
        has_part(front + s, part),
{
    let i = choose|i: int|
        0 <= i <= s.len() - part.len() && #[trigger] s.subrange(i, i + part.len()) == part;
    let k = front.len() + i;
    assert((front + s).subrange(k, k + part.len()) == s.subrange(i, i + part.len()));
}

proof fn lemma_has_part_before(s: Seq<char>, back: Seq<char>, part: Seq<char>)
    requires
        has_part(s, part),
    ensures
        has_part(s + back, part),
{
    let i = choose|i: int|
        0 <= i <= s.len() - part.len() && #[trigger] s.subrange(i, i + part.len()) == part;
    assert((s + back).subrange(i, i + part.len()) == s.subrange(i, i + part.len()));
}

proof fn lemma_joined_has_part(parts: Seq<Seq<char>>, sep: Seq<char>, j: int)
    requires
        0 <= j < parts.len(),
    ensures
        has_part(text::joined(parts, sep), parts[j]),
    decreases parts.len(),
{
    let last = parts.last();
    let start: int = 0;
    assert(last.subrange(start, start + last.len()) == last);
    assert(has_part(last, last));
    if parts.len() == 1 {
    } else if j == parts.len() - 1 {
        lemma_has_part_behind(text::joined(parts.drop_last(), sep) + sep, last, last);
    } else {
        lemma_joined_has_part(parts.drop_last(), sep, j);
        lemma_has_part_before(text::joined(parts.drop_last(), sep), sep, parts[j]);
        lemma_has_part_before(text::joined(parts.drop_last(), sep) + sep, last, parts[j]);
    }
}

} // verus!
