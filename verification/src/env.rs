//! The process configuration and how it is read from the values of the
//! environment.

use crate::number::{parse_bool, parse_u16, parse_u64, parsed_bool, parsed_u16, parsed_u64};
use crate::reconcile::Channel;
use vstd::prelude::*;

verus! {

/// The process configuration.
#[derive(Debug, Clone)]
pub struct Env {
    pub sentry_url: Option<String>,
    pub database_url: String,
    pub database_migrate: bool,
    pub github_channel_id: u64,
    pub github_sponsors_channel_id: Option<u64>,
    pub github_verify_token: String,
    pub bot_token: String,
    pub bind: String,
    pub port: u16,
    pub app_debug: bool,
    pub app_log_directory: String,
    pub app_url: String,
    pub server_name: Option<String>,
}

/// The configuration, as the contracts see it.
pub struct EnvView {
    pub sentry_url: Option<Seq<char>>,
    pub database_url: Seq<char>,
    pub database_migrate: bool,
    pub github_channel_id: u64,
    pub github_sponsors_channel_id: Option<u64>,
    pub github_verify_token: Seq<char>,
    pub bot_token: Seq<char>,
    pub bind: Seq<char>,
    pub port: u16,
    pub app_debug: bool,
    pub app_log_directory: Seq<char>,
    pub app_url: Seq<char>,
    pub server_name: Option<Seq<char>>,
}

/// The values of the environment variables that make up the configuration,
/// each as it was found, `None` where the variable is not set.
#[derive(Debug)]
pub struct RawEnv {
    pub sentry_url: Option<String>,
    pub database_url: Option<String>,
    pub database_migrate: Option<String>,
    pub github_channel_id: Option<String>,
    pub github_sponsors_channel_id: Option<String>,
    pub github_verify_token: Option<String>,
    pub bot_token: Option<String>,
    pub bind: Option<String>,
    pub port: Option<String>,
    pub app_debug: Option<String>,
    pub app_log_directory: Option<String>,
    pub app_url: Option<String>,
    pub server_name: Option<String>,
}

/// A variable of the configuration that can be missing or ill formed.
#[derive(Clone, Copy, Debug, PartialEq, Eq, Structural)]
pub enum Variable {
    DatabaseUrl,
    DatabaseMigrate,
    GithubChannelId,
    GithubVerifyToken,
    BotToken,
    Port,
    AppDebug,
    AppUrl,
}

/// Why the configuration could not be read.
#[derive(Clone, Copy, Debug, PartialEq, Eq, Structural)]
pub enum EnvError {
    /// A variable that has no default is not set.
    Missing { variable: Variable },
    /// A variable holds what is no value of its type.
    Invalid { variable: Variable },
}

/// A text without the double quotes at its start.
pub open spec fn trim_start_quotes(s: Seq<char>) -> Seq<char>
    decreases s.len(),
{
    if s.len() > 0 && s[0] == '"' {
        trim_start_quotes(s.drop_first())
    } else {
        s
    }
}

/// A text without the double quotes at its end.
pub open spec fn trim_end_quotes(s: Seq<char>) -> Seq<char>
    decreases s.len(),
{
    if s.len() > 0 && s.last() == '"' {
        trim_end_quotes(s.drop_last())
    } else {
        s
    }
}

/// A text without the double quotes at its start and at its end.
pub open spec fn unquoted(s: Seq<char>) -> Seq<char> {
    trim_end_quotes(trim_start_quotes(s))
}

/// The text of an optional value.
pub open spec fn text_of(value: Option<String>) -> Option<Seq<char>> {
    match value {
        Some(s) => Some(s@),
        None => None,
    }
}

/// The text of an optional value, or a default.
pub open spec fn text_or(value: Option<String>, default: Seq<char>) -> Seq<char> {
    match value {
        Some(s) => s@,
        None => default,
    }
}

/// An optional value without its quotes.
pub open spec fn unquoted_option(value: Option<String>) -> Option<Seq<char>> {
    match value {
        Some(s) => Some(unquoted(s@)),
        None => None,
    }
}

/// The first thing that is wrong with the values, in the order in which the
/// configuration lists its variables; `None` where nothing is.
pub open spec fn first_fault(raw: RawEnv) -> Option<EnvError> {
    if raw.database_url is None {
        Some(EnvError::Missing { variable: Variable::DatabaseUrl })
    } else if parsed_bool(unquoted(text_or(raw.database_migrate, "false"@))) is None {
        Some(EnvError::Invalid { variable: Variable::DatabaseMigrate })
    } else if raw.github_channel_id is None {
        Some(EnvError::Missing { variable: Variable::GithubChannelId })
    } else if parsed_u64(unquoted(raw.github_channel_id.unwrap()@)) is None {
        Some(EnvError::Invalid { variable: Variable::GithubChannelId })
    } else if raw.github_verify_token is None {
        Some(EnvError::Missing { variable: Variable::GithubVerifyToken })
    } else if raw.bot_token is None {
        Some(EnvError::Missing { variable: Variable::BotToken })
    } else if parsed_u16(text_or(raw.port, "6969"@)) is None {
        Some(EnvError::Invalid { variable: Variable::Port })
    } else if parsed_bool(unquoted(text_or(raw.app_debug, "false"@))) is None {
        Some(EnvError::Invalid { variable: Variable::AppDebug })
    } else if raw.app_url is None {
        Some(EnvError::Missing { variable: Variable::AppUrl })
    } else {
        None
    }
}

/// The configuration that the values stand for.
///
/// Texts lose the double quotes around them. The database address, the
/// channel, the two tokens and the application address have no default;
/// migration and debugging default to `false`, the bind address to
/// `0.0.0.0`, the port to `6969` and the log directory to `logs`. A sponsors
/// channel that is not set, or is no number, is none.
pub open spec fn parsed_env(raw: RawEnv) -> Result<EnvView, EnvError> {
    match first_fault(raw) {
        Some(e) => Err(e),
        None => Ok(
            EnvView {
                sentry_url: unquoted_option(raw.sentry_url),
                database_url: unquoted(raw.database_url.unwrap()@),
                database_migrate: parsed_bool(unquoted(text_or(raw.database_migrate, "false"@))).unwrap(),
                github_channel_id: parsed_u64(unquoted(raw.github_channel_id.unwrap()@)).unwrap(),
                github_sponsors_channel_id: parsed_u64(unquoted(text_or(raw.github_sponsors_channel_id, ""@))),
                github_verify_token: unquoted(raw.github_verify_token.unwrap()@),
                bot_token: unquoted(raw.bot_token.unwrap()@),
                bind: unquoted(text_or(raw.bind, "0.0.0.0"@)),
                port: parsed_u16(text_or(raw.port, "6969"@)).unwrap(),
                app_debug: parsed_bool(unquoted(text_or(raw.app_debug, "false"@))).unwrap(),
                app_log_directory: unquoted(text_or(raw.app_log_directory, "logs"@)),
                app_url: unquoted(raw.app_url.unwrap()@),
                server_name: unquoted_option(raw.server_name),
            },
        ),
    }
}

impl View for Env {
    type V = EnvView;

    open spec fn view(&self) -> EnvView {
        EnvView {
            sentry_url: text_of(self.sentry_url),
            database_url: self.database_url@,
            database_migrate: self.database_migrate,
            github_channel_id: self.github_channel_id,
            github_sponsors_channel_id: self.github_sponsors_channel_id,
            github_verify_token: self.github_verify_token@,
            bot_token: self.bot_token@,
            bind: self.bind@,
            port: self.port,
            app_debug: self.app_debug,
            app_log_directory: self.app_log_directory@,
            app_url: self.app_url@,
            server_name: text_of(self.server_name),
        }
    }
}

proof fn lemma_trim_start(s: Seq<char>, a: int)
    requires
        0 <= a <= s.len(),
        forall|i: int| 0 <= i < a ==> s[i] == '"',
        a < s.len() ==> s[a] != '"',
    ensures
        trim_start_quotes(s) == s.subrange(a, s.len() as int),
    decreases a,
{
    if a == 0 {
        assert(s.subrange(0, s.len() as int) =~= s);
    } else {
        let rest = s.drop_first();
        assert forall|i: int| 0 <= i < a - 1 implies rest[i] == '"' by {
            assert(rest[i] == s[i + 1]);
        }
        lemma_trim_start(rest, a - 1);
        assert(rest.subrange(a - 1, rest.len() as int) =~= s.subrange(a, s.len() as int));
    }
}

proof fn lemma_trim_end(s: Seq<char>, b: int)
    requires
        0 <= b <= s.len(),
        forall|i: int| b <= i < s.len() ==> s[i] == '"',
        b > 0 ==> s[b - 1] != '"',
    ensures
        trim_end_quotes(s) == s.subrange(0, b),
    decreases s.len() - b,
{
    if b == s.len() {
        assert(s.subrange(0, b) =~= s);
    } else {
        let rest = s.drop_last();
        lemma_trim_end(rest, b);
        assert(rest.subrange(0, b) =~= s.subrange(0, b));
    }
}

/// Strips the double quotes from the start and the end of a text.
pub fn unquote(s: &str) -> (r: &str)
    ensures
        r@ == unquoted(s@),
{
    let len: usize = s.unicode_len();
    let mut a: usize = 0;
    while a < len && s.get_char(a) == '"'
        invariant
            len == s@.len(),
            a <= len,
            forall|i: int| 0 <= i < a ==> s@[i] == '"',
        decreases len - a,
    {
        a += 1;
    }
    let mut b: usize = len;
    while b > a && s.get_char(b - 1) == '"'
        invariant
            len == s@.len(),
            a <= b <= len,
            forall|i: int| b <= i < len ==> s@[i] == '"',
        decreases b,
    {
        b -= 1;
    }
    proof {
        lemma_trim_start(s@, a as int);
        let t = s@.subrange(a as int, len as int);
        assert forall|i: int| b - a <= i < t.len() implies t[i] == '"' by {
            assert(t[i] == s@[i + a]);
        }
        lemma_trim_end(t, b - a);
        assert(t.subrange(0, b - a) =~= s@.subrange(a as int, b as int));
    }
    s.substring_char(a, b)
}

fn unquote_owned(s: &String) -> (r: String)
    ensures
        r@ == unquoted(s@),
{
    String::from_str(unquote(s.as_str()))
}

fn unquote_option(value: &Option<String>) -> (r: Option<String>)
    ensures
        text_of(r) == unquoted_option(*value),
{
    match value {
        Some(s) => Some(unquote_owned(s)),
        None => None,
    }
}

fn or_default<'a>(value: &'a Option<String>, default: &'a str) -> (r: &'a str)
    ensures
        r@ == text_or(*value, default@),
{
    match value {
        Some(s) => s.as_str(),
        None => default,
    }
}

/// The scheme that opens the address of a database file.
pub open spec fn scheme() -> Seq<char> {
    seq!['s', 'q', 'l', 'i', 't', 'e', ':']
}

/// The address of a database without the schemes at its start: what is left
/// is the path of the file.
pub open spec fn without_scheme(url: Seq<char>) -> Seq<char>
    decreases url.len(),
{
    if 7 <= url.len() && url.subrange(0, 7) == scheme() {
        without_scheme(url.subrange(7, url.len() as int))
    } else {
        url
    }
}

/// The path of the database file that an address names, so that its
/// directory can be made before the database is opened.
pub fn database_file(url: &str) -> (path: &str)
    ensures
        path@ == without_scheme(url@),
{
    let prefix = "sqlite:";
    proof {
        reveal_strlit("sqlite:");
        assert(prefix@ =~= scheme());
    }
    let n: usize = prefix.unicode_len();
    let len: usize = url.unicode_len();
    let mut k: usize = 0;
    assert(url@.subrange(0, len as int) =~= url@);
    while len - k >= n && crate::text::same_text(url.substring_char(k, k + n), prefix)
        invariant
            n == 7,
            prefix@ == scheme(),
            len == url@.len(),
            k <= len,
            without_scheme(url@) == without_scheme(url@.subrange(k as int, len as int)),
        decreases len - k,
    {
        proof {
            let rest = url@.subrange(k as int, len as int);
            assert(rest.subrange(0, 7) =~= url@.subrange(k as int, k + 7));
            assert(rest.subrange(7, rest.len() as int) =~= url@.subrange(k + 7, len as int));
        }
        k += n;
    }
    proof {
        let rest = url@.subrange(k as int, len as int);
        if rest.len() >= 7 {
            assert(rest.subrange(0, 7) =~= url@.subrange(k as int, k + 7));
        }
    }
    url.substring_char(k, len)
}

impl Env {
    /// Finds the first variable that is missing or ill formed, in the order
    /// of the configuration; `None` where the configuration can be read.
    pub fn fault(raw: &RawEnv) -> (fault: Option<EnvError>)
        ensures
            fault == first_fault(*raw),
    {
        if raw.database_url.is_none() {
            return Some(EnvError::Missing { variable: Variable::DatabaseUrl });
        }
        if parse_bool(unquote(or_default(&raw.database_migrate, "false"))).is_none() {
            return Some(EnvError::Invalid { variable: Variable::DatabaseMigrate });
        }
        match &raw.github_channel_id {
            None => {
                return Some(EnvError::Missing { variable: Variable::GithubChannelId });
            },
            Some(s) => {
                if parse_u64(unquote(s.as_str())).is_none() {
                    return Some(EnvError::Invalid { variable: Variable::GithubChannelId });
                }
            },
        }
        if raw.github_verify_token.is_none() {
            return Some(EnvError::Missing { variable: Variable::GithubVerifyToken });
        }
        if raw.bot_token.is_none() {
            return Some(EnvError::Missing { variable: Variable::BotToken });
        }
        if parse_u16(or_default(&raw.port, "6969")).is_none() {
            return Some(EnvError::Invalid { variable: Variable::Port });
        }
        if parse_bool(unquote(or_default(&raw.app_debug, "false"))).is_none() {
            return Some(EnvError::Invalid { variable: Variable::AppDebug });
        }
        if raw.app_url.is_none() {
            return Some(EnvError::Missing { variable: Variable::AppUrl });
        }
        None
    }

    /// Reads the configuration from the values of its variables. The values
    /// must be free of faults: no variable that has no default may be
    /// missing, and none may hold what is no value of its type. No default
    /// ever stands in for such a variable; `try_parse` tests the values
    /// first.
    pub fn parse(raw: &RawEnv) -> (env: Env)
        requires
            first_fault(*raw) is None,
        ensures
            parsed_env(*raw) == Ok::<EnvView, EnvError>(env@),
    {
        let database_url = match &raw.database_url {
            Some(s) => unquote_owned(s),
            None => {
                assert(false);
                String::new()
            },
        };
        let database_migrate = match parse_bool(unquote(or_default(&raw.database_migrate, "false"))) {
            Some(b) => b,
            None => {
                assert(false);
                false
            },
        };
        let github_channel_id = match &raw.github_channel_id {
            Some(s) => match parse_u64(unquote(s.as_str())) {
                Some(n) => n,
                None => {
                    assert(false);
                    0
                },
            },
            None => {
                assert(false);
                0
            },
        };
        let github_verify_token = match &raw.github_verify_token {
            Some(s) => unquote_owned(s),
            None => {
                assert(false);
                String::new()
            },
        };
        let bot_token = match &raw.bot_token {
            Some(s) => unquote_owned(s),
            None => {
                assert(false);
                String::new()
            },
        };
        let port = match parse_u16(or_default(&raw.port, "6969")) {
            Some(p) => p,
            None => {
                assert(false);
                0
            },
        };
        let app_debug = match parse_bool(unquote(or_default(&raw.app_debug, "false"))) {
            Some(b) => b,
            None => {
                assert(false);
                false
            },
        };
        let app_url = match &raw.app_url {
            Some(s) => unquote_owned(s),
            None => {
                assert(false);
                String::new()
            },
        };
        Env {
            sentry_url: unquote_option(&raw.sentry_url),
            database_url,
            database_migrate,
            github_channel_id,
            github_sponsors_channel_id: parse_u64(unquote(or_default(&raw.github_sponsors_channel_id, ""))),
            github_verify_token,
            bot_token,
            bind: String::from_str(unquote(or_default(&raw.bind, "0.0.0.0"))),
            port,
            app_debug,
            app_log_directory: String::from_str(unquote(or_default(&raw.app_log_directory, "logs"))),
            app_url,
            server_name: unquote_option(&raw.server_name),
        }
    }

    /// Tests the values for faults and reads the configuration where there
    /// is none. The first variable that is missing or ill formed, in the
    /// order of the configuration, is the error.
    pub fn try_parse(raw: &RawEnv) -> (r: Result<Env, EnvError>)
        ensures
            match r {
                Ok(env) => parsed_env(*raw) == Ok::<EnvView, EnvError>(env@),
                Err(e) => parsed_env(*raw) == Err::<EnvView, EnvError>(e),
            },
    {
        match Self::fault(raw) {
            Some(e) => Err(e),
            None => Ok(Self::parse(raw)),
        }
    }

    /// The id of the channel that a notification goes to: sponsorships go to
    /// the sponsors channel where one is configured, everything else to the
    /// feed.
    pub fn channel_id(&self, channel: Channel) -> (id: u64)
        ensures
            id == match channel {
                Channel::Feed => self.github_channel_id,
                Channel::Sponsors => match self.github_sponsors_channel_id {
                    Some(id) => id,
                    None => self.github_channel_id,
                },
            },
    {
        match channel {
            Channel::Feed => self.github_channel_id,
            Channel::Sponsors => match self.github_sponsors_channel_id {
                Some(id) => id,
                None => self.github_channel_id,
            },
        }
    }
}

} // verus!
