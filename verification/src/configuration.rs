//! The settings of the service: where its database is, what it mints, and for
//! which environment it runs.

use crate::text::{decimal, decimal_text, joined, same_text};
use vstd::prelude::*;
use vstd::std_specs::convert::TryFromSpecImpl;

verus! {

/// All settings of the service.
#[derive(Debug, Clone)]
pub struct Settings {
    pub database: DatabaseSettings,
    pub application: ApplicationSettings,
}

/// Where the database is and how to log in to it.
#[derive(Debug, Clone)]
pub struct DatabaseSettings {
    pub username: String,
    pub password: String,
    pub port: u16,
    pub host: String,
    pub database_name: String,
}

/// What the service mints and where it keeps its files.
#[derive(Debug, Clone)]
pub struct ApplicationSettings {
    pub assets_dir: String,
    pub output_dir: String,
    pub trace_level: String,
    pub enable_tracing: bool,
    pub discord: String,
    pub discord_guild_id: String,
    pub sequence_start: u64,
    pub series: String,
    pub ardrive_wallet_location: String,
    pub testnet: bool,
}

/// The address of the database server for these settings, without a
/// database.
pub open spec fn server_address(settings: DatabaseSettings) -> Seq<char> {
    "postgres://"@ + settings.username@ + ":"@ + settings.password@ + "@"@ + settings.host@ + ":"@
        + decimal_text(settings.port as nat)
}

impl DatabaseSettings {
    /// The address of the database: that of its server, a slash and the name
    /// of the database.
    pub fn connection_string(&self) -> (r: String)
        ensures
            r@ == server_address(*self) + "/"@ + self.database_name@,
    {
        let mut r = self.connection_string_without_db();
        r.append("/");
        r.append(self.database_name.as_str());
        r
    }

    /// The address of the database server.
    pub fn connection_string_without_db(&self) -> (r: String)
        ensures
            r@ == server_address(*self),
    {
        let mut r = joined("postgres://", self.username.as_str());
        r.append(":");
        r.append(self.password.as_str());
        r.append("@");
        r.append(self.host.as_str());
        r.append(":");
        r.append(decimal(self.port as u64).as_str());
        r
    }
}

/// The deployment environment a configuration is read for.
#[derive(Debug, Clone, Copy, PartialEq, Eq, Structural)]
pub enum Environment {
    Local,
    Development,
    Production,
}

/// `text` in lower case, as `str::to_lowercase` gives it.
pub uninterp spec fn lowercase_text(text: Seq<char>) -> Seq<char>;

/// `str::to_lowercase`. Claimed of it: the text it gives depends on the
/// text it is given alone.
#[verifier::external_body]
fn lowercase(text: &str) -> (lower: String)
    ensures
        lower@ == lowercase_text(text@),
{
    text.to_lowercase()
}

/// The environment that goes by `name`.
pub open spec fn environment_named(name: Seq<char>) -> Option<Environment> {
    if name == "local"@ {
        Some(Environment::Local)
    } else if name == "development"@ {
        Some(Environment::Development)
    } else if name == "production"@ {
        Some(Environment::Production)
    } else {
        None
    }
}

/// What naming an environment by `name` gives: the environment, or the
/// message that `name` is none.
pub open spec fn named_or_refused(name: Seq<char>, r: Result<Environment, String>) -> bool {
    match environment_named(name) {
        Some(e) => r == Ok::<Environment, String>(e),
        None => r matches Err(message) && message@ == name + " is not a valid environment"@,
    }
}

impl Environment {
    /// The lower-case name of the environment.
    pub fn as_str(&self) -> (r: &'static str)
        ensures
            r@ == match *self {
                Environment::Local => "local"@,
                Environment::Development => "development"@,
                Environment::Production => "production"@,
            },
            environment_named(r@) == Some(*self),
    {
        proof {
            reveal_strlit("local");
            reveal_strlit("development");
            reveal_strlit("production");
            assert("local"@.len() == 5);
            assert("development"@.len() == 11);
            assert("production"@.len() == 10);
        }
        match self {
            Environment::Local => "local",
            Environment::Development => "development",
            Environment::Production => "production",
        }
    }

    /// The environment that goes by the lower-case `name`.
    pub fn from_name(name: &str) -> (r: Result<Environment, String>)
        ensures
            named_or_refused(name@, r),
    {
        if same_text(name, "local") {
            Ok(Environment::Local)
        } else if same_text(name, "development") {
            Ok(Environment::Development)
        } else if same_text(name, "production") {
            Ok(Environment::Production)
        } else {
            Err(joined(name, " is not a valid environment"))
        }
    }
}

impl TryFrom<String> for Environment {
    type Error = String;

    /// The environment that `s` names, in whatever case it is written.
    fn try_from(s: String) -> (r: Result<Environment, String>)
        ensures
            named_or_refused(lowercase_text(s@), r),
    {
        Environment::from_name(lowercase(s.as_str()).as_str())
    }
}

impl TryFromSpecImpl<String> for Environment {
    open spec fn obeys_try_from_spec() -> bool {
        false
    }

    open spec fn try_from_spec(s: String) -> Result<Environment, String> {
        arbitrary()
    }
}

/// The sequence number of the artifact for which the series counter gave
/// `drawn`, in a series that starts at `sequence_start`: their sum. `None`
/// for a negative count, and for a sum beyond the largest number.
pub open spec fn sequence_for(drawn: i64, sequence_start: u64) -> Option<u64> {
    if drawn >= 0 && drawn + sequence_start <= u64::MAX {
        Some((drawn + sequence_start) as u64)
    } else {
        None
    }
}

/// The sequence number of the artifact for which the series counter gave
/// `drawn`.
pub fn sequence_number(drawn: i64, sequence_start: u64) -> (r: Option<u64>)
    ensures
        r == sequence_for(drawn, sequence_start),
{
    if drawn < 0 {
        None
    } else {
        sequence_start.checked_add(drawn as u64)
    }
}

/// Sequence numbers keep the order of the counter: a later count gives a
/// larger number, so distinct counts give distinct numbers.
pub proof fn lemma_sequence_numbers_increase(earlier: i64, later: i64, sequence_start: u64)
    requires
        earlier < later,
        sequence_for(earlier, sequence_start) is Some,
        sequence_for(later, sequence_start) is Some,
    ensures
        sequence_for(earlier, sequence_start).unwrap() < sequence_for(
            later,
            sequence_start,
        ).unwrap(),
{
}

} // verus!
