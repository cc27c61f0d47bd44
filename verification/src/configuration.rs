//! The settings of the service, and what is derived from them.

use crate::domain::subscriber_email::{email_rejection, is_email, SubscriberEmail};
use vstd::prelude::*;
use vstd::string::StringExecFns;

verus! {

/// All settings of the service.
pub struct Settings {
    pub database: DatabaseSettings,
    pub application: ApplicationSettings,
    pub email_client: EmailClientSettings,
}

/// How the relational store is reached.
pub struct DatabaseSettings {
    pub username: String,
    pub password: String,
    pub port: u16,
    pub host: String,
    pub database_name: String,
    pub require_ssl: bool,
}

/// Where the service listens, and under which address it is known outside.
pub struct ApplicationSettings {
    pub port: u16,
    pub host: String,
    pub base_url: String,
}

/// How the email sender is reached.
pub struct EmailClientSettings {
    pub base_url: String,
    pub sender_email: String,
    pub authorization_token: String,
    pub timeout_milliseconds: u64,
}

/// Whether a connection to the store has to be encrypted.
#[derive(Clone, Copy, Debug, PartialEq, Eq, Structural)]
pub enum SslMode {
    /// Only an encrypted connection will do.
    Require,
    /// An encrypted connection is tried first.
    Prefer,
}

/// What a connection to the store is opened with.
pub struct ConnectOptions {
    pub host: String,
    pub username: String,
    pub password: String,
    pub port: u16,
    pub ssl_mode: SslMode,
    /// The database to connect to, or none to reach the server alone.
    pub database: Option<String>,
}

impl DatabaseSettings {
    /// The encryption that these settings ask for.
    pub open spec fn ssl_mode(self) -> SslMode {
        if self.require_ssl {
            SslMode::Require
        } else {
            SslMode::Prefer
        }
    }

    /// `options` reach the server that these settings name, as their user.
    pub open spec fn is_server_of(self, options: ConnectOptions) -> bool {
        &&& options.host@ == self.host@
        &&& options.username@ == self.username@
        &&& options.password@ == self.password@
        &&& options.port == self.port
        &&& options.ssl_mode == self.ssl_mode()
    }

    /// The options that connect to the database of these settings.
    pub fn with_db(&self) -> (options: ConnectOptions)
        ensures
            self.is_server_of(options),
            options.database matches Some(name) && name@ == self.database_name@,
    {
        let mut options = self.without_db();
        options.database = Some(self.database_name.clone());
        options
    }

    /// The options that connect to the server without naming a database.
    pub fn without_db(&self) -> (options: ConnectOptions)
        ensures
            self.is_server_of(options),
            options.database is None,
    {
        let ssl_mode = if self.require_ssl {
            SslMode::Require
        } else {
            SslMode::Prefer
        };
        ConnectOptions {
            host: self.host.clone(),
            username: self.username.clone(),
            password: self.password.clone(),
            port: self.port,
            ssl_mode,
            database: None,
        }
    }
}

/// The character that stands for the digit `d`.
pub open spec fn digit(d: nat) -> char {
    if d == 0 {
        '0'
    } else if d == 1 {
        '1'
    } else if d == 2 {
        '2'
    } else if d == 3 {
        '3'
    } else if d == 4 {
        '4'
    } else if d == 5 {
        '5'
    } else if d == 6 {
        '6'
    } else if d == 7 {
        '7'
    } else if d == 8 {
        '8'
    } else {
        '9'
    }
}

/// `n` written in decimal, without leading zeros.
pub open spec fn decimal(n: nat) -> Seq<char>
    decreases n,
{
    if n < 10 {
        seq![digit(n)]
    } else {
        decimal(n / 10).push(digit(n % 10))
    }
}

/// The text of one digit.
fn digit_text(d: u16) -> (text: &'static str)
    requires
        d < 10,
    ensures
        text@ == seq![digit(d as nat)],
{
    proof {
        reveal_strlit("0");
        reveal_strlit("1");
        reveal_strlit("2");
        reveal_strlit("3");
        reveal_strlit("4");
        reveal_strlit("5");
        reveal_strlit("6");
        reveal_strlit("7");
        reveal_strlit("8");
        reveal_strlit("9");
    }
    let text = if d == 0 {
        "0"
    } else if d == 1 {
        "1"
    } else if d == 2 {
        "2"
    } else if d == 3 {
        "3"
    } else if d == 4 {
        "4"
    } else if d == 5 {
        "5"
    } else if d == 6 {
        "6"
    } else if d == 7 {
        "7"
    } else if d == 8 {
        "8"
    } else {
        "9"
    };
    assert(text@ =~= seq![digit(d as nat)]);
    text
}

/// Appends `n` in decimal to `text`.
fn append_decimal(text: &mut String, n: u16)
    ensures
        final(text)@ == old(text)@ + decimal(n as nat),
    decreases n,
{
    if n >= 10 {
        append_decimal(text, n / 10);
    }
    text.append(digit_text(n % 10));
    assert(text@ =~= old(text)@ + decimal(n as nat));
}

impl ApplicationSettings {
    /// The address to listen on: the host, a colon, and the port in decimal.
    pub open spec fn address_text(self) -> Seq<char> {
        self.host@ + ":"@ + decimal(self.port as nat)
    }

    /// The address to listen on.
    pub fn address(&self) -> (address: String)
        ensures
            address@ == self.address_text(),
    {
        let mut address = self.host.clone();
        address.append(":");
        append_decimal(&mut address, self.port);
        address
    }
}

impl EmailClientSettings {
    /// The address that the service sends in the name of, if the configured
    /// one is an address; else the report on it.
    pub fn sender(&self) -> (r: Result<SubscriberEmail, String>)
        ensures
            r is Ok <==> is_email(self.sender_email@),
            r matches Ok(email) ==> email@ == self.sender_email@,
            r matches Err(message) ==> message@ == email_rejection(self.sender_email@),
    {
        SubscriberEmail::parse(self.sender_email.clone())
    }
}

/// Where the service runs.
#[derive(Clone, Copy, Debug, PartialEq, Eq, Structural)]
pub enum Environment {
    Local,
    Production,
}

/// `text` with every character replaced by its lowercase equivalent in
/// Unicode.
pub uninterp spec fn lowercase_of(text: Seq<char>) -> Seq<char>;

/// `str::to_lowercase` gives the lowercase equivalent of a string;
/// `lowercase_of` stands for it.
#[verifier::external_body]
fn lowercase(text: &str) -> (lower: String)
    ensures
        lower@ == lowercase_of(text@),
{
    text.to_lowercase()
}

/// The message that reports `name` as no environment.
pub open spec fn environment_rejection(name: Seq<char>) -> Seq<char> {
    name + " is not a supported environment. Use either `local` or `production`."@
}

/// `r` is the environment that goes by `name`, or the report that none does.
pub open spec fn is_environment_named(name: Seq<char>, r: Result<Environment, String>) -> bool {
    if name == "local"@ {
        r == Ok::<Environment, String>(Environment::Local)
    } else if name == "production"@ {
        r == Ok::<Environment, String>(Environment::Production)
    } else {
        r matches Err(message) && message@ == environment_rejection(name)
    }
}

impl Environment {
    /// The name of this environment.
    pub open spec fn name(self) -> Seq<char> {
        match self {
            Environment::Local => "local"@,
            Environment::Production => "production"@,
        }
    }

    /// The name of this environment.
    pub fn as_str(&self) -> (name: &'static str)
        ensures
            name@ == self.name(),
    {
        match self {
            Environment::Local => "local",
            Environment::Production => "production",
        }
    }

    /// The environment that `value` names, whatever the case of its letters.
    pub fn try_from(value: String) -> (r: Result<Environment, String>)
        ensures
            is_environment_named(lowercase_of(value@), r),
    {
        let lower = lowercase(value.as_str());
        Environment::from_name(lower)
    }

    /// The environment that goes by exactly `name`.
    pub fn from_name(name: String) -> (r: Result<Environment, String>)
        ensures
            is_environment_named(name@, r),
    {
        if name == "local".to_owned() {
            Ok(Environment::Local)
        } else if name == "production".to_owned() {
            Ok(Environment::Production)
        } else {
            let mut message = name;
            message.append(" is not a supported environment. Use either `local` or `production`.");
            Err(message)
        }
    }
}

/// The name of an environment names that environment.
pub proof fn lemma_environment_name_round_trip(environment: Environment)
    ensures
        is_environment_named(environment.name(), Ok(environment)),
{
    reveal_strlit("local");
    reveal_strlit("production");
    assert("local"@.len() == 5);
    assert("production"@.len() == 10);
}

} // verus!
