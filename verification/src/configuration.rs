//! The settings of the service and what is derived from them.

use crate::domains::{is_email_address, SubscriberEmail};
use crate::email_client::EmailClient;
use crate::text::{push_char, same_text};
use vstd::prelude::*;
use vstd::string::StringExecFns;

verus! {

/// Where the service runs. Each environment has a settings file of its own.
#[derive(Debug, Clone, Copy, PartialEq, Eq, Structural)]
pub enum Environment {
    Local,
    Staging,
    Production,
}

/// How the connection to the database is secured.
#[derive(Debug, Clone, Copy, PartialEq, Eq, Structural)]
pub enum SslMode {
    /// Encrypted if the server offers it.
    Prefer,
    /// Encrypted or not at all.
    Require,
}

#[derive(Debug)]
pub struct Settings {
    pub database: DatabaseSettings,
    pub application: ApplicationSettings,
    pub email_client: EmailClientSettings,
}

#[derive(Debug)]
pub struct EmailClientSettings {
    pub base_url: String,
    pub sender_email: String,
    pub authorization_token: String,
    pub timeout_milliseconds: u64,
}

#[derive(Debug)]
pub struct DatabaseSettings {
    pub username: String,
    pub password: String,
    pub port: u16,
    pub host: String,
    pub database_name: String,
    pub require_ssl: bool,
}

#[derive(Debug)]
pub struct ApplicationSettings {
    pub port: u16,
    pub host: String,
}

/// What it takes to connect to a database server, and to one database on it
/// if one is named.
#[derive(Debug)]
pub struct ConnectOptions {
    pub host: String,
    pub username: String,
    pub password: String,
    pub port: u16,
    pub ssl_mode: SslMode,
    pub database: Option<String>,
}

/// The text in lower case, as `str::to_lowercase` gives it.
pub uninterp spec fn lowercased(text: Seq<char>) -> Seq<char>;

/// Turns `text` to lower case with `str::to_lowercase`.
///
/// Trusted: the result is [`lowercased`] of the text.
#[verifier::external_body]
fn to_lowercase(text: &str) -> (lower: String)
    ensures
        lower@ == lowercased(text@),
{
    text.to_lowercase()
}

impl Environment {
    pub open spec fn name(self) -> Seq<char> {
        match self {
            Environment::Local => "local"@,
            Environment::Staging => "staging"@,
            Environment::Production => "production"@,
        }
    }

    pub fn as_str(&self) -> (name: &'static str)
        ensures
            name@ == self.name(),
    {
        match self {
            Environment::Local => "local",
            Environment::Staging => "staging",
            Environment::Production => "production",
        }
    }

    /// The environment that a name in lower case stands for.
    pub open spec fn named(name: Seq<char>) -> Option<Environment> {
        if name == "local"@ {
            Some(Environment::Local)
        } else if name == "staging"@ {
            Some(Environment::Staging)
        } else if name == "production"@ {
            Some(Environment::Production)
        } else {
            None
        }
    }

    /// What is said of a name that stands for no environment.
    pub open spec fn unsupported(name: Seq<char>) -> Seq<char> {
        name
            + " is not a supported environment. Use either `local`, `staging` or `production`."@
    }

    /// Reads the name of an environment that is written in lower case.
    pub fn from_lowercase(name: String) -> (r: Result<Environment, String>)
        ensures
            match (Self::named(name@), r) {
                (Some(expected), Ok(environment)) => environment == expected,
                (None, Err(message)) => message@ == Self::unsupported(name@),
                _ => false,
            },
    {
        if same_text(name.as_str(), "local") {
            Ok(Environment::Local)
        } else if same_text(name.as_str(), "staging") {
            Ok(Environment::Staging)
        } else if same_text(name.as_str(), "production") {
            Ok(Environment::Production)
        } else {
            Err(
                name.concat(
                    " is not a supported environment. Use either `local`, `staging` or `production`.",
                ),
            )
        }
    }

    /// The name of the settings file of this environment.
    pub fn settings_file(&self) -> (file: String)
        ensures
            file@ == self.name() + ".yaml"@,
    {
        String::from_str(self.as_str()).concat(".yaml")
    }

    /// The environment that the service is told to run in: the one that
    /// `app_env` names, or the local one if it names none.
    pub fn chosen(app_env: Option<String>) -> (r: Result<Environment, String>)
        ensures
            match app_env {
                None => r == Ok::<Environment, String>(Environment::Local),
                Some(value) => match (Self::named(lowercased(value@)), r) {
                    (Some(expected), Ok(environment)) => environment == expected,
                    (None, Err(message)) => message@ == Self::unsupported(lowercased(value@)),
                    _ => false,
                },
            },
    {
        match app_env {
            None => Ok(Environment::Local),
            Some(value) => Environment::try_from(value),
        }
    }
}

impl TryFrom<String> for Environment {
    type Error = String;

    /// Reads the name of an environment, in whatever case it is written.
    fn try_from(value: String) -> (r: Result<Self, Self::Error>)
        ensures
            match (Environment::named(lowercased(value@)), r) {
                (Some(expected), Ok(environment)) => environment == expected,
                (None, Err(message)) => message@ == Environment::unsupported(lowercased(value@)),
                _ => false,
            },
    {
        Environment::from_lowercase(to_lowercase(value.as_str()))
    }
}

impl vstd::std_specs::convert::TryFromSpecImpl<String> for Environment {
    /// What `try_from` returns is stated in its own contract, over the
    /// characters of the texts.
    open spec fn obeys_try_from_spec() -> bool {
        false
    }

    open spec fn try_from_spec(value: String) -> Result<Self, String> {
        Err(value)
    }
}

/// The character of a decimal digit.
pub open spec fn digit(d: nat) -> char {
    ((d + 48) as u8) as char
}

/// A number in decimal notation, without leading zeros.
pub open spec fn decimal(n: nat) -> Seq<char>
    decreases n,
{
    if n < 10 {
        seq![digit(n)]
    } else {
        decimal(n / 10).push(digit(n % 10))
    }
}

/// Writes `n` in decimal notation behind `text`.
fn write_decimal(n: u16, text: &mut String)
    ensures
        final(text)@ == old(text)@ + decimal(n as nat),
    decreases n,
{
    if n >= 10 {
        write_decimal(n / 10, text);
    }
    let d: u8 = (n % 10) as u8;
    push_char(text, (d + 48) as char);
}

impl ApplicationSettings {
    /// The address that the service listens on: host and port with a colon
    /// in between.
    pub fn address(&self) -> (address: String)
        ensures
            address@ == self.host@ + ":"@ + decimal(self.port as nat),
    {
        let mut address = self.host.clone().concat(":");
        write_decimal(self.port, &mut address);
        address
    }
}

impl DatabaseSettings {
    /// The options to connect to the database server, without naming a
    /// database. The connection must be encrypted where the settings
    /// require it and is encrypted if possible where they do not.
    pub fn without_db(&self) -> (options: ConnectOptions)
        ensures
            options.host@ == self.host@,
            options.username@ == self.username@,
            options.password@ == self.password@,
            options.port == self.port,
            options.ssl_mode == (if self.require_ssl {
                SslMode::Require
            } else {
                SslMode::Prefer
            }),
            options.database is None,
    {
        let ssl_mode = if self.require_ssl {
            SslMode::Require
        } else {
            SslMode::Prefer
        };
        ConnectOptions {
            host: self.host.clone(),
            username: self.username.clone(),
            password: self.password.clone(),
            port: self.port,
            ssl_mode,
            database: None,
        }
    }

    /// The options to connect to the database of the service.
    pub fn with_db(&self) -> (options: ConnectOptions)
        ensures
            options.host@ == self.host@,
            options.username@ == self.username@,
            options.password@ == self.password@,
            options.port == self.port,
            options.ssl_mode == (if self.require_ssl {
                SslMode::Require
            } else {
                SslMode::Prefer
            }),
            options.database matches Some(name) && name@ == self.database_name@,
    {
        let mut options = self.without_db();
        options.database = Some(self.database_name.clone());
        options
    }
}

impl EmailClientSettings {
    /// The address that emails go out under, if the settings hold one.
    pub fn sender(&self) -> (r: Result<SubscriberEmail, String>)
        ensures
            match r {
                Ok(email) => is_email_address(self.sender_email@) && email@ == self.sender_email@,
                Err(message) => !is_email_address(self.sender_email@) && message@
                    == self.sender_email@ + " is not valid subscriber email"@,
            },
    {
        SubscriberEmail::parse(self.sender_email.clone())
    }

    /// How long a delivery may take, in milliseconds.
    pub fn timeout(&self) -> (milliseconds: u64)
        ensures
            milliseconds == self.timeout_milliseconds,
    {
        self.timeout_milliseconds
    }

    /// The email client that these settings describe, if their sender is an
    /// email address.
    pub fn client(&self) -> (r: Result<EmailClient, String>)
        ensures
            match r {
                Ok(client) => {
                    &&& is_email_address(self.sender_email@)
                    &&& client.base_url() == self.base_url@
                    &&& client.sender() == self.sender_email@
                    &&& client.authorization_token() == self.authorization_token@
                    &&& client.timeout_milliseconds() == self.timeout_milliseconds
                },
                Err(message) => !is_email_address(self.sender_email@) && message@
                    == self.sender_email@ + " is not valid subscriber email"@,
            },
    {
        match self.sender() {
            Ok(sender) => Ok(
                EmailClient::new(
                    self.base_url.clone(),
                    sender,
                    self.authorization_token.clone(),
                    self.timeout_milliseconds,
                ),
            ),
            Err(message) => Err(message),
        }
    }
}

} // verus!
