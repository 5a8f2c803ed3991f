//! Deployment settings and the runtime environment they are selected by.

use crate::domain::subscriber_email::{
    is_malformed_address, is_valid_email, rejection_of, SubscriberEmail,
};
use vstd::prelude::*;

verus! {

/// The time allowed for getting hold of a connection to the store, in
/// seconds: where the store is exhausted, requests fail fast and do not queue.
pub const ACQUIRE_TIMEOUT_SECONDS: u64 = 2;

/// Everything the service is configured with, but for its secrets.
#[derive(Clone, Debug)]
pub struct Settings {
    pub database: DatabaseSettings,
    pub application: ApplicationSettings,
    pub email_client: EmailClientSettings,
}

/// How to reach the mail service and in whose name to write. The service's
/// access token is a secret and is kept apart from these settings.
#[derive(Clone, Debug)]
pub struct EmailClientSettings {
    pub base_url: String,
    pub sender_email: String,
    pub timeout_millis: u64,
}

impl EmailClientSettings {
    /// The configured sender, if it is a valid email address.
    pub fn sender(&self) -> (r: Result<SubscriberEmail, String>)
        ensures
            r is Ok <==> is_valid_email(self.sender_email@),
            is_malformed_address(self.sender_email@) ==> r is Err,
            r matches Ok(e) ==> e@ == self.sender_email@,
            r matches Err(m) ==> m@ == rejection_of(self.sender_email@),
    {
        SubscriberEmail::parse(self.sender_email.clone())
    }

    /// The time allowed for one delivery request, in whole seconds: the
    /// configured number, taken as seconds.
    pub fn timeout(&self) -> (seconds: u64)
        ensures
            seconds == self.timeout_millis,
    {
        self.timeout_millis
    }
}

/// Where the service listens and under which address the outside reaches it.
#[derive(Clone, Debug)]
pub struct ApplicationSettings {
    pub port: u16,
    pub host: String,
    pub base_url: String,
}

/// Where the database is and how to log in to it.
#[derive(Clone, Debug)]
pub struct DatabaseSettings {
    pub name: String,
    pub password: String,
    pub host: String,
    pub database_name: String,
    pub port: u16,
}

/// The parameters of one connection to the database server.
#[derive(Debug)]
pub struct ConnectOptions {
    pub host: String,
    pub username: String,
    pub password: String,
    pub port: u16,
    /// The database to open; `None` connects to the server alone.
    pub database: Option<String>,
}

impl DatabaseSettings {
    /// The parameters of a connection to the server that opens no database.
    pub fn without_db(&self) -> (options: ConnectOptions)
        ensures
            options.host@ == self.host@,
            options.username@ == self.name@,
            options.password@ == self.password@,
            options.port == self.port,
            options.database is None,
    {
        ConnectOptions {
            host: self.host.clone(),
            username: self.name.clone(),
            password: self.password.clone(),
            port: self.port,
            database: None,
        }
    }

    /// The parameters of a connection that opens the configured database.
    pub fn with_db(&self) -> (options: ConnectOptions)
        ensures
            options.host@ == self.host@,
            options.username@ == self.name@,
            options.password@ == self.password@,
            options.port == self.port,
            options.database matches Some(database) && database@ == self.database_name@,
    {
        let mut options = self.without_db();
        options.database = Some(self.database_name.clone());
        options
    }
}

/// The runtime environment that selects the settings file layered on top of
/// the base settings.
#[derive(Clone, Copy, Debug, PartialEq, Eq, Structural)]
pub enum Environment {
    Local,
    Development,
    Production,
}

/// The lower-case form of `s` that `str::to_lowercase` gives, by the case
/// mappings of Unicode.
pub uninterp spec fn lowercase_of(s: Seq<char>) -> Seq<char>;

/// Lowers the case of `s` with `str::to_lowercase`.
///
/// Trusted: the result depends on the characters of `s` alone.
#[verifier::external_body]
fn to_lowercase(s: &str) -> (lower: String)
    ensures
        lower@ == lowercase_of(s@),
{
    s.to_lowercase()
}

/// The environment that goes by exactly `name`.
pub open spec fn named(name: Seq<char>) -> Option<Environment> {
    if name == "local"@ {
        Some(Environment::Local)
    } else if name == "development"@ {
        Some(Environment::Development)
    } else if name == "production"@ {
        Some(Environment::Production)
    } else {
        None
    }
}

/// The message with which an unknown environment name is rejected.
pub open spec fn unsupported(name: Seq<char>) -> Seq<char> {
    name + " is not a supported environment"@
}

/// The outcome of looking an environment up by `name`.
pub open spec fn lookup(name: Seq<char>, r: Result<Environment, String>) -> bool {
    match named(name) {
        Some(environment) => r matches Ok(found) && found == environment,
        None => r matches Err(message) && message@ == unsupported(name),
    }
}

impl Environment {
    /// The lower-case name of the environment, as used in file names.
    pub open spec fn name(self) -> Seq<char> {
        match self {
            Environment::Local => "local"@,
            Environment::Development => "development"@,
            Environment::Production => "production"@,
        }
    }

    /// The name under which the environment's settings file is stored.
    pub fn as_str(&self) -> (s: &'static str)
        ensures
            s@ == self.name(),
    {
        match self {
            Environment::Local => "local",
            Environment::Development => "development",
            Environment::Production => "production",
        }
    }

    /// Looks an environment up by its exact, lower-case name.
    pub fn from_name(name: String) -> (r: Result<Environment, String>)
        ensures
            lookup(name@, r),
    {
        if name == String::from_str("local") {
            Ok(Environment::Local)
        } else if name == String::from_str("development") {
            Ok(Environment::Development)
        } else if name == String::from_str("production") {
            Ok(Environment::Production)
        } else {
            Err(name.concat(" is not a supported environment"))
        }
    }

    /// Looks an environment up by name, whatever the case of its letters. The
    /// error names the value in lower case.
    pub fn try_from(value: String) -> (r: Result<Environment, String>)
        ensures
            lookup(lowercase_of(value@), r),
    {
        Self::from_name(to_lowercase(value.as_str()))
    }

    /// The environment that the variable `APP_ENVIRONMENT` selects: the one
    /// it names, or `local` where it is not set.
    pub fn from_variable(value: Option<String>) -> (r: Result<Environment, String>)
        ensures
            match value {
                Some(value) => lookup(lowercase_of(value@), r),
                None => r == Ok::<Environment, String>(Environment::Local),
            },
    {
        match value {
            Some(value) => Self::try_from(value),
            None => Ok(Environment::Local),
        }
    }

    /// The name of the settings file of the environment.
    pub fn settings_file(&self) -> (file: String)
        ensures
            file@ == self.name() + ".yaml"@,
    {
        String::from_str(self.as_str()).concat(".yaml")
    }
}

} // verus!
