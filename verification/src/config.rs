use crate::text::same_text;
use vstd::prelude::*;
use vstd::string::StringExecFns;

verus! {

/// The settings of the whole service.
#[derive(Clone, Debug)]
pub struct Settings {
    pub application: ApplicationSettings,
    pub database: DatabaseSettings,
    pub email: EmailSettings,
}

/// Where the service listens, and the key for the weather lookups.
#[derive(Clone, Debug)]
pub struct ApplicationSettings {
    pub host: String,
    pub port: u16,
    pub open_weather_api_key: String,
}

/// How the store is reached.
#[derive(Clone, Debug)]
pub struct DatabaseSettings {
    pub username: String,
    pub password: String,
    pub host: String,
    pub port: u16,
    pub database_name: String,
}

/// How mail is sent, and where its templates lie.
#[derive(Clone, Debug)]
pub struct EmailSettings {
    pub username: String,
    pub password: String,
    pub templates_dir: String,
}

/// The possible runtime environments of the service.
#[derive(Clone, Copy, Debug, PartialEq, Eq, Structural)]
pub enum Environment {
    Dev,
    Production,
}

/// `text` in lower case, as `str::to_lowercase` gives it.
pub uninterp spec fn lowercase_of(text: Seq<char>) -> Seq<char>;

/// Calls `str::to_lowercase`. Claims that the result depends on the text
/// alone.
#[verifier::external_body]
pub(crate) fn to_lowercase(text: &str) -> (lower: String)
    ensures
        lower@ == lowercase_of(text@),
{
    text.to_lowercase()
}

impl Environment {
    /// The name of the environment, which is also the stem of the name of its
    /// settings file.
    pub open spec fn name_spec(self) -> Seq<char> {
        match self {
            Environment::Dev => "dev"@,
            Environment::Production => "production"@,
        }
    }

    /// The name of the environment.
    pub fn as_str(&self) -> (name: &'static str)
        ensures
            name@ == self.name_spec(),
    {
        match self {
            Environment::Dev => "dev",
            Environment::Production => "production",
        }
    }

    /// The environment that a name, already in lower case, stands for.
    pub fn from_lowercase(lower: &str) -> (r: Result<Environment, String>)
        ensures
            match r {
                Ok(environment) => lower@ == environment.name_spec(),
                Err(message) => {
                    &&& lower@ != "dev"@
                    &&& lower@ != "production"@
                    &&& message@ == lower@
                        + " is not a supported environment. Use either `dev` or `production`."@
                },
            },
    {
        if same_text(lower, "dev") {
            Ok(Environment::Dev)
        } else if same_text(lower, "production") {
            Ok(Environment::Production)
        } else {
            let message = lower.to_owned();
            Err(
                message.concat(
                    " is not a supported environment. Use either `dev` or `production`.",
                ),
            )
        }
    }

    /// The environment that `s` names, in whatever case it is written.
    pub fn try_from(s: String) -> (r: Result<Environment, String>)
        ensures
            match r {
                Ok(environment) => lowercase_of(s@) == environment.name_spec(),
                Err(message) => {
                    &&& lowercase_of(s@) != "dev"@
                    &&& lowercase_of(s@) != "production"@
                    &&& message@ == lowercase_of(s@)
                        + " is not a supported environment. Use either `dev` or `production`."@
                },
            },
    {
        let lower = to_lowercase(s.as_str());
        Environment::from_lowercase(lower.as_str())
    }
}

} // verus!
