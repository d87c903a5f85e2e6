//! The runtime environment that selects the configuration file.

use vstd::prelude::*;
use vstd::string::*;

verus! {

/// The possible runtime environments for the service.
#[derive(Debug, Clone, Copy, PartialEq, Eq, Structural)]
pub enum Environment {
    Local,
    Production,
}

/// The lower-case form that `str::to_lowercase` gives a string.
pub uninterp spec fn lowercase(s: Seq<char>) -> Seq<char>;

/// The text of the error for a name that stands for no environment.
pub open spec fn unsupported_environment_message(name: Seq<char>) -> Seq<char> {
    name + " is not a supported environment. Use either 'local' or 'production'"@
}

/// Calls `str::to_lowercase`.
#[verifier::external_body]
fn to_lowercase(s: &str) -> (lowered: String)
    ensures
        lowered@ == lowercase(s@),
{
    s.to_lowercase()
}

impl Environment {
    /// The name of the environment: `"local"` or `"production"`.
    pub fn as_str(&self) -> (name: &'static str)
        ensures
            name@ == (match *self {
                Environment::Local => "local"@,
                Environment::Production => "production"@,
            }),
    {
        match self {
            Environment::Local => "local",
            Environment::Production => "production",
        }
    }

    /// Reads an environment from its name, whatever the case of its letters.
    /// The error is the lower-case form of `value` followed by
    /// `" is not a supported environment. Use either 'local' or 'production'"`.
    pub fn try_from(value: String) -> (parsed: Result<Environment, String>)
        ensures
            match parsed {
                Ok(Environment::Local) => lowercase(value@) == "local"@,
                Ok(Environment::Production) => lowercase(value@) == "production"@,
                Err(message) => {
                    &&& lowercase(value@) != "local"@
                    &&& lowercase(value@) != "production"@
                    &&& message@ == unsupported_environment_message(lowercase(value@))
                },
            },
    {
        let lowered = to_lowercase(value.as_str());
        if lowered == String::from_str("local") {
            Ok(Environment::Local)
        } else if lowered == String::from_str("production") {
            Ok(Environment::Production)
        } else {
            Err(lowered.concat(" is not a supported environment. Use either 'local' or 'production'"))
        }
    }

    /// The name of the configuration file of the environment: its name
    /// followed by `".yml"`.
    pub fn file_name(&self) -> (name: String)
        ensures
            name@ == (match *self {
                Environment::Local => "local"@,
                Environment::Production => "production"@,
            }) + ".yml"@,
    {
        String::from_str(self.as_str()).concat(".yml")
    }
}

} // verus!
