//! Where the application runs.

use vstd::prelude::*;
use vstd::string::*;

verus! {

/// The environment that the application runs in.
#[derive(Clone, Copy, Debug, PartialEq, Eq, Structural)]
pub enum Environment {
    Local,
    Production,
}

/// `s` in lowercase, as `str::to_lowercase` gives it.
pub uninterp spec fn lowercase(s: Seq<char>) -> Seq<char>;

/// What a name that stands for no environment is answered with.
pub open spec fn environment_error(name: Seq<char>) -> Seq<char> {
    name + " is not a supported environment. Use either `local` or `production`."@
}

/// The environment that a name in lowercase stands for.
pub open spec fn environment_named(name: Seq<char>) -> Result<Environment, Seq<char>> {
    if name == "local"@ {
        Ok(Environment::Local)
    } else if name == "production"@ {
        Ok(Environment::Production)
    } else {
        Err(environment_error(name))
    }
}

/// Turns `s` into lowercase with `str::to_lowercase`.
///
/// Trusted: the result is the standard library's, named [`lowercase`];
/// nothing more is claimed of it.
#[verifier::external_body]
fn to_lowercase(s: &str) -> (lowered: String)
    ensures
        lowered@ == lowercase(s@),
{
    s.to_lowercase()
}

impl Environment {
    /// The name of the environment.
    pub fn as_str(&self) -> (name: &'static str)
        ensures
            name@ == (match self {
                Environment::Local => "local"@,
                Environment::Production => "production"@,
            }),
    {
        match self {
            Environment::Local => "local",
            Environment::Production => "production",
        }
    }

    /// Whether this is the local environment.
    pub fn is_local(&self) -> (local: bool)
        ensures
            local == (*self == Environment::Local),
    {
        *self == Environment::Local
    }

    /// Whether this is the production environment.
    pub fn is_production(&self) -> (production: bool)
        ensures
            production == (*self == Environment::Production),
    {
        *self == Environment::Production
    }

    /// The environment that `s` names, whatever the case of its letters.
    pub fn try_from(s: String) -> (r: Result<Environment, String>)
        ensures
            r matches Ok(environment) ==> environment_named(lowercase(s@)) == Ok::<
                Environment,
                Seq<char>,
            >(environment),
            r matches Err(reason) ==> environment_named(lowercase(s@)) == Err::<
                Environment,
                Seq<char>,
            >(reason@),
    {
        Environment::from_lowercase(to_lowercase(s.as_str()))
    }

    /// The environment that a name in lowercase stands for: `local` or
    /// `production`, and nothing else.
    pub fn from_lowercase(name: String) -> (r: Result<Environment, String>)
        ensures
            r matches Ok(environment) ==> environment_named(name@) == Ok::<Environment, Seq<char>>(
                environment,
            ),
            r matches Err(reason) ==> environment_named(name@) == Err::<Environment, Seq<char>>(
                reason@,
            ),
    {
        if name == String::from_str("local") {
            Ok(Environment::Local)
        } else if name == String::from_str("production") {
            Ok(Environment::Production)
        } else {
            let mut reason = name;
            reason.append(" is not a supported environment. Use either `local` or `production`.");
            Err(reason)
        }
    }
}

} // verus!
