use vstd::prelude::*;
use vstd::std_specs::convert::TryFromSpecImpl;

verus! {

/// Everything the process is configured with.
pub struct Settings {
    pub app: AppSettings,
}

/// Where the server listens.
pub struct AppSettings {
    pub port: u16,
    pub host: String,
}

/// The deployment a configuration is written for.
#[derive(Debug, Clone, Copy, PartialEq, Eq, Structural)]
pub enum Environment {
    Local,
    Production,
}

/// `s` in lower case, as `str::to_lowercase` of the standard library gives it.
pub uninterp spec fn lowercase_of(s: Seq<char>) -> Seq<char>;

/// Calls `str::to_lowercase`. The result is a function of the text alone and
/// is known to contracts only under the name `lowercase_of`.
#[verifier::external_body]
fn to_lowercase(s: &str) -> (r: String)
    ensures
        r@ == lowercase_of(s@),
{
    s.to_lowercase()
}

impl Environment {
    /// The name under which the environment's configuration file is kept.
    pub open spec fn name(self) -> Seq<char> {
        match self {
            Environment::Local => "local"@,
            Environment::Production => "production"@,
        }
    }

    /// What is said of a name that stands for no environment.
    pub open spec fn unsupported(name: Seq<char>) -> Seq<char> {
        name + " is not a supported environment. Use either `local` or `production`"@
    }

    /// The environment that an already lower-cased name stands for, or the
    /// complaint about that name.
    pub open spec fn named(lower: Seq<char>) -> Result<Environment, Seq<char>> {
        if lower == "local"@ {
            Ok(Environment::Local)
        } else if lower == "production"@ {
            Ok(Environment::Production)
        } else {
            Err(Self::unsupported(lower))
        }
    }

    pub fn as_str(&self) -> (r: &'static str)
        ensures
            r@ == self.name(),
    {
        match self {
            Environment::Local => "local",
            Environment::Production => "production",
        }
    }

    /// Reads an environment from a name that is already in lower case.
    pub fn from_lowercase(lower: &str) -> (r: Result<Environment, String>)
        ensures
            match Self::named(lower@) {
                Ok(e) => r == Ok::<Environment, String>(e),
                Err(msg) => r matches Err(m) && m@ == msg,
            },
    {
        if lower.eq("local") {
            Ok(Environment::Local)
        } else if lower.eq("production") {
            Ok(Environment::Production)
        } else {
            let msg = lower.to_owned().concat(
                " is not a supported environment. Use either `local` or `production`",
            );
            Err(msg)
        }
    }
}

impl TryFromSpecImpl<String> for Environment {
    /// The error carries a text, so the conversion is described by the
    /// `ensures` of `try_from` over `named`, not by `try_from_spec`.
    open spec fn obeys_try_from_spec() -> bool {
        false
    }

    open spec fn try_from_spec(value: String) -> Result<Self, String> {
        Ok(Environment::Local)
    }
}

impl TryFrom<String> for Environment {
    type Error = String;

    /// Reads an environment from its name, whatever the case of its letters.
    fn try_from(value: String) -> (r: Result<Self, String>)
        ensures
            match Environment::named(lowercase_of(value@)) {
                Ok(e) => r == Ok::<Environment, String>(e),
                Err(msg) => r matches Err(m) && m@ == msg,
            },
    {
        let lower = to_lowercase(value.as_str());
        Environment::from_lowercase(lower.as_str())
    }
}

} // verus!
