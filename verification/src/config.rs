//! The gateway's configuration, and how it is read from the environment.

use crate::text::{is_entry, lemma_entries_are_entries, list_entries, parse_list};
use vstd::prelude::*;
use vstd::string::*;

verus! {

/// What the gateway is configured with. It is built once and only read
/// afterwards.
#[derive(Debug, Clone)]
pub struct Config {
    /// Origins whose pages may embed the media.
    pub allowed_origins: Vec<String>,
    /// Whether a request without a `Referer` header is refused.
    pub block_no_referer: bool,
    /// Value of the `Cache-Control` header of every served object.
    pub cache_control: String,
    /// Name under which the object store is bound.
    pub r2_binding: String,
}

/// A configuration as plain text and flags.
pub struct ConfigView {
    pub allowed_origins: Seq<Seq<char>>,
    pub block_no_referer: bool,
    pub cache_control: Seq<char>,
    pub r2_binding: Seq<char>,
}

impl View for Config {
    type V = ConfigView;

    open spec fn view(&self) -> ConfigView {
        ConfigView {
            allowed_origins: self.allowed_origins.deep_view(),
            block_no_referer: self.block_no_referer,
            cache_control: self.cache_control@,
            r2_binding: self.r2_binding@,
        }
    }
}

impl ConfigView {
    /// There is at least one allowed origin, and each is an entry of a list:
    /// not empty, without white space at its ends, without a comma.
    pub open spec fn well_formed(self) -> bool {
        &&& self.allowed_origins.len() > 0
        &&& forall|i: int|
            0 <= i < self.allowed_origins.len() ==> is_entry(#[trigger] self.allowed_origins[i], ',')
    }
}

/// The settings as the environment holds them: each is absent or a text.
#[derive(Debug, Clone)]
pub struct EnvVars {
    /// The allowed origins, with commas between them.
    pub allowed_origins: Option<String>,
    /// `false`, in any case, to let requests without a referer through.
    pub block_no_referer: Option<String>,
    /// The `Cache-Control` value to use in place of the default.
    pub cache_control: Option<String>,
    /// The store binding to use in place of the default.
    pub r2_bucket_binding: Option<String>,
}

/// The settings as plain text.
pub struct EnvVarsView {
    pub allowed_origins: Option<Seq<char>>,
    pub block_no_referer: Option<Seq<char>>,
    pub cache_control: Option<Seq<char>>,
    pub r2_bucket_binding: Option<Seq<char>>,
}

impl View for EnvVars {
    type V = EnvVarsView;

    open spec fn view(&self) -> EnvVarsView {
        EnvVarsView {
            allowed_origins: self.allowed_origins.deep_view(),
            block_no_referer: self.block_no_referer.deep_view(),
            cache_control: self.cache_control.deep_view(),
            r2_bucket_binding: self.r2_bucket_binding.deep_view(),
        }
    }
}

impl EnvVars {
    /// Name of the variable that lists the allowed origins.
    pub const ALLOWED_ORIGINS: &'static str = "ALLOWED_ORIGINS";

    /// Name of the variable that says whether a missing referer is refused.
    pub const BLOCK_NO_REFERER: &'static str = "BLOCK_NO_REFERER";

    /// Name of the variable that replaces the `Cache-Control` value.
    pub const CACHE_CONTROL: &'static str = "CACHE_CONTROL";

    /// Name of the variable that replaces the store binding.
    pub const R2_BUCKET_BINDING: &'static str = "R2_BUCKET_BINDING";
}

/// Why no configuration could be built.
#[derive(Debug, Clone, Copy, PartialEq, Eq, Structural)]
pub enum ConfigError {
    /// The list of allowed origins is not set.
    MissingOrigins,
    /// The list of allowed origins holds no origin.
    NoOrigins,
}

impl ConfigError {
    /// The text that describes the error.
    pub open spec fn spec_message(self) -> Seq<char> {
        match self {
            ConfigError::MissingOrigins => "ALLOWED_ORIGINS environment variable is required"@,
            ConfigError::NoOrigins => "ALLOWED_ORIGINS must contain at least one origin"@,
        }
    }

    /// Describes the error for an operator. The text is not meant for clients.
    pub fn message(&self) -> (text: &'static str)
        ensures
            text@ == self.spec_message(),
    {
        match self {
            ConfigError::MissingOrigins => "ALLOWED_ORIGINS environment variable is required",
            ConfigError::NoOrigins => "ALLOWED_ORIGINS must contain at least one origin",
        }
    }
}

/// Whether `c` is the letter `lower` in either case; `lower` is a lower-case
/// ASCII letter and `upper` its upper-case form.
pub open spec fn is_letter(c: char, lower: char, upper: char) -> bool {
    c == lower || c == upper
}

/// Whether `v` spells `false`, in any mix of upper and lower case.
pub open spec fn says_false(v: Seq<char>) -> bool {
    &&& v.len() == 5
    &&& is_letter(v[0], 'f', 'F')
    &&& is_letter(v[1], 'a', 'A')
    &&& is_letter(v[2], 'l', 'L')
    &&& is_letter(v[3], 's', 'S')
    &&& is_letter(v[4], 'e', 'E')
}

/// Decides whether a setting spells `false`.
pub fn is_false(v: &str) -> (r: bool)
    ensures
        r == says_false(v@),
{
    if v.unicode_len() != 5 {
        return false;
    }
    let c0 = v.get_char(0);
    let c1 = v.get_char(1);
    let c2 = v.get_char(2);
    let c3 = v.get_char(3);
    let c4 = v.get_char(4);
    (c0 == 'f' || c0 == 'F') && (c1 == 'a' || c1 == 'A') && (c2 == 'l' || c2 == 'L') && (c3 == 's'
        || c3 == 'S') && (c4 == 'e' || c4 == 'E')
}

impl Config {
    /// `Cache-Control` value used when none is configured: objects never change.
    pub const DEFAULT_CACHE_CONTROL: &'static str = "public, max-age=31536000, immutable";

    /// Store binding used when none is configured.
    pub const DEFAULT_R2_BINDING: &'static str = "MEDIA_BUCKET";

    /// The configuration that the settings describe, or why there is none.
    ///
    /// The origins are the entries of the comma-separated list, in its order.
    /// A missing referer is refused unless the setting spells `false`. The
    /// other two settings replace a default.
    pub open spec fn spec_from_env(env: EnvVarsView) -> Result<ConfigView, ConfigError> {
        match env.allowed_origins {
            None => Err(ConfigError::MissingOrigins),
            Some(list) => if list_entries(list, ',').len() == 0 {
                Err(ConfigError::NoOrigins)
            } else {
                Ok(
                    ConfigView {
                        allowed_origins: list_entries(list, ','),
                        block_no_referer: match env.block_no_referer {
                            Some(v) => !says_false(v),
                            None => true,
                        },
                        cache_control: match env.cache_control {
                            Some(v) => v,
                            None => Config::DEFAULT_CACHE_CONTROL@,
                        },
                        r2_binding: match env.r2_bucket_binding {
                            Some(v) => v,
                            None => Config::DEFAULT_R2_BINDING@,
                        },
                    },
                )
            },
        }
    }

    /// Builds the configuration from the settings of the environment.
    ///
    /// Fails when the list of allowed origins is not set, or holds nothing
    /// but separators and white space.
    pub fn from_env(env: &EnvVars) -> (r: Result<Config, ConfigError>)
        ensures
            match r {
                Ok(config) => Config::spec_from_env(env@) == Ok::<ConfigView, ConfigError>(
                    config@,
                ) && config@.well_formed(),
                Err(e) => Config::spec_from_env(env@) == Err::<ConfigView, ConfigError>(e),
            },
    {
        let list = match &env.allowed_origins {
            Some(list) => list,
            None => { return Err(ConfigError::MissingOrigins); },
        };
        let allowed_origins = parse_list(list.as_str(), ',');
        if allowed_origins.len() == 0 {
            return Err(ConfigError::NoOrigins);
        }
        let block_no_referer = match &env.block_no_referer {
            Some(v) => !is_false(v.as_str()),
            None => true,
        };
        let cache_control = match &env.cache_control {
            Some(v) => v.clone(),
            None => Config::DEFAULT_CACHE_CONTROL.to_owned(),
        };
        let r2_binding = match &env.r2_bucket_binding {
            Some(v) => v.clone(),
            None => Config::DEFAULT_R2_BINDING.to_owned(),
        };
        let config = Config { allowed_origins, block_no_referer, cache_control, r2_binding };
        proof {
            lemma_entries_are_entries(list@, ',');
        }
        Ok(config)
    }
}

} // verus!
