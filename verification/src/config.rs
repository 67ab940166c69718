use vstd::prelude::*;

use crate::domain::consts::DEFAULT_RATE_LIMIT_PER_USER;
use crate::text::{debug_str, nat_decimal, str_debug, u64_to_decimal};

verus! {

/// The settings read from the environment.
#[derive(Clone, PartialEq, Eq)]
pub struct Config {
    pub database_url: String,
    pub redis_url: String,
    pub ai_api_key: String,
    pub ai_api_url: String,
    pub ai_model: String,
    pub rate_per_user: usize,
}

/// The rate limit per user when the environment sets none.
pub fn default_rate_per_user() -> (r: usize)
    ensures
        r == DEFAULT_RATE_LIMIT_PER_USER,
{
    DEFAULT_RATE_LIMIT_PER_USER
}

impl Config {
    /// The settings as `Debug` shows them, with the database and Redis URLs and
    /// the API key masked as `***`.
    pub open spec fn redacted_text(self) -> Seq<char> {
        "Config { database_url: "@ + str_debug("***"@) + ", redis_url: "@ + str_debug("***"@)
            + ", ai_api_key: "@ + str_debug("***"@) + ", ai_api_url: "@ + str_debug(
            self.ai_api_url@,
        ) + ", ai_model: "@ + str_debug(self.ai_model@) + ", rate_per_user: "@ + nat_decimal(
            self.rate_per_user as nat,
        ) + " }"@
    }

    /// The settings as `Debug` shows them, secrets masked.
    pub fn redacted(&self) -> (s: String)
        ensures
            s@ == self.redacted_text(),
    {
        let mut s = String::from_str("Config { database_url: ");
        s.append(debug_str("***").as_str());
        s.append(", redis_url: ");
        s.append(debug_str("***").as_str());
        s.append(", ai_api_key: ");
        s.append(debug_str("***").as_str());
        s.append(", ai_api_url: ");
        s.append(debug_str(self.ai_api_url.as_str()).as_str());
        s.append(", ai_model: ");
        s.append(debug_str(self.ai_model.as_str()).as_str());
        s.append(", rate_per_user: ");
        s.append(u64_to_decimal(self.rate_per_user as u64).as_str());
        s.append(" }");
        s
    }
}

} // verus!
