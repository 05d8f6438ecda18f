use vstd::prelude::*;

verus! {

/// How the single outbound request is made: browser-like headers (a
/// deliberate anti-blocking measure, since some servers strip or reject
/// responses to automation user agents) and an optional timeout bound in
/// milliseconds. `None` means no explicit timeout: the transport's own
/// defaults apply and an unresponsive host can stall the call.
pub struct FetchConfig {
    pub user_agent: String,
    pub accept: String,
    pub accept_language: String,
    pub timeout_ms: Option<u64>,
}

impl FetchConfig {
    /// The default configuration: a realistic desktop-browser user agent,
    /// standard browser `Accept` and `Accept-Language` headers, and no
    /// explicit timeout.
    pub fn browser_like() -> (r: FetchConfig)
        ensures
            r.user_agent@
                == "Mozilla/5.0 (Windows NT 10.0; Win64; x64) AppleWebKit/537.36 (KHTML, like Gecko) Chrome/120.0.0.0 Safari/537.36"@,
            r.accept@
                == "text/html,application/xhtml+xml,application/xml;q=0.9,image/webp,*/*;q=0.8"@,
            r.accept_language@ == "en-US,en;q=0.5"@,
            r.timeout_ms is None,
    {
        FetchConfig {
            user_agent: String::from_str(
                "Mozilla/5.0 (Windows NT 10.0; Win64; x64) AppleWebKit/537.36 (KHTML, like Gecko) Chrome/120.0.0.0 Safari/537.36",
            ),
            accept: String::from_str(
                "text/html,application/xhtml+xml,application/xml;q=0.9,image/webp,*/*;q=0.8",
            ),
            accept_language: String::from_str("en-US,en;q=0.5"),
            timeout_ms: None,
        }
    }

    /// The same configuration with an explicit timeout bound.
    pub fn with_timeout(self, ms: u64) -> (r: FetchConfig)
        ensures
            r.user_agent@ == self.user_agent@,
            r.accept@ == self.accept@,
            r.accept_language@ == self.accept_language@,
            r.timeout_ms == Some(ms),
    {
        FetchConfig {
            user_agent: self.user_agent,
            accept: self.accept,
            accept_language: self.accept_language,
            timeout_ms: Some(ms),
        }
    }
}

} // verus!
