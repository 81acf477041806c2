//! Status of the watcher that refreshes the index when applications are
//! installed or removed.
use crate::text::{clone_opt, opt_text, owned};
use vstd::prelude::*;

verus! {

/// What the status reports before the watcher was started.
pub const NOT_STARTED_MESSAGE: &'static str = "应用监听尚未启动";

/// The watcher's status on a platform.
#[derive(Clone, Debug)]
pub struct AppWatcherStatus {
    pub platform: String,
    pub enabled: bool,
    /// `running` or `disabled`.
    pub status: String,
    pub error: Option<String>,
}

impl AppWatcherStatus {
    /// The status of a watcher that does not run, with the reason.
    pub fn disabled(platform: &str, message: String) -> (s: Self)
        ensures
            s.platform@ == platform@,
            !s.enabled,
            s.status@ == "disabled"@,
            s.error == Some(message),
    {
        AppWatcherStatus {
            platform: owned(platform),
            enabled: false,
            status: owned("disabled"),
            error: Some(message),
        }
    }

    /// The status after trying to start the watcher: running when it
    /// started, disabled with the error otherwise.
    pub fn after_start(platform: &str, started: Result<(), String>) -> (s: Self)
        ensures
            s.platform@ == platform@,
            s.enabled == started is Ok,
            started is Ok ==> s.status@ == "running"@ && s.error is None,
            started matches Err(e) ==> s.status@ == "disabled"@ && s.error == Some(e),
    {
        match started {
            Ok(()) => AppWatcherStatus {
                platform: owned(platform),
                enabled: true,
                status: owned("running"),
                error: None,
            },
            Err(e) => AppWatcherStatus::disabled(platform, e),
        }
    }

    /// A copy with the same fields.
    pub fn duplicate(&self) -> (r: Self)
        ensures
            r.platform@ == self.platform@,
            r.enabled == self.enabled,
            r.status@ == self.status@,
            opt_text(r.error) == opt_text(self.error),
    {
        AppWatcherStatus {
            platform: self.platform.clone(),
            enabled: self.enabled,
            status: self.status.clone(),
            error: clone_opt(&self.error),
        }
    }
}

/// The last status the watcher reported.
#[derive(Clone, Debug, Default)]
pub struct AppWatcherState {
    pub current: Option<AppWatcherStatus>,
}

impl AppWatcherState {
    pub fn set_status(&mut self, status: AppWatcherStatus)
        ensures
            final(self).current == Some(status),
    {
        self.current = Some(status);
    }

    /// The last status reported, or, before any, a disabled status saying
    /// the watcher has not been started.
    pub fn status(&self, platform: &str) -> (s: AppWatcherStatus)
        ensures
            match self.current {
                Some(c) => s.platform@ == c.platform@ && s.enabled == c.enabled && s.status@
                    == c.status@ && opt_text(s.error) == opt_text(c.error),
                None => s.platform@ == platform@ && !s.enabled && s.status@ == "disabled"@
                    && opt_text(s.error) == Some(NOT_STARTED_MESSAGE@),
            },
    {
        match &self.current {
            Some(c) => c.duplicate(),
            None => AppWatcherStatus::disabled(platform, owned(NOT_STARTED_MESSAGE)),
        }
    }
}

} // verus!
