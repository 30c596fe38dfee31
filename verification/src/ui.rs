//! Notification decisions: which of the installed notification tools to
//! use, and the exact argument lists handed to each. Probing the system for
//! the tools and spawning them is the surrounding program's job.

use vstd::prelude::*;
use vstd::string::StringExecFns;

use crate::config::UiConfig;
use crate::error::TjvoxError;
use crate::strutil::{dec_str_of, u64_to_string};

verus! {

/// Relies on which::which: whether an executable of this name is on the
/// runtime search path; the outcome depends on the machine, so nothing is
/// promised of it.
#[verifier::external_body]
fn command_exists(name: &str) -> bool {
    which::which(name).is_ok()
}

/// Where one notification goes.
#[derive(Debug, Clone, Copy, PartialEq, Eq, Structural)]
pub enum NotifyBackend {
    /// Notifications are switched off; nothing is shown.
    Silent,
    LibNotify,
    KDialog,
    Zenity,
    /// No notification tool is installed; the console has to do.
    Console,
}

#[derive(Clone)]
pub struct UiManager {
    pub config: UiConfig,
    pub has_notify_send: bool,
    pub has_kdialog: bool,
    pub has_zenity: bool,
}

impl UiManager {
    /// A manager with default settings, probing the system for the
    /// notification tools.
    pub fn new() -> (r: Result<UiManager, TjvoxError>)
        ensures
            r matches Ok(m) && m.config.show_notifications == false
                && m.config.notification_timeout_ms == 0,
    {
        Ok(Self::with_config(&UiConfig::default()))
    }

    /// A manager with the given settings, probing the system for the
    /// notification tools.
    pub fn with_config(config: &UiConfig) -> (r: UiManager)
        ensures
            r.config == *config,
    {
        UiManager {
            config: UiConfig {
                show_notifications: config.show_notifications,
                notification_timeout_ms: config.notification_timeout_ms,
            },
            has_notify_send: command_exists("notify-send"),
            has_kdialog: command_exists("kdialog"),
            has_zenity: command_exists("zenity"),
        }
    }

    pub open spec fn backend_spec(&self) -> NotifyBackend {
        if !self.config.show_notifications {
            NotifyBackend::Silent
        } else if self.has_notify_send {
            NotifyBackend::LibNotify
        } else if self.has_kdialog {
            NotifyBackend::KDialog
        } else if self.has_zenity {
            NotifyBackend::Zenity
        } else {
            NotifyBackend::Console
        }
    }

    /// Which tool a notification goes through: none while notifications are
    /// off, else the first of notify-send, kdialog and zenity that is
    /// installed, else the console.
    pub fn notification_backend(&self) -> (r: NotifyBackend)
        ensures
            r == self.backend_spec(),
    {
        if !self.config.show_notifications {
            NotifyBackend::Silent
        } else if self.has_notify_send {
            NotifyBackend::LibNotify
        } else if self.has_kdialog {
            NotifyBackend::KDialog
        } else if self.has_zenity {
            NotifyBackend::Zenity
        } else {
            NotifyBackend::Console
        }
    }

    /// The notify-send invocation: the configured expiry, then title and
    /// message.
    pub fn notify_send_args(&self, title: &str, message: &str) -> (r: Vec<String>)
        ensures
            r.deep_view() =~= seq![
                "--expire-time"@,
                dec_str_of(self.config.notification_timeout_ms as nat),
                title@,
                message@,
            ],
    {
        let mut r: Vec<String> = Vec::new();
        r.push(String::from_str("--expire-time"));
        r.push(u64_to_string(self.config.notification_timeout_ms));
        r.push(title.to_owned());
        r.push(message.to_owned());
        proof {
            assert(r.deep_view() =~= seq![
                "--expire-time"@,
                dec_str_of(self.config.notification_timeout_ms as nat),
                title@,
                message@,
            ]);
        }
        r
    }

    /// The kdialog invocation: a passive popup for at least one second.
    pub fn kdialog_args(&self, title: &str, message: &str) -> (r: Vec<String>)
        ensures
            r.deep_view() =~= seq![
                "--passivepopup"@,
                message@,
                dec_str_of(
                    (if self.config.notification_timeout_ms / 1000 >= 1 {
                        self.config.notification_timeout_ms / 1000
                    } else {
                        1u64
                    }) as nat,
                ),
                "--title"@,
                title@,
            ],
    {
        let secs = self.config.notification_timeout_ms / 1000;
        let secs = if secs < 1 {
            1
        } else {
            secs
        };
        let mut r: Vec<String> = Vec::new();
        r.push(String::from_str("--passivepopup"));
        r.push(message.to_owned());
        r.push(u64_to_string(secs));
        r.push(String::from_str("--title"));
        r.push(title.to_owned());
        proof {
            assert(r.deep_view() =~= seq![
                "--passivepopup"@,
                message@,
                dec_str_of(secs as nat),
                "--title"@,
                title@,
            ]);
        }
        r
    }

    /// The zenity invocation: an info dialog with a timeout in seconds.
    pub fn zenity_args(&self, title: &str, message: &str) -> (r: Vec<String>)
        ensures
            r.deep_view() =~= seq![
                "--info"@,
                "--title"@,
                title@,
                "--text"@,
                message@,
                "--timeout"@,
                dec_str_of((self.config.notification_timeout_ms / 1000) as nat),
            ],
    {
        let mut r: Vec<String> = Vec::new();
        r.push(String::from_str("--info"));
        r.push(String::from_str("--title"));
        r.push(title.to_owned());
        r.push(String::from_str("--text"));
        r.push(message.to_owned());
        r.push(String::from_str("--timeout"));
        r.push(u64_to_string(self.config.notification_timeout_ms / 1000));
        proof {
            assert(r.deep_view() =~= seq![
                "--info"@,
                "--title"@,
                title@,
                "--text"@,
                message@,
                "--timeout"@,
                dec_str_of((self.config.notification_timeout_ms / 1000) as nat),
            ]);
        }
        r
    }

    /// The notify-send invocation for an error: critical urgency, whatever
    /// the timeout settings say.
    pub fn error_args(&self, title: &str, error: &str) -> (r: Vec<String>)
        ensures
            r.deep_view() =~= seq!["--urgency"@, "critical"@, title@, error@],
    {
        let mut r: Vec<String> = Vec::new();
        r.push(String::from_str("--urgency"));
        r.push(String::from_str("critical"));
        r.push(title.to_owned());
        r.push(error.to_owned());
        proof {
            assert(r.deep_view() =~= seq!["--urgency"@, "critical"@, title@, error@]);
        }
        r
    }
}

impl Default for UiManager {
    fn default() -> (r: Self)
        ensures
            r.config.show_notifications == false,
            r.config.notification_timeout_ms == 0,
    {
        Self::with_config(&UiConfig::default())
    }
}

} // verus!
