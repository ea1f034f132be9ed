//! Why a bridge could not be started.

use vstd::prelude::*;
use vstd::string::*;

verus! {

/// A setting that the bridge cannot start without.
#[derive(Debug, Clone, Copy, PartialEq, Eq, Structural)]
pub enum Setting {
    ChannelId,
    AutomationEnabled,
    ShowRuleName,
    HideRuleName,
}

/// The key under which the configuration source holds `setting`.
pub open spec fn key_of(setting: Setting) -> Seq<char> {
    match setting {
        Setting::ChannelId => "CHANNEL_ID"@,
        Setting::AutomationEnabled => "AITUM_ENABLED"@,
        Setting::ShowRuleName => "AITUM_SHOW_RULE"@,
        Setting::HideRuleName => "AITUM_HIDE_RULE"@,
    }
}

impl Setting {
    /// The key under which the configuration source holds this setting.
    pub fn key(self) -> (key: &'static str)
        ensures
            key@ == key_of(self),
    {
        match self {
            Setting::ChannelId => "CHANNEL_ID",
            Setting::AutomationEnabled => "AITUM_ENABLED",
            Setting::ShowRuleName => "AITUM_SHOW_RULE",
            Setting::HideRuleName => "AITUM_HIDE_RULE",
        }
    }
}

/// Why startup was abandoned. Each of these is fatal: the bridge does not run.
#[derive(Debug, PartialEq, Eq)]
pub enum StartupError {
    /// A required setting was not supplied.
    MissingSetting(Setting),
    /// The browse of the local network ended without a resolved advertisement.
    ServiceNotFound,
    /// The rule table could not be fetched or read.
    RuleTableUnavailable,
    /// The rule table has no usable identifier for the rule of this name.
    UnknownRule(String),
}

/// What a [`StartupError`] holds.
pub enum StartupErrorView {
    MissingSetting(Setting),
    ServiceNotFound,
    RuleTableUnavailable,
    UnknownRule(Seq<char>),
}

impl View for StartupError {
    type V = StartupErrorView;

    open spec fn view(&self) -> StartupErrorView {
        match self {
            StartupError::MissingSetting(setting) => StartupErrorView::MissingSetting(*setting),
            StartupError::ServiceNotFound => StartupErrorView::ServiceNotFound,
            StartupError::RuleTableUnavailable => StartupErrorView::RuleTableUnavailable,
            StartupError::UnknownRule(name) => StartupErrorView::UnknownRule(name@),
        }
    }
}

/// The message that names what was missing.
pub open spec fn message_of(error: StartupErrorView) -> Seq<char> {
    match error {
        StartupErrorView::MissingSetting(setting) => key_of(setting)
            + " is required in config.toml"@,
        StartupErrorView::ServiceNotFound => "Failed to find Aitum on the local network"@,
        StartupErrorView::RuleTableUnavailable => "Failed to communicate with Aitum"@,
        StartupErrorView::UnknownRule(name) => "Could not find rule in Aitum: "@ + name,
    }
}

impl StartupError {
    /// The message to abort with: it names the setting, the service or the
    /// rule that was missing.
    pub fn describe(&self) -> (message: String)
        ensures
            message@ == message_of(self@),
    {
        match self {
            StartupError::MissingSetting(setting) => {
                let mut message = String::from_str(setting.key());
                message.append(" is required in config.toml");
                message
            },
            StartupError::ServiceNotFound => String::from_str(
                "Failed to find Aitum on the local network",
            ),
            StartupError::RuleTableUnavailable => String::from_str(
                "Failed to communicate with Aitum",
            ),
            StartupError::UnknownRule(name) => {
                let mut message = String::from_str("Could not find rule in Aitum: ");
                message.append(name.as_str());
                message
            },
        }
    }
}

} // verus!
