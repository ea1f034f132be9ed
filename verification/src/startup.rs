//! Startup: from settings to a complete configuration, step by step.
//!
//! Startup may have to wait for the outside world twice: for a browse of the
//! local network, where the address of the automation service is not
//! configured, and for the service's rule table. Each function here takes
//! what the outside world answered and says what is to be done next. The
//! caller does the waiting.

use crate::config::{text_of, AutomationView, BridgeConfig, BridgeConfigView, Settings, SettingsView};
use crate::endpoint::{base_address, base_address_of, rules_url, rules_url_of};
use crate::error::{Setting, StartupError, StartupErrorView};
use crate::rules::{resolve, resolve_model, RuleTable};
use vstd::prelude::*;
use vstd::string::*;

verus! {

/// Startup that waits for the automation service to be found on the network.
#[derive(Debug, PartialEq, Eq)]
pub struct Locating {
    channel_id: String,
    show_rule_name: String,
    hide_rule_name: String,
}

/// What a [`Locating`] holds.
pub struct LocatingView {
    pub channel_id: Seq<char>,
    pub show_rule_name: Seq<char>,
    pub hide_rule_name: Seq<char>,
}

impl View for Locating {
    type V = LocatingView;

    closed spec fn view(&self) -> LocatingView {
        LocatingView {
            channel_id: self.channel_id@,
            show_rule_name: self.show_rule_name@,
            hide_rule_name: self.hide_rule_name@,
        }
    }
}

/// Startup that knows where the automation service is and waits for its rule
/// table.
#[derive(Debug, PartialEq, Eq)]
pub struct Resolving {
    channel_id: String,
    show_rule_name: String,
    hide_rule_name: String,
    base_url: String,
}

/// What a [`Resolving`] holds.
pub struct ResolvingView {
    pub channel_id: Seq<char>,
    pub show_rule_name: Seq<char>,
    pub hide_rule_name: Seq<char>,
    pub base_url: Seq<char>,
}

impl View for Resolving {
    type V = ResolvingView;

    closed spec fn view(&self) -> ResolvingView {
        ResolvingView {
            channel_id: self.channel_id@,
            show_rule_name: self.show_rule_name@,
            hide_rule_name: self.hide_rule_name@,
            base_url: self.base_url@,
        }
    }
}

/// What startup asks of its caller next.
#[derive(Debug, PartialEq, Eq)]
pub enum Startup {
    /// Browse the local network for the automation service, and report each
    /// advertisement, or that the browse ended without one.
    Discover(Locating),
    /// Fetch the rule table, and report it, or that it could not be had.
    FetchRules(Resolving),
    /// Startup is over: publish this configuration and connect.
    Ready(BridgeConfig),
    /// Startup is over: abort with this error.
    Failed(StartupError),
}

/// What a [`Startup`] holds.
pub enum StartupView {
    Discover(LocatingView),
    FetchRules(ResolvingView),
    Ready(BridgeConfigView),
    Failed(StartupErrorView),
}

impl View for Startup {
    type V = StartupView;

    open spec fn view(&self) -> StartupView {
        match self {
            Startup::Discover(locating) => StartupView::Discover(locating@),
            Startup::FetchRules(resolving) => StartupView::FetchRules(resolving@),
            Startup::Ready(config) => StartupView::Ready(config@),
            Startup::Failed(error) => StartupView::Failed(error@),
        }
    }
}

/// The first required setting that `settings` lacks, in the order channel,
/// automation flag, show rule, hide rule.
pub open spec fn first_missing(settings: SettingsView) -> Option<Setting> {
    if settings.channel_id is None {
        Some(Setting::ChannelId)
    } else if settings.automation_enabled is None {
        Some(Setting::AutomationEnabled)
    } else if settings.show_rule_name is None {
        Some(Setting::ShowRuleName)
    } else if settings.hide_rule_name is None {
        Some(Setting::HideRuleName)
    } else {
        None
    }
}

/// The first step of startup.
///
/// A missing required setting ends it. With automation disabled the
/// configuration is complete at once. With automation enabled the rule table
/// is wanted next, from the configured address where there is one, and after
/// a browse of the network where there is none.
pub open spec fn begin_model(settings: SettingsView) -> StartupView {
    match first_missing(settings) {
        Some(setting) => StartupView::Failed(StartupErrorView::MissingSetting(setting)),
        None => if !settings.automation_enabled->0 {
            StartupView::Ready(
                BridgeConfigView { channel_id: settings.channel_id->0, automation: None },
            )
        } else {
            match settings.automation_api {
                Some(base_url) => StartupView::FetchRules(
                    ResolvingView {
                        channel_id: settings.channel_id->0,
                        show_rule_name: settings.show_rule_name->0,
                        hide_rule_name: settings.hide_rule_name->0,
                        base_url,
                    },
                ),
                None => StartupView::Discover(
                    LocatingView {
                        channel_id: settings.channel_id->0,
                        show_rule_name: settings.show_rule_name->0,
                        hide_rule_name: settings.hide_rule_name->0,
                    },
                ),
            }
        },
    }
}

/// The step after an advertisement: one that resolved to a host ends the
/// browse and gives the base address; any other leaves startup browsing.
pub open spec fn advertised_model(locating: LocatingView, hostname: Option<Seq<char>>)
    -> StartupView {
    match hostname {
        Some(host) => StartupView::FetchRules(
            ResolvingView {
                channel_id: locating.channel_id,
                show_rule_name: locating.show_rule_name,
                hide_rule_name: locating.hide_rule_name,
                base_url: base_address_of(host),
            },
        ),
        None => StartupView::Discover(locating),
    }
}

/// The step after a browse that ended without a resolved advertisement.
pub open spec fn timed_out_model(locating: LocatingView) -> StartupView {
    StartupView::Failed(StartupErrorView::ServiceNotFound)
}

/// The last step: with the rule table, both names resolve and the
/// configuration is complete, or one does not and startup fails naming it;
/// without the table, startup fails.
pub open spec fn table_fetched_model(
    resolving: ResolvingView,
    table: Option<Map<Seq<char>, Seq<char>>>,
) -> StartupView {
    match table {
        None => StartupView::Failed(StartupErrorView::RuleTableUnavailable),
        Some(rules) => match resolve_model(
            rules,
            resolving.show_rule_name,
            resolving.hide_rule_name,
        ) {
            Err(name) => StartupView::Failed(StartupErrorView::UnknownRule(name)),
            Ok(ids) => StartupView::Ready(
                BridgeConfigView {
                    channel_id: resolving.channel_id,
                    automation: Some(
                        AutomationView {
                            base_url: resolving.base_url,
                            show_rule_id: ids.0,
                            hide_rule_id: ids.1,
                        },
                    ),
                },
            ),
        },
    }
}

/// What a fetched rule table holds, if one was fetched.
pub open spec fn table_view(table: Option<RuleTable>) -> Option<Map<Seq<char>, Seq<char>>> {
    match table {
        Some(rules) => Some(rules@),
        None => None,
    }
}

/// Begins startup from the settings that the configuration source supplied.
pub fn begin(settings: Settings) -> (next: Startup)
    ensures
        next@ == begin_model(settings@),
        next@ matches StartupView::Ready(config) ==> config.wf(),
{
    let channel_id = match settings.channel_id {
        Some(text) => text,
        None => {
            return Startup::Failed(StartupError::MissingSetting(Setting::ChannelId));
        },
    };
    let automation_enabled = match settings.automation_enabled {
        Some(flag) => flag,
        None => {
            return Startup::Failed(StartupError::MissingSetting(Setting::AutomationEnabled));
        },
    };
    let show_rule_name = match settings.show_rule_name {
        Some(text) => text,
        None => {
            return Startup::Failed(StartupError::MissingSetting(Setting::ShowRuleName));
        },
    };
    let hide_rule_name = match settings.hide_rule_name {
        Some(text) => text,
        None => {
            return Startup::Failed(StartupError::MissingSetting(Setting::HideRuleName));
        },
    };
    if !automation_enabled {
        return Startup::Ready(BridgeConfig::without_automation(channel_id));
    }
    match settings.automation_api {
        Some(base_url) => Startup::FetchRules(
            Resolving { channel_id, show_rule_name, hide_rule_name, base_url },
        ),
        None => Startup::Discover(Locating { channel_id, show_rule_name, hide_rule_name }),
    }
}

impl Locating {
    /// Takes one advertisement of the browse: `hostname` is the host it
    /// resolved to, or `None` where it did not resolve.
    pub fn advertised(self, hostname: Option<String>) -> (next: Startup)
        ensures
            next@ == advertised_model(self@, text_of(hostname)),
    {
        match hostname {
            Some(host) => Startup::FetchRules(
                Resolving {
                    channel_id: self.channel_id,
                    show_rule_name: self.show_rule_name,
                    hide_rule_name: self.hide_rule_name,
                    base_url: base_address(host.as_str()),
                },
            ),
            None => Startup::Discover(self),
        }
    }

    /// Takes the end of a browse during which no advertisement resolved.
    pub fn timed_out(self) -> (next: Startup)
        ensures
            next@ == timed_out_model(self@),
    {
        Startup::Failed(StartupError::ServiceNotFound)
    }
}

impl Resolving {
    /// The address to fetch the rule table from.
    pub fn rules_url(&self) -> (url: String)
        ensures
            url@ == rules_url_of(self@.base_url),
    {
        rules_url(self.base_url.as_str())
    }

    /// Takes the fetched rule table, or `None` where the request could not be
    /// completed or its answer could not be read.
    pub fn table_fetched(self, table: Option<RuleTable>) -> (next: Startup)
        ensures
            next@ == table_fetched_model(self@, table_view(table)),
            next@ matches StartupView::Ready(config) ==> config.wf(),
    {
        let rules = match table {
            Some(rules) => rules,
            None => {
                return Startup::Failed(StartupError::RuleTableUnavailable);
            },
        };
        match resolve(&rules, self.show_rule_name.as_str(), self.hide_rule_name.as_str()) {
            Ok(ids) => Startup::Ready(
                BridgeConfig::with_automation(self.channel_id, self.base_url, ids.show, ids.hide),
            ),
            Err(name) => Startup::Failed(StartupError::UnknownRule(name)),
        }
    }
}

} // verus!
