//! The settings a bridge is started from, and the configuration it runs on.

use vstd::prelude::*;
use vstd::string::*;

verus! {

/// The text of an optional string, if there is one.
pub open spec fn text_of(value: Option<String>) -> Option<Seq<char>> {
    match value {
        Some(text) => Some(text@),
        None => None,
    }
}

/// The settings as the configuration source supplied them. A setting that was
/// not supplied is `None`.
#[derive(Debug, PartialEq, Eq)]
pub struct Settings {
    /// The channel to listen to, as text.
    pub channel_id: Option<String>,
    /// Whether the automation service is to be called at all.
    pub automation_enabled: Option<bool>,
    /// The base address of the automation service, where it is known in advance.
    pub automation_api: Option<String>,
    /// The name of the rule to trigger for ordinary content.
    pub show_rule_name: Option<String>,
    /// The name of the rule to trigger for the sentinel content.
    pub hide_rule_name: Option<String>,
}

/// What a [`Settings`] value holds.
pub struct SettingsView {
    pub channel_id: Option<Seq<char>>,
    pub automation_enabled: Option<bool>,
    pub automation_api: Option<Seq<char>>,
    pub show_rule_name: Option<Seq<char>>,
    pub hide_rule_name: Option<Seq<char>>,
}

impl View for Settings {
    type V = SettingsView;

    open spec fn view(&self) -> SettingsView {
        SettingsView {
            channel_id: text_of(self.channel_id),
            automation_enabled: self.automation_enabled,
            automation_api: text_of(self.automation_api),
            show_rule_name: text_of(self.show_rule_name),
            hide_rule_name: text_of(self.hide_rule_name),
        }
    }
}

/// Where the automation service is and which rules it is asked to run.
pub struct AutomationView {
    pub base_url: Seq<char>,
    pub show_rule_id: Seq<char>,
    pub hide_rule_id: Seq<char>,
}

/// What a [`BridgeConfig`] holds.
pub struct BridgeConfigView {
    pub channel_id: Seq<char>,
    pub automation: Option<AutomationView>,
}

impl BridgeConfigView {
    /// Whether the automation service is called at all.
    pub open spec fn automation_enabled(self) -> bool {
        self.automation is Some
    }

    /// With automation enabled, both rule identifiers are known: neither is empty.
    pub open spec fn wf(self) -> bool {
        self.automation matches Some(automation) ==> automation.show_rule_id.len() > 0
            && automation.hide_rule_id.len() > 0
    }
}

/// The automation half of a configuration.
#[derive(Debug, PartialEq, Eq)]
pub struct Automation {
    base_url: String,
    show_rule_id: String,
    hide_rule_id: String,
}

impl View for Automation {
    type V = AutomationView;

    closed spec fn view(&self) -> AutomationView {
        AutomationView {
            base_url: self.base_url@,
            show_rule_id: self.show_rule_id@,
            hide_rule_id: self.hide_rule_id@,
        }
    }
}

/// The configuration a running bridge reads: built once, never changed.
///
/// Every value of this type is complete: where automation is enabled, the
/// base address and both rule identifiers are present and the identifiers are
/// not empty.
#[derive(Debug, PartialEq, Eq)]
pub struct BridgeConfig {
    channel_id: String,
    automation: Option<Automation>,
}

impl View for BridgeConfig {
    type V = BridgeConfigView;

    closed spec fn view(&self) -> BridgeConfigView {
        BridgeConfigView {
            channel_id: self.channel_id@,
            automation: match self.automation {
                Some(automation) => Some(automation@),
                None => None,
            },
        }
    }
}

impl BridgeConfig {
    #[verifier::type_invariant]
    spec fn complete(self) -> bool {
        self@.wf()
    }

    /// A configuration that never calls the automation service.
    pub(crate) fn without_automation(channel_id: String) -> (config: BridgeConfig)
        ensures
            config@ == (BridgeConfigView { channel_id: channel_id@, automation: None }),
    {
        BridgeConfig { channel_id, automation: None }
    }

    /// A configuration that calls the automation service at `base_url`.
    pub(crate) fn with_automation(
        channel_id: String,
        base_url: String,
        show_rule_id: String,
        hide_rule_id: String,
    ) -> (config: BridgeConfig)
        requires
            show_rule_id@.len() > 0,
            hide_rule_id@.len() > 0,
        ensures
            config@ == (BridgeConfigView {
                channel_id: channel_id@,
                automation: Some(
                    AutomationView {
                        base_url: base_url@,
                        show_rule_id: show_rule_id@,
                        hide_rule_id: hide_rule_id@,
                    },
                ),
            }),
    {
        BridgeConfig {
            channel_id,
            automation: Some(Automation { base_url, show_rule_id, hide_rule_id }),
        }
    }

    /// The configured channel, as the text it was given in.
    pub fn channel_id(&self) -> (text: &str)
        ensures
            text@ == self@.channel_id,
            self@.wf(),
    {
        proof {
            use_type_invariant(self);
        }
        self.channel_id.as_str()
    }

    /// Whether the automation service is called at all.
    pub fn automation_enabled(&self) -> (enabled: bool)
        ensures
            enabled == self@.automation_enabled(),
            self@.wf(),
    {
        proof {
            use_type_invariant(self);
        }
        self.automation.is_some()
    }

    /// The base address of the automation service; present exactly when
    /// automation is enabled.
    pub fn automation_base_url(&self) -> (url: Option<&str>)
        ensures
            match url {
                Some(text) => self@.automation is Some && text@ == self@.automation->0.base_url,
                None => self@.automation is None,
            },
    {
        match &self.automation {
            Some(automation) => Some(automation.base_url.as_str()),
            None => None,
        }
    }

    /// The identifier of the rule for ordinary content; present exactly when
    /// automation is enabled, and then not empty.
    pub fn show_rule_id(&self) -> (id: Option<&str>)
        ensures
            match id {
                Some(text) => self@.automation is Some && text@ == self@.automation->0.show_rule_id
                    && text@.len() > 0,
                None => self@.automation is None,
            },
    {
        proof {
            use_type_invariant(self);
        }
        match &self.automation {
            Some(automation) => Some(automation.show_rule_id.as_str()),
            None => None,
        }
    }

    /// The identifier of the rule for the sentinel content; present exactly
    /// when automation is enabled, and then not empty.
    pub fn hide_rule_id(&self) -> (id: Option<&str>)
        ensures
            match id {
                Some(text) => self@.automation is Some && text@ == self@.automation->0.hide_rule_id
                    && text@.len() > 0,
                None => self@.automation is None,
            },
    {
        proof {
            use_type_invariant(self);
        }
        match &self.automation {
            Some(automation) => Some(automation.hide_rule_id.as_str()),
            None => None,
        }
    }
}

} // verus!
