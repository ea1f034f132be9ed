//! What to do with one message.
//!
//! A message from another channel is ignored. A message from the configured
//! channel has its content written to the current-state artifact, in full;
//! where automation is enabled, one rule is triggered afterwards: the hide
//! rule for the sentinel content, the show rule for anything else. A write
//! that fails is fatal and nothing is triggered after it. How the call to the
//! automation service ends changes nothing.

use crate::channel::{channel_of, parse_channel_id};
use crate::config::{AutomationView, BridgeConfig, BridgeConfigView};
use crate::endpoint::{trigger_url, trigger_url_of};
use crate::sentinel::{hide_sentinel, is_hide_sentinel};
use vstd::prelude::*;
use vstd::string::*;

verus! {

/// A message that passed the filter: what to write, and what to call once it
/// is written.
#[derive(Debug, PartialEq, Eq)]
pub struct Pending {
    content: String,
    trigger: Option<String>,
}

/// What a [`Pending`] holds.
pub struct PendingView {
    pub content: Seq<char>,
    pub trigger: Option<Seq<char>>,
}

impl View for Pending {
    type V = PendingView;

    closed spec fn view(&self) -> PendingView {
        PendingView {
            content: self.content@,
            trigger: match self.trigger {
                Some(url) => Some(url@),
                None => None,
            },
        }
    }
}

/// What the dispatcher decided about a message.
#[derive(Debug, PartialEq, Eq)]
pub enum Dispatch {
    /// The message is not for this bridge: nothing is written or called.
    Ignore,
    /// Overwrite the current-state artifact with the pending content, then
    /// report how the write ended.
    Persist(Pending),
}

/// What a [`Dispatch`] holds.
pub enum DispatchView {
    Ignore,
    Persist(PendingView),
}

impl View for Dispatch {
    type V = DispatchView;

    open spec fn view(&self) -> DispatchView {
        match self {
            Dispatch::Ignore => DispatchView::Ignore,
            Dispatch::Persist(pending) => DispatchView::Persist(pending@),
        }
    }
}

/// What follows the write of a message's content.
#[derive(Debug, PartialEq, Eq)]
pub enum Followup {
    /// The write failed: the process must stop.
    Abort,
    /// Request this address of the automation service; how the request ends
    /// is of no consequence.
    Call(String),
    /// Nothing more is to be done for this message.
    Done,
}

/// What a [`Followup`] holds.
pub enum FollowupView {
    Abort,
    Call(Seq<char>),
    Done,
}

impl View for Followup {
    type V = FollowupView;

    open spec fn view(&self) -> FollowupView {
        match self {
            Followup::Abort => FollowupView::Abort,
            Followup::Call(url) => FollowupView::Call(url@),
            Followup::Done => FollowupView::Done,
        }
    }
}

/// Whether `channel` is the channel that `config` names. A configured text
/// that denotes no channel names none.
pub open spec fn on_configured_channel(config: BridgeConfigView, channel: u64) -> bool {
    channel_of(config.channel_id) == Some(channel)
}

/// The identifier of the rule that `content` asks for: the hide rule for the
/// sentinel, the show rule for anything else.
pub open spec fn rule_for(automation: AutomationView, content: Seq<char>) -> Seq<char> {
    if content == hide_sentinel() {
        automation.hide_rule_id
    } else {
        automation.show_rule_id
    }
}

/// The address to call for `content`, if automation is enabled.
pub open spec fn trigger_for(config: BridgeConfigView, content: Seq<char>) -> Option<Seq<char>> {
    match config.automation {
        Some(automation) => Some(trigger_url_of(automation.base_url, rule_for(automation, content))),
        None => None,
    }
}

/// The decision about a message with `content` that arrived on `channel`.
pub open spec fn dispatch_model(config: BridgeConfigView, channel: u64, content: Seq<char>)
    -> DispatchView {
    if on_configured_channel(config, channel) {
        DispatchView::Persist(PendingView { content, trigger: trigger_for(config, content) })
    } else {
        DispatchView::Ignore
    }
}

/// What follows a write that succeeded (`written`) or failed.
pub open spec fn persisted_model(pending: PendingView, written: bool) -> FollowupView {
    if !written {
        FollowupView::Abort
    } else {
        match pending.trigger {
            Some(url) => FollowupView::Call(url),
            None => FollowupView::Done,
        }
    }
}

/// Decides what to do with a message with `content` that arrived on `channel`.
pub fn dispatch(config: &BridgeConfig, channel: u64, content: &str) -> (decision: Dispatch)
    ensures
        decision@ == dispatch_model(config@, channel, content@),
{
    match parse_channel_id(config.channel_id()) {
        Some(configured) => {
            if configured != channel {
                return Dispatch::Ignore;
            }
        },
        None => {
            return Dispatch::Ignore;
        },
    }
    let trigger = match config.automation_base_url() {
        Some(base_url) => {
            let rule_id = if is_hide_sentinel(content) {
                config.hide_rule_id()
            } else {
                config.show_rule_id()
            };
            match rule_id {
                Some(id) => Some(trigger_url(base_url, id)),
                None => None,
            }
        },
        None => None,
    };
    Dispatch::Persist(Pending { content: String::from_str(content), trigger })
}

impl Pending {
    /// The content to overwrite the current-state artifact with.
    pub fn content(&self) -> (text: &str)
        ensures
            text@ == self@.content,
    {
        self.content.as_str()
    }

    /// The address that will be called once the content is written, if any.
    pub fn trigger(&self) -> (url: Option<&str>)
        ensures
            match url {
                Some(text) => self@.trigger == Some(text@),
                None => self@.trigger is None,
            },
    {
        match &self.trigger {
            Some(url) => Some(url.as_str()),
            None => None,
        }
    }

    /// Takes the end of the write: `written` says whether it succeeded.
    pub fn persisted(self, written: bool) -> (next: Followup)
        ensures
            next@ == persisted_model(self@, written),
    {
        if !written {
            return Followup::Abort;
        }
        match self.trigger {
            Some(url) => Followup::Call(url),
            None => Followup::Done,
        }
    }
}

} // verus!
