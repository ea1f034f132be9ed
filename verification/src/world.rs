//! What the bridge does to the world around it, and what always holds of that.
//!
//! The bridge touches two things: the current-state artifact, which it
//! overwrites, and the automation service, which it calls. This module
//! follows both through startup and through the handling of messages, and
//! states what holds of them whatever the messages are.

use crate::config::{BridgeConfigView, SettingsView};
use crate::dispatch::{
    dispatch_model, on_configured_channel, persisted_model, DispatchView, FollowupView,
};
use crate::endpoint::trigger_url_of;
use crate::rules::resolvable;
use crate::sentinel::hide_sentinel;
use crate::endpoint::base_address_of;
use crate::error::StartupErrorView;
use crate::startup::{
    advertised_model, begin_model, table_fetched_model, timed_out_model, LocatingView,
    ResolvingView, StartupView,
};
use vstd::prelude::*;

verus! {

/// The two things the bridge acts on.
pub struct World {
    /// What the current-state artifact holds.
    pub artifact: Seq<char>,
    /// The addresses of the automation service requested so far, oldest first.
    pub calls: Seq<Seq<char>>,
}

/// One message as it is delivered, and how the write of its content would end.
pub struct Delivery {
    pub channel: u64,
    pub content: Seq<char>,
    pub written: bool,
}

/// The world after one message is handled. `None` means that the process
/// stopped: the write of the content failed.
pub open spec fn handle(config: BridgeConfigView, world: World, delivery: Delivery) -> Option<
    World,
> {
    match dispatch_model(config, delivery.channel, delivery.content) {
        DispatchView::Ignore => Some(world),
        DispatchView::Persist(pending) => match persisted_model(pending, delivery.written) {
            FollowupView::Abort => None,
            FollowupView::Call(url) => Some(
                World { artifact: pending.content, calls: world.calls.push(url) },
            ),
            FollowupView::Done => Some(World { artifact: pending.content, calls: world.calls }),
        },
    }
}

/// The world after a run of messages is handled in order. `None` means that
/// the process stopped on one of them.
pub open spec fn handle_all(config: BridgeConfigView, world: World, deliveries: Seq<Delivery>)
    -> Option<World>
    decreases deliveries.len(),
{
    if deliveries.len() == 0 {
        Some(world)
    } else {
        match handle_all(config, world, deliveries.drop_last()) {
            Some(before) => handle(config, before, deliveries.last()),
            None => None,
        }
    }
}

/// What startup meets outside: the advertisements that a browse of the
/// network brings before its time is up, in the order they come, each with
/// the host it resolved to or `None` where it did not resolve; and the rule
/// table that the automation service answers with, if it answers.
pub struct Surroundings {
    pub advertisements: Seq<Option<Seq<char>>>,
    pub rule_table: Option<Map<Seq<char>, Seq<char>>>,
}

/// The step that a browse ends with: advertisements are taken in order until
/// one moves startup on; when none is left, the time is up.
pub open spec fn browse_model(locating: LocatingView, advertisements: Seq<Option<Seq<char>>>)
    -> StartupView
    decreases advertisements.len(),
{
    if advertisements.len() == 0 {
        timed_out_model(locating)
    } else {
        match advertised_model(locating, advertisements.first()) {
            StartupView::Discover(still) => browse_model(still, advertisements.drop_first()),
            next => next,
        }
    }
}

/// How startup ends in given surroundings: with a configuration to publish or
/// with an error.
pub open spec fn startup_outcome(settings: SettingsView, surroundings: Surroundings)
    -> StartupView {
    match begin_model(settings) {
        StartupView::Discover(locating) => match browse_model(
            locating,
            surroundings.advertisements,
        ) {
            StartupView::FetchRules(resolving) => table_fetched_model(
                resolving,
                surroundings.rule_table,
            ),
            other => other,
        },
        StartupView::FetchRules(resolving) => table_fetched_model(
            resolving,
            surroundings.rule_table,
        ),
        done => done,
    }
}

/// Whether startup asks anything of the outside world: a browse of the
/// network or the rule table.
pub open spec fn startup_reaches_out(settings: SettingsView) -> bool {
    begin_model(settings) is Discover || begin_model(settings) is FetchRules
}

/// However a browse goes, it ends in one of two ways: the rule table is
/// wanted next, for the channel and the rule names that startup began with,
/// or startup has failed for want of the service.
pub proof fn browse_ends(locating: LocatingView, advertisements: Seq<Option<Seq<char>>>)
    ensures
        match browse_model(locating, advertisements) {
            StartupView::FetchRules(resolving) => {
                &&& resolving.channel_id == locating.channel_id
                &&& resolving.show_rule_name == locating.show_rule_name
                &&& resolving.hide_rule_name == locating.hide_rule_name
            },
            StartupView::Failed(error) => error == StartupErrorView::ServiceNotFound,
            _ => false,
        },
    decreases advertisements.len(),
{
    if advertisements.len() > 0 {
        browse_ends(locating, advertisements.drop_first());
    }
}

/// A browse ends with the first advertisement that resolved to a host, and
/// the base address of the automation service is derived from that host. A
/// browse in which no advertisement resolved ends startup with an error.
pub proof fn browse_takes_first_resolved_host(
    locating: LocatingView,
    advertisements: Seq<Option<Seq<char>>>,
    first: int,
)
    requires
        0 <= first <= advertisements.len(),
        forall|i: int| 0 <= i < first ==> advertisements[i] is None,
        first < advertisements.len() ==> advertisements[first] is Some,
    ensures
        first < advertisements.len() ==> browse_model(locating, advertisements)
            == StartupView::FetchRules(
            ResolvingView {
                channel_id: locating.channel_id,
                show_rule_name: locating.show_rule_name,
                hide_rule_name: locating.hide_rule_name,
                base_url: base_address_of(advertisements[first]->0),
            },
        ),
        first == advertisements.len() ==> browse_model(locating, advertisements)
            == StartupView::Failed(StartupErrorView::ServiceNotFound),
    decreases advertisements.len(),
{
    if advertisements.len() > 0 && first > 0 {
        let rest = advertisements.drop_first();
        assert(forall|i: int| 0 <= i < first - 1 ==> rest[i] == advertisements[i + 1]);
        browse_takes_first_resolved_host(locating, rest, first - 1);
    }
}

/// The content of the last message of a run that arrived on the configured
/// channel, if any did.
pub open spec fn latest_content(config: BridgeConfigView, deliveries: Seq<Delivery>) -> Option<
    Seq<char>,
>
    decreases deliveries.len(),
{
    if deliveries.len() == 0 {
        None
    } else if on_configured_channel(config, deliveries.last().channel) {
        Some(deliveries.last().content)
    } else {
        latest_content(config, deliveries.drop_last())
    }
}

/// After a run of messages is handled, the artifact holds the content of the
/// last of them that arrived on the configured channel, and what it held
/// before where none did: only the latest content is kept.
pub proof fn artifact_follows_latest_message(
    config: BridgeConfigView,
    world: World,
    deliveries: Seq<Delivery>,
)
    ensures
        handle_all(config, world, deliveries) matches Some(after) ==> after.artifact == (
        match latest_content(config, deliveries) {
            Some(content) => content,
            None => world.artifact,
        }),
    decreases deliveries.len(),
{
    if deliveries.len() > 0 {
        artifact_follows_latest_message(config, world, deliveries.drop_last());
    }
}

/// After a message on the configured channel is handled, the artifact holds
/// exactly the content of that message, and handling a message with the same
/// content again leaves the artifact as it is. Handling ends otherwise only
/// where the write failed, and then the process has stopped.
pub proof fn artifact_holds_last_content(
    config: BridgeConfigView,
    world: World,
    delivery: Delivery,
)
    requires
        on_configured_channel(config, delivery.channel),
    ensures
        delivery.written ==> {
            &&& handle(config, world, delivery) matches Some(after)
            &&& after.artifact == delivery.content
            &&& handle(config, after, delivery) matches Some(again)
            &&& again.artifact == after.artifact
        },
        !delivery.written ==> handle(config, world, delivery) is None,
{
}

/// A message on any other channel changes nothing: the artifact stays as it
/// is and the automation service is not called.
pub proof fn other_channel_changes_nothing(
    config: BridgeConfigView,
    world: World,
    delivery: Delivery,
)
    requires
        !on_configured_channel(config, delivery.channel),
    ensures
        handle(config, world, delivery) == Some(world),
{
}

/// The address that a call for `content` goes to: that of the hide rule where
/// the content is the sentinel, that of the show rule where it is anything
/// else.
pub open spec fn call_for(config: BridgeConfigView, content: Seq<char>) -> Seq<char>
    recommends
        config.automation is Some,
{
    trigger_url_of(
        config.automation->0.base_url,
        if content == hide_sentinel() {
            config.automation->0.hide_rule_id
        } else {
            config.automation->0.show_rule_id
        },
    )
}

/// With automation enabled, a call that a message causes goes to the hide
/// rule where the content of the message is the sentinel, and to the show
/// rule where it is anything else; and a message on the configured channel
/// whose content was written causes exactly one call.
pub proof fn sentinel_chooses_rule(config: BridgeConfigView, world: World, delivery: Delivery)
    requires
        config.automation is Some,
    ensures
        handle(config, world, delivery) matches Some(after) ==> after.calls == world.calls
            || after.calls == world.calls.push(call_for(config, delivery.content)),
        on_configured_channel(config, delivery.channel) && delivery.written ==> handle(
            config,
            world,
            delivery,
        ) is Some && handle(config, world, delivery)->0.calls == world.calls.push(
            call_for(config, delivery.content),
        ),
{
}

/// A configuration with automation disabled causes no call, whatever the
/// messages are.
pub proof fn calls_need_automation(
    config: BridgeConfigView,
    world: World,
    deliveries: Seq<Delivery>,
)
    requires
        !config.automation_enabled(),
    ensures
        handle_all(config, world, deliveries) matches Some(after) ==> after.calls == world.calls,
    decreases deliveries.len(),
{
    if deliveries.len() > 0 {
        calls_need_automation(config, world, deliveries.drop_last());
    }
}

/// With automation disabled in the settings, startup asks nothing of the
/// outside world, the configuration it ends with has automation disabled,
/// and no run of messages, whatever their content, causes a call.
pub proof fn disabled_automation_is_silent(
    settings: SettingsView,
    surroundings: Surroundings,
    world: World,
    deliveries: Seq<Delivery>,
)
    requires
        settings.automation_enabled == Some(false),
    ensures
        !startup_reaches_out(settings),
        startup_outcome(settings, surroundings) == begin_model(settings),
        startup_outcome(settings, surroundings) matches StartupView::Ready(config) ==> {
            &&& !config.automation_enabled()
            &&& handle_all(config, world, deliveries) matches Some(after) ==> after.calls
                == world.calls
        },
{
    if let StartupView::Ready(config) = startup_outcome(settings, surroundings) {
        calls_need_automation(config, world, deliveries);
    }
}

/// With automation enabled, a rule table that lacks a usable identifier for
/// the show rule or for the hide rule ends startup with an error: no
/// configuration is published.
pub proof fn unknown_rule_aborts_startup(settings: SettingsView, surroundings: Surroundings)
    requires
        settings.automation_enabled == Some(true),
        surroundings.rule_table is Some,
        (settings.show_rule_name matches Some(name) && !resolvable(
            surroundings.rule_table->0,
            name,
        )) || (settings.hide_rule_name matches Some(name) && !resolvable(
            surroundings.rule_table->0,
            name,
        )),
    ensures
        startup_outcome(settings, surroundings) is Failed,
{
    if let StartupView::Discover(locating) = begin_model(settings) {
        browse_ends(locating, surroundings.advertisements);
    }
}

/// Whatever the settings and the surroundings, startup ends with a
/// configuration or with an error, and a configuration that it ends with is
/// complete: automation is enabled in it exactly when the settings enable it,
/// and then both rule identifiers are the table's and neither is empty.
pub proof fn published_configuration_is_complete(
    settings: SettingsView,
    surroundings: Surroundings,
)
    ensures
        startup_outcome(settings, surroundings) is Ready || startup_outcome(
            settings,
            surroundings,
        ) is Failed,
        startup_outcome(settings, surroundings) matches StartupView::Ready(config) ==> {
            &&& config.wf()
            &&& config.automation_enabled() == (settings.automation_enabled == Some(true))
            &&& config.automation matches Some(automation) ==> {
                &&& surroundings.rule_table is Some
                &&& resolvable(surroundings.rule_table->0, settings.show_rule_name->0)
                &&& resolvable(surroundings.rule_table->0, settings.hide_rule_name->0)
                &&& automation.show_rule_id
                    == surroundings.rule_table->0[settings.show_rule_name->0]
                &&& automation.hide_rule_id
                    == surroundings.rule_table->0[settings.hide_rule_name->0]
            }
        },
{
    if let StartupView::Discover(locating) = begin_model(settings) {
        browse_ends(locating, surroundings.advertisements);
    }
}

} // verus!
