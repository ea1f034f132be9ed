use automation_bridge::config::{BridgeConfig, Settings};
use automation_bridge::dispatch::{dispatch, Dispatch, Followup, Pending};
use automation_bridge::rules::RuleTable;
use automation_bridge::startup::{begin, Startup};

/// The artifact and the calls, as a driver of the bridge would leave them.
#[derive(Debug, Clone, PartialEq, Eq)]
struct Recorder {
    artifact: String,
    calls: Vec<String>,
    aborted: bool,
}

impl Recorder {
    fn new(artifact: &str) -> Recorder {
        Recorder { artifact: artifact.to_string(), calls: Vec::new(), aborted: false }
    }

    fn deliver(&mut self, config: &BridgeConfig, channel: u64, content: &str) {
        self.deliver_with(config, channel, content, true);
    }

    fn deliver_with(&mut self, config: &BridgeConfig, channel: u64, content: &str, written: bool) {
        match dispatch(config, channel, content) {
            Dispatch::Ignore => {}
            Dispatch::Persist(pending) => {
                if written {
                    self.artifact = pending.content().to_string();
                }
                match pending.persisted(written) {
                    Followup::Abort => self.aborted = true,
                    Followup::Call(url) => self.calls.push(url),
                    Followup::Done => {}
                }
            }
        }
    }
}

fn config(channel: &str, automation: Option<(&str, &str, &str)>) -> BridgeConfig {
    let settings = Settings {
        channel_id: Some(channel.to_string()),
        automation_enabled: Some(automation.is_some()),
        automation_api: automation.map(|(base, _, _)| base.to_string()),
        show_rule_name: Some("Show".to_string()),
        hide_rule_name: Some("Hide".to_string()),
    };
    let mut step = begin(settings);
    if let Startup::FetchRules(resolving) = step {
        let (_, show, hide) = automation.unwrap();
        let mut table = RuleTable::new();
        table.insert("Show".to_string(), show.to_string());
        table.insert("Hide".to_string(), hide.to_string());
        step = resolving.table_fetched(Some(table));
    }
    match step {
        Startup::Ready(config) => config,
        other => panic!("startup is not ready: {:?}", other),
    }
}

fn pending(decision: Dispatch) -> Pending {
    match decision {
        Dispatch::Persist(pending) => pending,
        Dispatch::Ignore => panic!("the message was ignored"),
    }
}

#[test]
fn message_on_the_channel_is_persisted_in_full() {
    let config = config("42", None);
    let decision = pending(dispatch(&config, 42, "Poker Face"));
    assert_eq!(decision.content(), "Poker Face");
    assert_eq!(decision.trigger(), None);
    assert_eq!(decision.persisted(true), Followup::Done);
}

#[test]
fn content_is_kept_verbatim() {
    let config = config("42", Some(("http://h", "abc", "def")));
    for content in ["", " ", " - ", "line one\nline two\n", "caf\u{e9} \u{1f3b5}", "\t-", "a\0b"] {
        assert_eq!(pending(dispatch(&config, 42, content)).content(), content);
    }
}

#[test]
fn message_on_another_channel_is_ignored() {
    let config = config("42", Some(("http://h", "abc", "def")));
    assert_eq!(dispatch(&config, 41, "Bad Romance"), Dispatch::Ignore);
    assert_eq!(dispatch(&config, 43, "-"), Dispatch::Ignore);
    assert_eq!(dispatch(&config, 0, ""), Dispatch::Ignore);
    assert_eq!(dispatch(&config, u64::MAX, "Bad Romance"), Dispatch::Ignore);
}

#[test]
fn unreadable_channel_text_ignores_every_message() {
    for text in ["", "forty-two", "-42", "42 ", "18446744073709551616"] {
        let config = config(text, Some(("http://h", "abc", "def")));
        assert_eq!(dispatch(&config, 42, "Bad Romance"), Dispatch::Ignore);
        assert_eq!(dispatch(&config, 0, "Bad Romance"), Dispatch::Ignore);
    }
}

#[test]
fn channel_text_may_carry_a_plus_sign_or_zeros() {
    assert!(matches!(dispatch(&config("+42", None), 42, "x"), Dispatch::Persist(_)));
    assert!(matches!(dispatch(&config("0042", None), 42, "x"), Dispatch::Persist(_)));
    assert!(matches!(
        dispatch(&config("18446744073709551615", None), u64::MAX, "x"),
        Dispatch::Persist(_)
    ));
}

#[test]
fn ordinary_content_triggers_the_show_rule() {
    let config = config("42", Some(("http://studio.local:7777", "abc", "def")));
    let decision = pending(dispatch(&config, 42, "Bad Romance"));
    assert_eq!(decision.trigger(), Some("http://studio.local:7777/rules/abc"));
    assert_eq!(
        decision.persisted(true),
        Followup::Call("http://studio.local:7777/rules/abc".to_string())
    );
}

#[test]
fn sentinel_triggers_the_hide_rule() {
    let config = config("42", Some(("http://studio.local:7777", "abc", "def")));
    let decision = pending(dispatch(&config, 42, "-"));
    assert_eq!(decision.content(), "-");
    assert_eq!(
        decision.persisted(true),
        Followup::Call("http://studio.local:7777/rules/def".to_string())
    );
}

#[test]
fn near_sentinels_trigger_the_show_rule() {
    let config = config("42", Some(("http://h", "abc", "def")));
    for content in ["", "--", " -", "- ", "-\n", "\u{2212}", "_", "hide"] {
        assert_eq!(
            pending(dispatch(&config, 42, content)).persisted(true),
            Followup::Call("http://h/rules/abc".to_string()),
            "for {:?}",
            content
        );
    }
}

#[test]
fn failed_write_aborts_and_calls_nothing() {
    let enabled = config("42", Some(("http://h", "abc", "def")));
    assert_eq!(pending(dispatch(&enabled, 42, "Bad Romance")).persisted(false), Followup::Abort);
    assert_eq!(pending(dispatch(&enabled, 42, "-")).persisted(false), Followup::Abort);
    let disabled = config("42", None);
    assert_eq!(pending(dispatch(&disabled, 42, "Poker Face")).persisted(false), Followup::Abort);
    let mut recorder = Recorder::new("before");
    recorder.deliver_with(&enabled, 42, "Bad Romance", false);
    assert!(recorder.aborted);
    assert!(recorder.calls.is_empty());
}

#[test]
fn artifact_equals_the_content_and_handling_is_idempotent() {
    let config = config("42", Some(("http://h", "abc", "def")));
    for content in ["Bad Romance", "-", "", "Poker Face\n"] {
        let mut recorder = Recorder::new("earlier");
        recorder.deliver(&config, 42, content);
        assert_eq!(recorder.artifact, content);
        let artifact = recorder.artifact.clone();
        recorder.deliver(&config, 42, content);
        assert_eq!(recorder.artifact, artifact);
    }
}

#[test]
fn other_channels_leave_artifact_and_calls_alone() {
    let config = config("42", Some(("http://h", "abc", "def")));
    let mut recorder = Recorder::new("earlier");
    recorder.deliver(&config, 42, "Bad Romance");
    let before = recorder.clone();
    for channel in [0, 1, 41, 43, 420, u64::MAX] {
        recorder.deliver(&config, channel, "Telephone");
        recorder.deliver_with(&config, channel, "-", false);
    }
    assert_eq!(recorder, before);
}

#[test]
fn disabled_automation_never_calls() {
    let config = config("42", None);
    let mut recorder = Recorder::new("");
    for content in ["Bad Romance", "-", "", "--", "Poker Face"] {
        recorder.deliver(&config, 42, content);
        recorder.deliver(&config, 7, content);
        assert_eq!(pending(dispatch(&config, 42, content)).trigger(), None);
    }
    assert_eq!(recorder.artifact, "Poker Face");
    assert!(recorder.calls.is_empty());
    assert!(!recorder.aborted);
}

#[test]
fn show_then_hide_on_the_configured_channel() {
    let settings = Settings {
        channel_id: Some("42".to_string()),
        automation_enabled: Some(true),
        automation_api: Some("http://studio.local:7777".to_string()),
        show_rule_name: Some("Show".to_string()),
        hide_rule_name: Some("Hide".to_string()),
    };
    let resolving = match begin(settings) {
        Startup::FetchRules(resolving) => resolving,
        other => panic!("startup does not want the rule table: {:?}", other),
    };
    assert_eq!(resolving.rules_url(), "http://studio.local:7777/rules");
    let mut table = RuleTable::new();
    table.insert("Show".to_string(), "abc".to_string());
    table.insert("Hide".to_string(), "def".to_string());
    let config = match resolving.table_fetched(Some(table)) {
        Startup::Ready(config) => config,
        other => panic!("startup is not ready: {:?}", other),
    };

    let mut recorder = Recorder::new("");
    recorder.deliver(&config, 42, "Bad Romance");
    assert_eq!(recorder.artifact, "Bad Romance");
    assert_eq!(recorder.calls, vec!["http://studio.local:7777/rules/abc".to_string()]);
    assert!(recorder.calls[0].ends_with("/rules/abc"));

    recorder.deliver(&config, 42, "-");
    assert_eq!(recorder.artifact, "-");
    assert_eq!(
        recorder.calls,
        vec![
            "http://studio.local:7777/rules/abc".to_string(),
            "http://studio.local:7777/rules/def".to_string(),
        ]
    );
    assert!(recorder.calls[1].ends_with("/rules/def"));
    assert!(!recorder.aborted);
}

#[test]
fn disabled_automation_updates_the_artifact_without_calls() {
    let settings = Settings {
        channel_id: Some("42".to_string()),
        automation_enabled: Some(false),
        automation_api: None,
        show_rule_name: Some("Show".to_string()),
        hide_rule_name: Some("Hide".to_string()),
    };
    let config = match begin(settings) {
        Startup::Ready(config) => config,
        other => panic!("startup reached out with automation disabled: {:?}", other),
    };
    let mut recorder = Recorder::new("");
    recorder.deliver(&config, 42, "Poker Face");
    assert_eq!(recorder.artifact, "Poker Face");
    assert!(recorder.calls.is_empty());
    assert!(!recorder.aborted);
}
