use typio_host::backend::{
    cycle_language_outcome, invoke_outcome, plan_config_get, reload_reactivation,
    subscription_update, unset_outcome, ConfigGetPlan, ConfigSource, CycleLanguageOutcome,
    InvokeOutcome, Reactivation, SubscriptionUpdate, SvcError,
};
use typio_host::config_value::FieldType;
use typio_host::engine::reply::EngineError;

#[test]
fn config_get_prefers_the_stored_value() {
    assert_eq!(plan_config_get(false, None, false), ConfigGetPlan::Unknown);
    assert_eq!(
        plan_config_get(true, Some(Some(FieldType::Int)), true),
        ConfigGetPlan::Stored(FieldType::Int, ConfigSource::User)
    );
    assert_eq!(
        plan_config_get(false, Some(Some(FieldType::String)), false),
        ConfigGetPlan::Stored(FieldType::String, ConfigSource::Default)
    );
    assert_eq!(
        plan_config_get(true, None, false),
        ConfigGetPlan::SchemaDefault(ConfigSource::Default)
    );
    assert_eq!(plan_config_get(true, Some(None), true), ConfigGetPlan::NoAnswer);
}

#[test]
fn unset_of_an_unknown_key_fails() {
    assert_eq!(unset_outcome(true, false), Ok(()));
    assert_eq!(unset_outcome(false, true), Ok(()));
    assert_eq!(unset_outcome(false, false), Err(SvcError));
}

#[test]
fn engine_failures_are_reported_by_kind() {
    assert_eq!(invoke_outcome(&Some(Ok(()))), InvokeOutcome::Invoked);
    assert_eq!(invoke_outcome(&Some(Err(EngineError::NotFound))), InvokeOutcome::NotFound);
    assert_eq!(
        invoke_outcome(&Some(Err(EngineError::NotSupported))),
        InvokeOutcome::NotSupported
    );
    assert_eq!(
        invoke_outcome(&Some(Err(EngineError::Transport("x".to_string())))),
        InvokeOutcome::Failed
    );
    assert_eq!(invoke_outcome(&None), InvokeOutcome::Failed);
    assert_eq!(
        cycle_language_outcome(Ok(()), Some("en".to_string())),
        CycleLanguageOutcome::Cycled(Some("en".to_string()))
    );
    assert_eq!(
        cycle_language_outcome(Err(EngineError::NotFound), None),
        CycleLanguageOutcome::NoLanguages
    );
    assert_eq!(
        cycle_language_outcome(Err(EngineError::NotSupported), None),
        CycleLanguageOutcome::Failed
    );
}

#[test]
fn reloaded_engine_takes_its_slot_back() {
    assert_eq!(reload_reactivation("rime", Some("rime"), Some("rime")), Reactivation::Keyboard);
    assert_eq!(reload_reactivation("whisper", Some("rime"), Some("whisper")), Reactivation::Voice);
    assert_eq!(reload_reactivation("other", Some("rime"), None), Reactivation::Nothing);
    assert_eq!(reload_reactivation("rime", None, None), Reactivation::Nothing);
}

#[test]
fn empty_topic_list_subscribes_to_everything() {
    assert_eq!(subscription_update(Vec::new()), SubscriptionUpdate::Wildcard);
    assert_eq!(
        subscription_update(vec!["state".to_string()]),
        SubscriptionUpdate::Topics(vec!["state".to_string()])
    );
}
