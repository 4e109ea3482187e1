//! Decisions of the runtime-backed control service: what a configuration
//! read or removal answers, how engine-call failures are reported to
//! clients, which engine a reload activates again, and how a subscription
//! request is recorded. The registry and the configuration store are read at
//! the edge; these functions take what was read.
use vstd::prelude::*;

use crate::config_value::FieldType;
use crate::engine::reply::EngineError;
use crate::text::str_eq;

verus! {

/// Whether a configuration value came from the user's file or a default.
#[derive(Debug, Clone, Copy, PartialEq, Eq, Structural)]
pub enum ConfigSource {
    User,
    Default,
}

/// How a `config.get` is answered.
#[derive(Debug, Clone, Copy, PartialEq, Eq, Structural)]
pub enum ConfigGetPlan {
    /// Neither the schema nor the stored configuration knows the key.
    Unknown,
    /// Answer with the stored value, of this type.
    Stored(FieldType, ConfigSource),
    /// Answer with the schema's default.
    SchemaDefault(ConfigSource),
    /// The stored value has no field type (a table): no answer.
    NoAnswer,
}

/// Plans the answer to `config.get` from what is known of the key: whether
/// the schema declares it, the stored value's type when a value is stored
/// (`Some(None)` for a table, which has none), and whether the user set it.
pub fn plan_config_get(
    in_schema: bool,
    stored: Option<Option<FieldType>>,
    user_value: bool,
) -> (p: ConfigGetPlan)
    ensures
        !in_schema && stored is None ==> p == ConfigGetPlan::Unknown,
        stored matches Some(Some(t)) ==> p == ConfigGetPlan::Stored(
            t,
            if user_value {
                ConfigSource::User
            } else {
                ConfigSource::Default
            },
        ),
        stored matches Some(None) ==> p == ConfigGetPlan::NoAnswer,
        in_schema && stored is None ==> p == ConfigGetPlan::SchemaDefault(
            if user_value {
                ConfigSource::User
            } else {
                ConfigSource::Default
            },
        ),
{
    let source = if user_value {
        ConfigSource::User
    } else {
        ConfigSource::Default
    };
    match stored {
        Some(Some(t)) => ConfigGetPlan::Stored(t, source),
        Some(None) => ConfigGetPlan::NoAnswer,
        None => if in_schema {
            ConfigGetPlan::SchemaDefault(source)
        } else {
            ConfigGetPlan::Unknown
        },
    }
}

/// A control request the service could not carry out.
#[derive(Debug, Clone, Copy, PartialEq, Eq, Structural)]
pub struct SvcError;

/// The answer to `config.unset`: removing a stored key succeeds (defaults
/// are applied again), and so does unsetting a key the schema declares that
/// had no stored value; an unknown key is an error.
pub fn unset_outcome(removed: bool, in_schema: bool) -> (r: Result<(), SvcError>)
    ensures
        r is Ok <==> removed || in_schema,
{
    if removed || in_schema {
        Ok(())
    } else {
        Err(SvcError)
    }
}

/// How an engine command invocation is reported.
#[derive(Debug, Clone, Copy, PartialEq, Eq, Structural)]
pub enum InvokeOutcome {
    Invoked,
    NotFound,
    NotSupported,
    Failed,
}

/// Reports an invocation: `None` when no registry was present, otherwise the
/// engine's answer; not-found and not-supported keep their names, every
/// other failure (and a missing registry) is a plain failure.
pub fn invoke_outcome(r: &Option<Result<(), EngineError>>) -> (o: InvokeOutcome)
    ensures
        o == match r {
            Some(Ok(())) => InvokeOutcome::Invoked,
            Some(Err(EngineError::NotFound)) => InvokeOutcome::NotFound,
            Some(Err(EngineError::NotSupported)) => InvokeOutcome::NotSupported,
            _ => InvokeOutcome::Failed,
        },
{
    match r {
        Some(Ok(())) => InvokeOutcome::Invoked,
        Some(Err(EngineError::NotFound)) => InvokeOutcome::NotFound,
        Some(Err(EngineError::NotSupported)) => InvokeOutcome::NotSupported,
        _ => InvokeOutcome::Failed,
    }
}

/// How a language-cycle request is reported.
#[derive(Debug, Clone, PartialEq, Eq)]
pub enum CycleLanguageOutcome {
    /// Cycled; the language now active, if any.
    Cycled(Option<String>),
    /// No language is configured.
    NoLanguages,
    Failed,
}

/// Reports a language cycle: success carries the language active after it,
/// a not-found failure means no languages, every other failure fails.
pub fn cycle_language_outcome(r: Result<(), EngineError>, active: Option<String>) -> (o:
    CycleLanguageOutcome)
    ensures
        o == match r {
            Ok(()) => CycleLanguageOutcome::Cycled(active),
            Err(EngineError::NotFound) => CycleLanguageOutcome::NoLanguages,
            Err(_) => CycleLanguageOutcome::Failed,
        },
{
    match r {
        Ok(()) => CycleLanguageOutcome::Cycled(active),
        Err(EngineError::NotFound) => CycleLanguageOutcome::NoLanguages,
        Err(_) => CycleLanguageOutcome::Failed,
    }
}

/// Which engine slot a reloaded engine takes over again.
#[derive(Debug, Clone, Copy, PartialEq, Eq, Structural)]
pub enum Reactivation {
    Keyboard,
    Voice,
    Nothing,
}

/// After reloading engine `name`: it becomes the active keyboard again if it
/// was the active keyboard, otherwise the active voice again if it was that.
pub fn reload_reactivation(name: &str, active_keyboard: Option<&str>, active_voice: Option<&str>)
    -> (r: Reactivation)
    ensures
        (active_keyboard matches Some(k) && k@ == name@) ==> r == Reactivation::Keyboard,
        !(active_keyboard matches Some(k) && k@ == name@) && (active_voice matches Some(v) && v@
            == name@) ==> r == Reactivation::Voice,
        !(active_keyboard matches Some(k) && k@ == name@) && !(active_voice matches Some(v) && v@
            == name@) ==> r == Reactivation::Nothing,
{
    let was_keyboard = match active_keyboard {
        Some(k) => str_eq(k, name),
        None => false,
    };
    let was_voice = match active_voice {
        Some(v) => str_eq(v, name),
        None => false,
    };
    if was_keyboard {
        Reactivation::Keyboard
    } else if was_voice {
        Reactivation::Voice
    } else {
        Reactivation::Nothing
    }
}

/// What a subscription request asks the server to deliver.
#[derive(Debug, Clone, PartialEq, Eq)]
pub enum SubscriptionUpdate {
    /// Every topic.
    Wildcard,
    /// Only these topics.
    Topics(Vec<String>),
}

/// A subscription with no topics subscribes to everything.
pub fn subscription_update(topics: Vec<String>) -> (u: SubscriptionUpdate)
    ensures
        topics@.len() == 0 ==> u == SubscriptionUpdate::Wildcard,
        topics@.len() > 0 ==> u == SubscriptionUpdate::Topics(topics),
{
    if topics.len() == 0 {
        SubscriptionUpdate::Wildcard
    } else {
        SubscriptionUpdate::Topics(topics)
    }
}

} // verus!
