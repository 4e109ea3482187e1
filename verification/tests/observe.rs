use typio_host::engine::observe::{key_outcome, ModeObserver};
use typio_host::engine::reply::{EngineError, WorkerReply};
use typio_host::engine::types::{EngineMode, KeyProcessResult, ModeSalience};

fn mode(id: &str, label: &str) -> EngineMode {
    EngineMode {
        id: id.to_string(),
        label: label.to_string(),
        display_label: None,
        icon: None,
        profile_id: None,
        profile_label: None,
        description: None,
        is_active: true,
        salience: ModeSalience::Quiet,
    }
}

fn reply(key_result: Option<KeyProcessResult>) -> WorkerReply {
    WorkerReply {
        error: None,
        key_result,
        availability: None,
        text: None,
        modes: Vec::new(),
        commands: Vec::new(),
        active_mode: None,
    }
}

#[test]
fn first_observed_mode_is_handed_out_once() {
    let mut observer = ModeObserver::new();
    assert_eq!(observer.take_changed_mode(), None);
    observer.observe_active_mode(&mode("pinyin", "Pinyin"));
    assert_eq!(observer.take_changed_mode(), Some(mode("pinyin", "Pinyin")));
    assert_eq!(observer.take_changed_mode(), None);
}

#[test]
fn mode_with_same_id_is_not_a_change() {
    let mut observer = ModeObserver::new();
    observer.observe_active_mode(&mode("pinyin", "Pinyin"));
    observer.take_changed_mode();
    observer.observe_active_mode(&mode("pinyin", "Renamed"));
    assert_eq!(observer.take_changed_mode(), None);
    assert_eq!(observer.last, Some(mode("pinyin", "Pinyin")));
}

#[test]
fn mode_with_new_id_replaces_the_observed_one() {
    let mut observer = ModeObserver::new();
    observer.observe_active_mode(&mode("pinyin", "Pinyin"));
    observer.observe_active_mode(&mode("latin", "Latin"));
    assert_eq!(observer.take_changed_mode(), Some(mode("latin", "Latin")));
}

#[test]
fn key_outcome_defaults_to_not_handled() {
    assert_eq!(key_outcome(&Ok(reply(Some(KeyProcessResult::Handled)))), KeyProcessResult::Handled);
    assert_eq!(key_outcome(&Ok(reply(None))), KeyProcessResult::NotHandled);
    assert_eq!(
        key_outcome(&Err(EngineError::Transport("gone".to_string()))),
        KeyProcessResult::NotHandled
    );
}
