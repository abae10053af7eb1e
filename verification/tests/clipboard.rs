use simplettsreader::clipboard::{on_clipboard_change, on_clipboard_error, Listening, Reaction};
use simplettsreader::coordinator::SpeechApp;
use simplettsreader::settings::Config;
use std::sync::{Arc, Mutex, Weak};

#[test]
fn text_is_spoken_while_the_coordinator_lives() {
    let reaction = on_clipboard_change(Some("copied words".to_string()), true);
    assert_eq!(
        reaction,
        Reaction { speech: Some("copied words".to_string()), listening: Listening::Next }
    );
}

#[test]
fn unreadable_clipboard_is_skipped() {
    let reaction = on_clipboard_change(None, true);
    assert_eq!(reaction, Reaction { speech: None, listening: Listening::Next });
}

#[test]
fn notification_after_the_coordinator_is_gone_is_skipped() {
    let reaction = on_clipboard_change(Some("copied words".to_string()), false);
    assert_eq!(reaction, Reaction { speech: None, listening: Listening::Next });
    let reaction = on_clipboard_change(None, false);
    assert_eq!(reaction, Reaction { speech: None, listening: Listening::Next });
}

#[test]
fn listener_error_does_not_end_the_loop() {
    assert_eq!(on_clipboard_error(), Listening::Next);
}

#[test]
fn watcher_does_not_keep_a_released_coordinator_alive() {
    let owner = Arc::new(Mutex::new(SpeechApp::build(Config::default(), Vec::new())));
    let watcher: Weak<Mutex<SpeechApp>> = Arc::downgrade(&owner);

    let alive = watcher.upgrade();
    let reaction = on_clipboard_change(Some("first".to_string()), alive.is_some());
    assert_eq!(reaction.speech, Some("first".to_string()));
    drop(alive);

    drop(owner);
    let gone = watcher.upgrade();
    assert!(gone.is_none());
    let reaction = on_clipboard_change(Some("second".to_string()), gone.is_some());
    assert_eq!(reaction.speech, None);
    assert_eq!(reaction.listening, Listening::Next);
}
