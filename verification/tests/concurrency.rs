use simplettsreader::coordinator::{Phase, Progress, Request, SpeechApp};
use simplettsreader::settings::Config;
use simplettsreader::voice::Voice;
use std::sync::{Arc, Mutex, MutexGuard};

/// The coordinator with a record of every call that reached the platform.
struct Shared {
    app: SpeechApp,
    calls: Vec<Request>,
}

/// Carries out the request in flight for the caller that holds the lock.
fn step(guard: &mut MutexGuard<'_, Shared>) -> Progress {
    let request = guard.app.request().unwrap().clone();
    guard.calls.push(request);
    guard.app.advance(Ok(1))
}

fn expected(text: &str) -> Vec<Request> {
    vec![
        Request::Recreate,
        Request::SetVoice(0),
        Request::SetRate(0),
        Request::SetVolume(100),
        Request::Speak(text.to_string()),
    ]
}

#[test]
fn second_caller_cannot_step_in_while_the_first_holds_the_lock() {
    let voices =
        vec![Voice { name: Some("Alice".to_string()), language: Some("en-US".to_string()) }];
    let mut app = SpeechApp::build(Config::default(), voices);
    while app.request().is_some() {
        app.advance(Ok(0));
    }
    assert_eq!(app.phase(), Phase::Ready);
    let window = Arc::new(Mutex::new(Shared { app, calls: Vec::new() }));
    let clipboard = window.clone();

    // The window begins to speak and is two steps in.
    let mut first = window.lock().unwrap();
    assert_eq!(first.app.speak("from the window"), Ok(()));
    assert_eq!(step(&mut first), Progress::Continue);
    assert_eq!(step(&mut first), Progress::Continue);

    // The clipboard watcher cannot reach the coordinator between two steps.
    assert!(clipboard.try_lock().is_err());

    assert_eq!(step(&mut first), Progress::Continue);
    assert_eq!(step(&mut first), Progress::Continue);
    assert!(clipboard.try_lock().is_err());
    assert_eq!(step(&mut first), Progress::Finished(Some(1)));
    drop(first);

    // Now it can, and its steps follow those of the window as a whole.
    let mut second = clipboard.try_lock().unwrap();
    assert_eq!(second.app.speak("from the clipboard"), Ok(()));
    while second.app.request().is_some() {
        step(&mut second);
    }
    let in_order = [expected("from the window"), expected("from the clipboard")].concat();
    assert_eq!(second.calls, in_order);
    assert_eq!(second.app.phase(), Phase::Ready);
}
