use simplettsreader::voice::{find_voice, get_voice_name, resolve_voice, Voice};

fn voice(name: &str, language: &str) -> Voice {
    Voice { name: Some(name.to_string()), language: Some(language.to_string()) }
}

fn catalog() -> Vec<Voice> {
    vec![
        voice("Alice", "en-US"),
        voice("Bob", "en-GB"),
        voice("Alice", "en-US"),
        voice("Chloé", "fr-FR"),
    ]
}

#[test]
fn identifier_is_name_then_language_in_brackets() {
    assert_eq!(get_voice_name(&voice("Alice", "en-US")), "Alice [en-US]");
    assert_eq!(get_voice_name(&voice("Chloé", "fr-FR")), "Chloé [fr-FR]");
}

#[test]
fn missing_parts_of_a_voice_are_empty_in_the_identifier() {
    let nameless = Voice { name: None, language: Some("en-US".to_string()) };
    assert_eq!(get_voice_name(&nameless), " [en-US]");
    let tongueless = Voice { name: Some("Alice".to_string()), language: None };
    assert_eq!(get_voice_name(&tongueless), "Alice []");
    let blank = Voice { name: None, language: None };
    assert_eq!(get_voice_name(&blank), " []");
}

#[test]
fn find_voice_gives_the_first_position_under_the_identifier() {
    let voices = catalog();
    assert_eq!(find_voice(&voices, "Alice [en-US]"), Some(0));
    assert_eq!(find_voice(&voices, "Bob [en-GB]"), Some(1));
    assert_eq!(find_voice(&voices, "Chloé [fr-FR]"), Some(3));
}

#[test]
fn find_voice_gives_none_for_an_unknown_identifier() {
    let voices = catalog();
    assert_eq!(find_voice(&voices, "Eve [fr-FR]"), None);
    assert_eq!(find_voice(&voices, "Alice"), None);
    assert_eq!(find_voice(&voices, ""), None);
    assert_eq!(find_voice(&Vec::new(), "Alice [en-US]"), None);
}

#[test]
fn lookup_of_each_identifier_leads_back_to_it() {
    let voices = catalog();
    for (position, entry) in voices.iter().enumerate() {
        let identifier = get_voice_name(entry);
        let found = find_voice(&voices, &identifier).unwrap();
        assert!(found <= position);
        assert_eq!(get_voice_name(&voices[found]), identifier);
        if position != 2 {
            assert_eq!(found, position);
        }
    }
    // The third voice repeats the first one's identifier.
    assert_eq!(find_voice(&voices, &get_voice_name(&voices[2])), Some(0));
}

#[test]
fn resolve_voice_falls_back_to_the_first_voice() {
    let voices = catalog();
    assert_eq!(resolve_voice(&voices, "Bob [en-GB]"), Some(1));
    assert_eq!(resolve_voice(&voices, "Eve [fr-FR]"), Some(0));
    assert_eq!(resolve_voice(&voices, ""), Some(0));
}

#[test]
fn resolve_voice_gives_none_only_for_an_empty_catalog() {
    assert_eq!(resolve_voice(&Vec::new(), "Bob [en-GB]"), None);
    assert_eq!(resolve_voice(&Vec::new(), ""), None);
}
