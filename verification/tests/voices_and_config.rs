use prismer::{Builder, Error, PollSettings, Voice, VoiceListing, VoiceQuery};

/// Drives an enumeration against canned answers, recording the queries.
fn drive(
    count: Result<usize, Error>,
    name: impl Fn(usize) -> Result<String, Error>,
    language: impl Fn(usize) -> Result<String, Error>,
) -> (Result<Vec<Voice>, Error>, Vec<VoiceQuery>) {
    let mut listing = VoiceListing::start(count);
    let mut queries = Vec::new();
    loop {
        let query = listing.next_query();
        queries.push(query);
        match query {
            VoiceQuery::Name(id) => listing.on_name(name(id)),
            VoiceQuery::Language(id) => listing.on_language(language(id)),
            VoiceQuery::Finished => return (listing.finish(), queries),
        }
    }
}

#[test]
fn lists_every_voice_by_index() {
    let (voices, queries) =
        drive(Ok(2), |id| Ok(format!("voice {id}")), |id| Ok(["en-US", "fr-FR"][id].to_string()));
    assert_eq!(
        voices,
        Ok(vec![
            Voice { id: 0, name: "voice 0".to_string(), language: Some("en-US".to_string()) },
            Voice { id: 1, name: "voice 1".to_string(), language: Some("fr-FR".to_string()) },
        ])
    );
    assert_eq!(
        queries,
        vec![
            VoiceQuery::Name(0),
            VoiceQuery::Language(0),
            VoiceQuery::Name(1),
            VoiceQuery::Language(1),
            VoiceQuery::Finished,
        ]
    );
}

#[test]
fn missing_language_is_none() {
    let (voices, _) = drive(Ok(1), |_| Ok("Samantha".to_string()), |_| Err(Error::NotImplemented));
    assert_eq!(voices, Ok(vec![Voice { id: 0, name: "Samantha".to_string(), language: None }]));
}

#[test]
fn count_failure_ends_at_once() {
    let (voices, queries) = drive(Err(Error::NotImplemented), |_| unreachable!(), |_| unreachable!());
    assert_eq!(voices, Err(Error::NotImplemented));
    assert_eq!(queries, vec![VoiceQuery::Finished]);
}

#[test]
fn name_failure_ends_the_listing() {
    let (voices, queries) = drive(
        Ok(3),
        |id| if id == 1 { Err(Error::VoiceNotFound) } else { Ok(format!("v{id}")) },
        |_| Ok("de".to_string()),
    );
    assert_eq!(voices, Err(Error::VoiceNotFound));
    assert_eq!(
        queries,
        vec![VoiceQuery::Name(0), VoiceQuery::Language(0), VoiceQuery::Name(1), VoiceQuery::Finished]
    );
}

#[test]
fn no_voices_lists_nothing() {
    let (voices, queries) = drive(Ok(0), |_| unreachable!(), |_| unreachable!());
    assert_eq!(voices, Ok(vec![]));
    assert_eq!(queries, vec![VoiceQuery::Finished]);
}

const DEFAULTS: PollSettings =
    PollSettings { poll_interval_ms: 0, debounce_samples: 0, backoff_max_ms: 0, auto_power_manage: false };

#[test]
fn untouched_builder_keeps_defaults() {
    let builder: Builder<u32, fn(u64)> = Builder::new();
    assert_eq!(builder.settings(DEFAULTS), DEFAULTS);
    let (registry, hook) = builder.into_parts();
    assert!(registry.is_none());
    assert!(hook.is_none());
}

#[test]
fn each_setter_changes_its_setting_only() {
    let builder: Builder<u32, fn(u64)> = Builder::new().poll_interval_ms(250);
    assert_eq!(builder.settings(DEFAULTS), PollSettings { poll_interval_ms: 250, ..DEFAULTS });
    let builder = builder.debounce_samples(1).backoff_max_ms(8000).auto_power_manage(true);
    assert_eq!(
        builder.settings(DEFAULTS),
        PollSettings { poll_interval_ms: 250, debounce_samples: 1, backoff_max_ms: 8000, auto_power_manage: true }
    );
}

#[test]
fn later_settings_win() {
    let builder: Builder<u32, fn(u64)> = Builder::new().poll_interval_ms(250).poll_interval_ms(500);
    assert_eq!(builder.settings(DEFAULTS).poll_interval_ms, 500);
}

#[test]
fn registry_and_hook_are_kept() {
    let registry = String::from("custom registry");
    let builder: Builder<String, fn(u64)> = Builder::new().registry(&registry);
    let builder = builder.on_availability(|id: u64| id + 1);
    let (kept, hook) = builder.into_parts();
    assert_eq!(kept, Some(registry));
    assert_eq!(hook.map(|h| h(41)), Some(42));
}
