use hermes_ffi::{
    AsrDecodingDuration, AsrToken, CContinueSessionMessage, CDialogueConfigureIntent,
    CDialogueConfigureIntentArray, CDialogueConfigureMessage, CEndSessionMessage, CIntentMessage,
    CIntentNotRecognizedMessage, CSessionEndedMessage, CSessionQueuedMessage, CSessionStartedMessage,
    CStartSessionMessage, ContinueSessionMessage, DialogueConfigureIntent, DialogueConfigureMessage,
    EndSessionMessage, IntentMessage, IntentNotRecognizedMessage, NluIntentClassifierResult, NluSlot,
    SessionEndedMessage, SessionInit, SessionQueuedMessage, SessionStartedMessage,
    SessionTerminationType, StartSessionMessage,
};

fn round_trip_intent_not_recognized_value(v: IntentNotRecognizedMessage) {
    let c = CIntentNotRecognizedMessage::c_repr_of(v.clone()).unwrap();
    let back = c.as_rust().unwrap();
    drop(c);
    assert_eq!(back, v);
}

fn round_trip_session_started_value(v: SessionStartedMessage) {
    let c = CSessionStartedMessage::c_repr_of(v.clone()).unwrap();
    let back = c.as_rust().unwrap();
    drop(c);
    assert_eq!(back, v);
}

fn round_trip_session_ended_value(v: SessionEndedMessage) {
    let c = CSessionEndedMessage::c_repr_of(v.clone()).unwrap();
    let back = c.as_rust().unwrap();
    drop(c);
    assert_eq!(back, v);
}

fn round_trip_session_queued_value(v: SessionQueuedMessage) {
    let c = CSessionQueuedMessage::c_repr_of(v.clone()).unwrap();
    let back = c.as_rust().unwrap();
    drop(c);
    assert_eq!(back, v);
}

fn round_trip_start_session_value(v: StartSessionMessage) {
    let c = CStartSessionMessage::c_repr_of(v.clone()).unwrap();
    let back = c.as_rust().unwrap();
    drop(c);
    assert_eq!(back, v);
}

fn round_trip_continue_session_value(v: ContinueSessionMessage) {
    let c = CContinueSessionMessage::c_repr_of(v.clone()).unwrap();
    let back = c.as_rust().unwrap();
    drop(c);
    assert_eq!(back, v);
}

fn round_trip_end_session_value(v: EndSessionMessage) {
    let c = CEndSessionMessage::c_repr_of(v.clone()).unwrap();
    let back = c.as_rust().unwrap();
    drop(c);
    assert_eq!(back, v);
}

fn round_trip_configure_intent_value(v: DialogueConfigureIntent) {
    let c = CDialogueConfigureIntent::c_repr_of(v.clone()).unwrap();
    let back = c.as_rust().unwrap();
    drop(c);
    assert_eq!(back, v);
}

fn round_trip_configure_intent_array_value(v: Vec<DialogueConfigureIntent>) {
    let c = CDialogueConfigureIntentArray::c_repr_of(v.clone()).unwrap();
    assert_eq!(c.count as usize, v.len());
    let back = c.as_rust().unwrap();
    drop(c);
    assert_eq!(back, v);
}

fn round_trip_configure_value(v: DialogueConfigureMessage) {
    let c = CDialogueConfigureMessage::c_repr_of(v.clone()).unwrap();
    let back = c.as_rust().unwrap();
    drop(c);
    assert_eq!(back, v);
}

fn round_trip_intent_value(v: IntentMessage) {
    let c = CIntentMessage::c_repr_of(v.clone()).unwrap();
    let back = c.as_rust().unwrap();
    drop(c);
    assert_eq!(back, v);
}

fn configure_intent(intent_id: &str, enable: Option<bool>) -> DialogueConfigureIntent {
    DialogueConfigureIntent { intent_id: intent_id.to_string(), enable }
}

#[test]
fn round_trip_intent_not_recognized() {
    round_trip_intent_not_recognized_value(IntentNotRecognizedMessage {
        site_id: "siteid".into(),
        custom_data: Some("custom".into()),
        session_id: "session id".into(),
        input: Some("some text".into()),
        confidence_score: 0.5f32.to_bits(),
    });

    round_trip_intent_not_recognized_value(IntentNotRecognizedMessage {
        site_id: "siteid".into(),
        custom_data: None,
        session_id: "session id".into(),
        input: None,
        confidence_score: 0.5f32.to_bits(),
    });
}

#[test]
fn round_trip_session_started() {
    round_trip_session_started_value(SessionStartedMessage {
        site_id: "siteid".into(),
        custom_data: Some("custom".into()),
        session_id: "session id".into(),
        reactivated_from_session_id: Some("other session id".into()),
    });

    round_trip_session_started_value(SessionStartedMessage {
        site_id: "siteid".into(),
        custom_data: None,
        session_id: "session id".into(),
        reactivated_from_session_id: None,
    })
}

#[test]
fn round_trip_session_ended() {
    round_trip_session_ended_value(SessionEndedMessage {
        site_id: "siteid".into(),
        custom_data: Some("custom".into()),
        session_id: "session id".into(),
        termination: SessionTerminationType::Nominal,
    });

    round_trip_session_ended_value(SessionEndedMessage {
        site_id: "siteid".into(),
        custom_data: None,
        session_id: "session_id".into(),
        termination: SessionTerminationType::Error { error: "this is my error".into() },
    })
}

#[test]
fn round_trip_session_queued() {
    round_trip_session_queued_value(SessionQueuedMessage {
        site_id: "siteid".into(),
        custom_data: Some("custom".into()),
        session_id: "session id".into(),
    });

    round_trip_session_queued_value(SessionQueuedMessage {
        site_id: "siteid".into(),
        custom_data: None,
        session_id: "session_id".into(),
    })
}

#[test]
fn round_trip_start_session() {
    round_trip_start_session_value(StartSessionMessage {
        init: SessionInit::Notification { text: "text".into() },
        custom_data: Some("thing".into()),
        site_id: Some("site".into()),
    });

    round_trip_start_session_value(StartSessionMessage {
        init: SessionInit::Action {
            intent_filter: Some(vec!["filter1".into(), "filter2".into()]),
            text: Some("text".into()),
            can_be_enqueued: true,
            send_intent_not_recognized: false,
        },
        custom_data: Some("thing".into()),
        site_id: Some("site".into()),
    });

    round_trip_start_session_value(StartSessionMessage {
        init: SessionInit::Action {
            intent_filter: None,
            text: None,
            can_be_enqueued: false,
            send_intent_not_recognized: true,
        },
        custom_data: None,
        site_id: None,
    });
}

#[test]
fn round_trip_continue_session() {
    round_trip_continue_session_value(ContinueSessionMessage {
        session_id: "my session id".into(),
        text: "some text".into(),
        intent_filter: Some(vec!["filter1".into(), "filter2".into()]),
        custom_data: Some("foo bar".into()),
        slot: Some("some slot".into()),
        send_intent_not_recognized: true,
    });

    round_trip_continue_session_value(ContinueSessionMessage {
        session_id: "my session id".into(),
        text: "some text".into(),
        intent_filter: None,
        custom_data: None,
        slot: None,
        send_intent_not_recognized: false,
    });

    round_trip_continue_session_value(ContinueSessionMessage {
        session_id: "my session id".into(),
        text: "some text".into(),
        intent_filter: Some(vec![]),
        custom_data: Some("".into()),
        slot: Some("".into()),
        send_intent_not_recognized: true,
    });
}

#[test]
fn round_trip_end_session() {
    round_trip_end_session_value(EndSessionMessage {
        session_id: "my session id".into(),
        text: Some("some text".into()),
    });

    round_trip_end_session_value(EndSessionMessage { session_id: "my session id".into(), text: None });
}

#[test]
fn round_trip_dialogue_configure_intent() {
    round_trip_configure_intent_value(configure_intent("my intent", Some(true)));
    round_trip_configure_intent_value(configure_intent("an intent", Some(false)));
    round_trip_configure_intent_value(configure_intent("", None));
}

#[test]
fn round_trip_dialogue_configure_intent_array() {
    round_trip_configure_intent_array_value(vec![
        configure_intent("my intent", Some(true)),
        configure_intent("an intent", Some(false)),
        configure_intent("", None),
    ]);

    round_trip_configure_intent_array_value(vec![]);
}

#[test]
fn round_trip_dialogue_configure() {
    round_trip_configure_value(DialogueConfigureMessage {
        site_id: Some("some site".into()),
        intents: Some(vec![
            configure_intent("my intent", Some(true)),
            configure_intent("an intent", Some(false)),
            configure_intent("", None),
        ]),
    });

    round_trip_configure_value(DialogueConfigureMessage { site_id: None, intents: None });
}

fn token(value: &str, confidence: f32, range_start: i32, range_end: i32, start: f32, end: f32) -> AsrToken {
    AsrToken {
        value: value.to_string(),
        confidence: confidence.to_bits(),
        range_start,
        range_end,
        time: AsrDecodingDuration { start: start.to_bits(), end: end.to_bits() },
    }
}

#[test]
fn round_trip_intent_message() {
    let slot = NluSlot {
        raw_value: "Guadeloupe".to_string(),
        value: "Guadeloupe".to_string(),
        range_start: 22,
        range_end: 32,
        entity: "entity".to_string(),
        slot_name: "forecast_location".to_string(),
        confidence_score: Some(0.8f32.to_bits()),
    };

    let asr_token_double_array = vec![
        vec![token("hello", 0.98, 1, 4, 0.0, 5.0), token("world", 0.73, 5, 9, 0.0, 5.0)],
        vec![],
        vec![token("yop", 0.97, 5, 1, 1.0, 4.5)],
    ];

    round_trip_intent_value(IntentMessage {
        session_id: "a session id".to_string(),
        custom_data: Some("a custom datum".to_string()),
        site_id: "a site id".to_string(),
        input: "What's the weather in Guadeloupe ?".to_string(),
        asr_tokens: Some(asr_token_double_array),
        asr_confidence: Some(0.7f32.to_bits()),
        intent: NluIntentClassifierResult {
            intent_name: "a boring intent".to_string(),
            confidence_score: 1.0f32.to_bits(),
        },
        slots: vec![slot],
    })
}
