use hermes_ffi::sentinel::{c_bool, c_confidence, c_flag, rust_bool, rust_confidence, rust_flag};
use hermes_ffi::{
    AsrDecodingDuration, AsrToken, CAsrTokenDoubleArray, CContinueSessionMessage,
    CDialogueConfigureIntentArray, CDialogueConfigureMessage, CIntentMessage, CSessionEndedMessage,
    CSessionInit, CSessionInitValue, CSessionStartedMessage, CSessionTermination,
    CStartSessionMessage, CStringArray, CText, CodecError, ContinueSessionMessage,
    DialogueConfigureIntent, DialogueConfigureMessage, ErrorKind, Field, IntentMessage,
    NluIntentClassifierResult, SessionEndedMessage, SessionInit, SessionStartedMessage,
    SessionTerminationType, StartSessionMessage, SNIPS_SESSION_INIT_TYPE,
    SNIPS_SESSION_TERMINATION_TYPE,
};

fn started() -> SessionStartedMessage {
    SessionStartedMessage {
        session_id: "session id".into(),
        custom_data: None,
        site_id: "siteid".into(),
        reactivated_from_session_id: None,
    }
}

fn intent_message(asr_tokens: Option<Vec<Vec<AsrToken>>>) -> IntentMessage {
    IntentMessage {
        session_id: "a session id".into(),
        custom_data: None,
        site_id: "a site id".into(),
        input: "hello world".into(),
        intent: NluIntentClassifierResult {
            intent_name: "greet".into(),
            confidence_score: 0.9f32.to_bits(),
        },
        slots: vec![],
        asr_tokens,
        asr_confidence: None,
    }
}

fn token(value: &str, confidence: f32, range_start: i32, range_end: i32) -> AsrToken {
    AsrToken {
        value: value.into(),
        confidence: confidence.to_bits(),
        range_start,
        range_end,
        time: AsrDecodingDuration { start: 0.5f32.to_bits(), end: 1.25f32.to_bits() },
    }
}

#[test]
fn confidence_sentinel_boundaries() {
    assert_eq!(rust_confidence(0.0f32.to_bits()), Some(0.0f32.to_bits()));
    assert_eq!(rust_confidence(1.0f32.to_bits()), Some(1.0f32.to_bits()));
    assert_eq!(rust_confidence(0.5f32.to_bits()), Some(0.5f32.to_bits()));
    assert_eq!(rust_confidence((-0.0f32).to_bits()), Some((-0.0f32).to_bits()));
    assert_eq!(rust_confidence((-1.0f32).to_bits()), None);
    assert_eq!(rust_confidence(1.0001f32.to_bits()), None);
    assert_eq!(rust_confidence(f32::NAN.to_bits()), None);
    assert_eq!(rust_confidence(f32::INFINITY.to_bits()), None);
    assert_eq!(c_confidence(None, Field::AsrConfidence), Ok((-1.0f32).to_bits()));
    assert_eq!(c_confidence(Some(0.25f32.to_bits()), Field::AsrConfidence), Ok(0.25f32.to_bits()));
}

#[test]
fn confidence_out_of_range_is_an_encoding_error() {
    assert_eq!(
        c_confidence(Some(1.5f32.to_bits()), Field::AsrConfidence),
        Err(CodecError { kind: ErrorKind::Encoding, field: Field::AsrConfidence })
    );
    let mut m = intent_message(None);
    m.asr_confidence = Some(2.0f32.to_bits());
    assert_eq!(
        CIntentMessage::c_repr_of(m).err(),
        Some(CodecError { kind: ErrorKind::Encoding, field: Field::AsrConfidence })
    );
}

#[test]
fn tri_state_and_boolean_bytes() {
    assert_eq!(rust_flag(0), Some(false));
    assert_eq!(rust_flag(1), Some(true));
    assert_eq!(rust_flag(255), None);
    assert_eq!(rust_flag(2), None);
    assert_eq!(c_flag(Some(false)), 0);
    assert_eq!(c_flag(Some(true)), 1);
    assert_eq!(c_flag(None), 255);
    assert_eq!(c_bool(true), 1);
    assert_eq!(c_bool(false), 0);
    assert!(rust_bool(1));
    assert!(rust_bool(7));
    assert!(!rust_bool(0));
}

#[test]
fn notification_keeps_its_shape() {
    let c = CSessionInit::from(SessionInit::Notification { text: "text".into() }).unwrap();
    assert_eq!(c.init_type, 2);
    match &c.value {
        CSessionInitValue::Text(t) => assert_eq!(t.to_text(), "text"),
        _ => panic!("a notification holds its text directly"),
    }
    assert_eq!(c.to_session_init().unwrap(), SessionInit::Notification { text: "text".into() });
}

#[test]
fn action_keeps_both_flags() {
    let init = SessionInit::Action {
        text: None,
        intent_filter: None,
        can_be_enqueued: false,
        send_intent_not_recognized: true,
    };
    let c = CSessionInit::from(init.clone()).unwrap();
    assert_eq!(c.init_type, 1);
    match &c.value {
        CSessionInitValue::Action(a) => {
            assert!(a.text.is_none());
            assert!(a.intent_filter.is_none());
            assert_eq!(a.can_be_enqueued, 0);
            assert_eq!(a.send_intent_not_recognized, 1);
        },
        _ => panic!("an action holds a record"),
    }
    assert_eq!(c.to_session_init().unwrap(), init);
}

#[test]
fn init_type_codes_start_at_one() {
    let n = SessionInit::Notification { text: "x".into() };
    assert_eq!(SNIPS_SESSION_INIT_TYPE::from(&n).code(), 2);
    let a = SessionInit::Action {
        text: None,
        intent_filter: None,
        can_be_enqueued: true,
        send_intent_not_recognized: true,
    };
    assert_eq!(SNIPS_SESSION_INIT_TYPE::from(&a).code(), 1);
    assert_eq!(SNIPS_SESSION_TERMINATION_TYPE::from(&SessionTerminationType::Nominal).code(), 1);
    assert_eq!(SNIPS_SESSION_TERMINATION_TYPE::from(&SessionTerminationType::Timeout).code(), 5);
    let e = SessionTerminationType::Error { error: "e".into() };
    assert_eq!(SNIPS_SESSION_TERMINATION_TYPE::from(&e).code(), 6);
}

#[test]
fn mismatched_or_unknown_discriminant_is_invalid_union() {
    let invalid = Err(CodecError { kind: ErrorKind::InvalidUnion, field: Field::Init });
    let text = CText::new("text").unwrap();
    let mismatched = CSessionInit { init_type: 1, value: CSessionInitValue::Text(text) };
    assert_eq!(mismatched.to_session_init(), invalid);
    let null = CSessionInit { init_type: 2, value: CSessionInitValue::Null };
    assert_eq!(null.to_session_init(), invalid);
    let zeroed = CSessionInit { init_type: 0, value: CSessionInitValue::Null };
    assert_eq!(zeroed.to_session_init(), invalid);
    let unknown = CSessionTermination { termination_type: 7, data: None };
    assert_eq!(
        unknown.as_rust(),
        Err(CodecError { kind: ErrorKind::InvalidUnion, field: Field::Termination })
    );
}

#[test]
fn grouped_tokens_keep_group_boundaries() {
    let groups = vec![
        vec![token("tokenA", 0.98, 1, 4), token("tokenB", 0.73, 5, 9)],
        vec![],
        vec![token("tokenC", 0.97, 5, 1)],
    ];
    let c = CAsrTokenDoubleArray::c_repr_of(groups.clone()).unwrap();
    assert_eq!(c.count, 3);
    assert_eq!(c.entries[0].count, 2);
    assert_eq!(c.entries[1].count, 0);
    assert_eq!(c.entries[2].count, 1);
    assert_eq!(c.as_rust().unwrap(), groups);
    let back = CIntentMessage::c_repr_of(intent_message(Some(groups.clone()))).unwrap().as_rust().unwrap();
    assert_eq!(back.asr_tokens, Some(groups));
}

#[test]
fn null_required_field_is_reported() {
    let mut c = CSessionStartedMessage::c_repr_of(started()).unwrap();
    c.site_id = None;
    assert_eq!(c.as_rust(), Err(CodecError { kind: ErrorKind::NullPointer, field: Field::SiteId }));

    let mut m = CIntentMessage::c_repr_of(intent_message(None)).unwrap();
    m.intent = None;
    assert_eq!(m.as_rust().err(), Some(CodecError { kind: ErrorKind::NullPointer, field: Field::Intent }));

    let mut e = CSessionEndedMessage::c_repr_of(SessionEndedMessage {
        session_id: "s".into(),
        custom_data: None,
        termination: SessionTerminationType::Error { error: "boom".into() },
        site_id: "site".into(),
    })
    .unwrap();
    e.termination.data = None;
    assert_eq!(e.as_rust().err(), Some(CodecError { kind: ErrorKind::NullPointer, field: Field::Termination }));
}

#[test]
fn empty_and_absent_sequences_differ() {
    let empty = CDialogueConfigureMessage::c_repr_of(DialogueConfigureMessage {
        site_id: None,
        intents: Some(vec![]),
    })
    .unwrap();
    let array = empty.intents.as_ref().unwrap();
    assert_eq!(array.count, 0);
    assert!(array.entries.is_empty());
    assert_eq!(empty.as_rust().unwrap().intents, Some(vec![]));

    let absent = CDialogueConfigureMessage::c_repr_of(DialogueConfigureMessage { site_id: None, intents: None })
        .unwrap();
    assert!(absent.intents.is_none());
    assert_eq!(absent.as_rust().unwrap().intents, None);

    let filter = CContinueSessionMessage::c_repr_of(ContinueSessionMessage {
        session_id: "s".into(),
        text: "t".into(),
        intent_filter: Some(vec![]),
        custom_data: None,
        slot: None,
        send_intent_not_recognized: false,
    })
    .unwrap();
    assert_eq!(filter.intent_filter.as_ref().unwrap().size, 0);
}

#[test]
fn empty_slot_list_is_a_zero_count_array() {
    let c = CIntentMessage::c_repr_of(intent_message(None)).unwrap();
    let slots = c.slots.as_ref().unwrap();
    assert_eq!(slots.count, 0);
    assert!(slots.entries.is_empty());
    assert!(c.asr_tokens.is_none());
    assert_eq!(c.asr_confidence, (-1.0f32).to_bits());
    assert_eq!(c.as_rust().unwrap(), intent_message(None));
}

#[test]
fn null_slot_array_is_a_null_pointer_error() {
    let mut c = CIntentMessage::c_repr_of(intent_message(None)).unwrap();
    c.slots = None;
    assert_eq!(c.as_rust().err(), Some(CodecError { kind: ErrorKind::NullPointer, field: Field::Slots }));
}

#[test]
fn present_confidence_is_written_as_is() {
    let mut m = intent_message(None);
    m.asr_confidence = Some(0.7f32.to_bits());
    let c = CIntentMessage::c_repr_of(m.clone()).unwrap();
    assert_eq!(c.asr_confidence, 0.7f32.to_bits());
    assert_eq!(c.as_rust().unwrap(), m);
}

#[test]
fn count_mismatch_is_reported() {
    let mut c = CDialogueConfigureIntentArray::c_repr_of(vec![DialogueConfigureIntent {
        intent_id: "a".into(),
        enable: None,
    }])
    .unwrap();
    c.count = 2;
    assert_eq!(
        c.as_rust(),
        Err(CodecError { kind: ErrorKind::ArrayLengthMismatch, field: Field::Entries })
    );
    c.count = -1;
    assert!(c.as_rust().is_err());
    let mut s = CStringArray::c_repr_of(vec!["x".into()]).unwrap();
    s.size = 0;
    assert_eq!(
        s.as_rust(),
        Err(CodecError { kind: ErrorKind::ArrayLengthMismatch, field: Field::Entries })
    );
}

#[test]
fn text_with_nul_is_an_encoding_error() {
    assert!(CText::new("a\0b").is_none());
    let r = CStartSessionMessage::c_repr_of(StartSessionMessage {
        init: SessionInit::Notification { text: "ok".into() },
        custom_data: Some("bad\0data".into()),
        site_id: None,
    });
    assert_eq!(r.err(), Some(CodecError { kind: ErrorKind::Encoding, field: Field::CustomData }));
    let first = CSessionStartedMessage::c_repr_of(SessionStartedMessage {
        session_id: "\0".into(),
        custom_data: None,
        site_id: "\0".into(),
        reactivated_from_session_id: None,
    });
    assert_eq!(first.err(), Some(CodecError { kind: ErrorKind::Encoding, field: Field::SessionId }));
    assert_eq!(
        CStringArray::c_repr_of(vec!["ok".into(), "n\0".into()]).err(),
        Some(CodecError { kind: ErrorKind::Encoding, field: Field::Entries })
    );
}

#[test]
fn text_buffer_is_terminated_utf8() {
    let t = CText::new("ab").unwrap();
    assert_eq!(t.as_bytes(), &vec![97u8, 98, 0]);
    let u = CText::new("héllo ✓").unwrap();
    assert_eq!(u.as_bytes().len(), "héllo ✓".len() + 1);
    assert_eq!(u.to_text(), "héllo ✓");
    assert_eq!(CText::new("").unwrap().to_text(), "");
}

#[test]
fn decoding_leaves_the_boundary_value_usable() {
    let c = CSessionStartedMessage::c_repr_of(started()).unwrap();
    let first = c.as_rust().unwrap();
    let second = c.as_rust().unwrap();
    drop(c);
    assert_eq!(first, started());
    assert_eq!(second, started());
}
