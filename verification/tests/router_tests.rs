use voice_relay::client::TranscribeError;
use voice_relay::client::TranscriptResult;
use voice_relay::router::failure_text;
use voice_relay::router::health_text;
use voice_relay::router::immediate_reply_text;
use voice_relay::router::reply_for_outcome;
use voice_relay::router::resolve_attachment;
use voice_relay::router::route_event;
use voice_relay::router::usage_text;
use voice_relay::router::AttachmentRef;
use voice_relay::router::InboundEvent;
use voice_relay::router::RouteAction;

#[test]
fn start_command_event_gets_usage_reply() {
    let event = InboundEvent {
        text: Some("/start".to_string()),
        attachment: None,
    };
    let action = route_event(&event);
    assert!(matches!(action, RouteAction::ReplyUsage));
    let reply = immediate_reply_text(&action);
    assert_eq!(reply.unwrap(), "Send a voice note to start");
}

#[test]
fn start_command_wins_over_attachment() {
    let event = InboundEvent {
        text: Some("/start please".to_string()),
        attachment: Some(AttachmentRef::Audio {
            file_id: "file-7".to_string(),
        }),
    };
    let action = route_event(&event);
    assert!(matches!(action, RouteAction::ReplyUsage));
    assert_eq!(immediate_reply_text(&action).unwrap(), "Send a voice note to start");
}

#[test]
fn start_prefix_longer_word_still_counts() {
    let event = InboundEvent {
        text: Some("/starting".to_string()),
        attachment: None,
    };
    assert!(matches!(route_event(&event), RouteAction::ReplyUsage));
}

#[test]
fn short_or_other_text_is_not_the_start_command() {
    let short = InboundEvent {
        text: Some("/star".to_string()),
        attachment: None,
    };
    assert!(matches!(route_event(&short), RouteAction::ReplyFailure));
    let shifted = InboundEvent {
        text: Some("say /start".to_string()),
        attachment: None,
    };
    assert!(matches!(route_event(&shifted), RouteAction::ReplyFailure));
}

#[test]
fn non_ascii_text_is_not_the_start_command() {
    let event = InboundEvent {
        text: Some("héllo ünicode".to_string()),
        attachment: None,
    };
    assert!(matches!(route_event(&event), RouteAction::ReplyFailure));
}

#[test]
fn plain_text_event_gets_failure_reply() {
    let event = InboundEvent {
        text: Some("hello".to_string()),
        attachment: None,
    };
    let action = route_event(&event);
    assert!(matches!(action, RouteAction::ReplyFailure));
    assert_eq!(immediate_reply_text(&action).unwrap(), "failed");
}

#[test]
fn empty_event_gets_failure_reply() {
    let event = InboundEvent {
        text: None,
        attachment: None,
    };
    assert!(matches!(route_event(&event), RouteAction::ReplyFailure));
}

#[test]
fn audio_attachment_routes_to_transcription() {
    let event = InboundEvent {
        text: None,
        attachment: Some(AttachmentRef::Audio {
            file_id: "audio-42".to_string(),
        }),
    };
    let action = route_event(&event);
    match &action {
        RouteAction::Transcribe { file_id } => assert_eq!(file_id, "audio-42"),
        _ => panic!("expected a transcription decision"),
    }
    assert!(immediate_reply_text(&action).is_none());
}

#[test]
fn voice_attachment_routes_to_transcription() {
    let event = InboundEvent {
        text: Some("listen to this".to_string()),
        attachment: Some(AttachmentRef::Voice {
            file_id: "voice-9".to_string(),
        }),
    };
    match route_event(&event) {
        RouteAction::Transcribe { file_id } => assert_eq!(file_id, "voice-9"),
        _ => panic!("expected a transcription decision"),
    }
}

#[test]
fn resolve_attachment_prefers_audio() {
    let r = resolve_attachment(Some("a1".to_string()), Some("v1".to_string()));
    match r {
        Some(AttachmentRef::Audio { file_id }) => assert_eq!(file_id, "a1"),
        _ => panic!("expected the audio attachment to win"),
    }
}

#[test]
fn resolve_attachment_takes_voice_without_audio() {
    let r = resolve_attachment(None, Some("v1".to_string()));
    match r {
        Some(AttachmentRef::Voice { file_id }) => assert_eq!(file_id, "v1"),
        _ => panic!("expected the voice attachment"),
    }
}

#[test]
fn resolve_attachment_empty_event_has_none() {
    assert!(resolve_attachment(None, None).is_none());
}

#[test]
fn fixed_texts_are_exact() {
    assert_eq!(usage_text(), "Send a voice note to start");
    assert_eq!(failure_text(), "failed");
    assert_eq!(health_text(), "ok");
}

#[test]
fn successful_outcome_replies_with_transcript() {
    let outcome: Result<TranscriptResult, TranscribeError> = Ok(TranscriptResult {
        text: "hello world".to_string(),
    });
    assert_eq!(reply_for_outcome(&outcome), "hello world");
}

#[test]
fn every_failed_outcome_replies_with_failure_text() {
    let failures = vec![
        TranscribeError::FileResolution,
        TranscribeError::Download,
        TranscribeError::Upload,
        TranscribeError::Service {
            detail: "busy".to_string(),
        },
        TranscribeError::Decode,
    ];
    for e in failures {
        let outcome: Result<TranscriptResult, TranscribeError> = Err(e);
        assert_eq!(reply_for_outcome(&outcome), "failed");
    }
}
