//! Inbound chat events and the routing decisions made for each of them.
//!
//! An event carries optional text and at most one attachment reference. The
//! router decides, for one event, whether to answer the start command with the
//! usage text, to hand an attachment to the transcription pipeline, or to send
//! the generic failure text; and, once a transcription outcome is there, what
//! the reply reads.

use vstd::prelude::*;
use vstd::string::StrSliceExecFns;

use crate::client::TranscribeError;
use crate::client::TranscriptResult;

verus! {

/// A reference to a remote file owned by the chat platform, tagged with the
/// kind of attachment it came from.
pub enum AttachmentRef {
    /// An audio-file attachment.
    Audio { file_id: String },
    /// A voice-note attachment.
    Voice { file_id: String },
}

impl AttachmentRef {
    /// The platform file identifier this reference names.
    pub open spec fn spec_file_id(&self) -> Seq<char> {
        match self {
            AttachmentRef::Audio { file_id } => file_id@,
            AttachmentRef::Voice { file_id } => file_id@,
        }
    }

    /// The platform file identifier this reference names.
    pub fn file_id(&self) -> (r: &String)
        ensures
            r@ == self.spec_file_id(),
    {
        match self {
            AttachmentRef::Audio { file_id } => file_id,
            AttachmentRef::Voice { file_id } => file_id,
        }
    }
}

/// One inbound chat event, reduced to what routing reads: its plain text, if
/// any, and its attachment reference, if any.
pub struct InboundEvent {
    pub text: Option<String>,
    pub attachment: Option<AttachmentRef>,
}

/// Picks the attachment reference for an event from its optional audio and
/// voice fields: the audio attachment wins over the voice note, and an event
/// with neither has no reference.
pub fn resolve_attachment(audio_id: Option<String>, voice_id: Option<String>) -> (r: Option<
    AttachmentRef,
>)
    ensures
        match audio_id {
            Some(id) => r == Some(AttachmentRef::Audio { file_id: id }),
            None => match voice_id {
                Some(id) => r == Some(AttachmentRef::Voice { file_id: id }),
                None => r is None,
            },
        },
{
    match audio_id {
        Some(id) => Some(AttachmentRef::Audio { file_id: id }),
        None => match voice_id {
            Some(id) => Some(AttachmentRef::Voice { file_id: id }),
            None => None,
        },
    }
}

/// The command text that asks for the usage reply.
pub open spec fn start_command() -> Seq<char> {
    "/start"@
}

/// Whether a text payload starts with the start command.
pub open spec fn is_start_text(t: Seq<char>) -> bool {
    t.len() >= start_command().len() && t.subrange(0, start_command().len() as int)
        == start_command()
}

/// Whether an event carries a text payload starting with the start command.
pub open spec fn event_is_start(e: &InboundEvent) -> bool {
    e.text matches Some(t) && is_start_text(t@)
}

/// Whether a text payload starts with the start command.
pub fn text_starts_with_start_command(t: &String) -> (r: bool)
    ensures
        r == is_start_text(t@),
{
    proof {
        reveal_strlit("/start");
    }
    let s = t.as_str();
    if s.unicode_len() < 6 {
        return false;
    }
    let r = s.get_char(0) == '/' && s.get_char(1) == 's' && s.get_char(2) == 't' && s.get_char(3)
        == 'a' && s.get_char(4) == 'r' && s.get_char(5) == 't';
    proof {
        let s6 = t@.subrange(0, 6);
        assert(s6[0] == t@[0] && s6[1] == t@[1] && s6[2] == t@[2] && s6[3] == t@[3] && s6[4]
            == t@[4] && s6[5] == t@[5]);
        if r {
            assert(s6 =~= start_command());
        } else {
            assert(s6 != start_command());
        }
    }
    r
}

/// What the router decides to do with one inbound event.
pub enum RouteAction {
    /// Answer with the fixed usage text and stop.
    ReplyUsage,
    /// Signal typing, then run the transcription pipeline for this file.
    Transcribe { file_id: String },
    /// Answer with the fixed generic failure text and stop.
    ReplyFailure,
}

/// Decides what to do with one inbound event: the start command is answered
/// with the usage text before anything else; otherwise an attachment, if
/// present, goes to transcription; an event with neither gets the failure
/// text.
pub fn route_event(event: &InboundEvent) -> (action: RouteAction)
    ensures
        event_is_start(event) ==> action == RouteAction::ReplyUsage,
        !event_is_start(event) ==> match event.attachment {
            Some(att) => action matches RouteAction::Transcribe { file_id } && file_id@
                == att.spec_file_id(),
            None => action == RouteAction::ReplyFailure,
        },
{
    if let Some(text) = &event.text {
        if text_starts_with_start_command(text) {
            return RouteAction::ReplyUsage;
        }
    }
    match &event.attachment {
        Some(att) => RouteAction::Transcribe { file_id: att.file_id().clone() },
        None => RouteAction::ReplyFailure,
    }
}

/// Fixed usage text sent in answer to the start command.
pub fn usage_text() -> (r: String)
    ensures
        r@ == "Send a voice note to start"@,
{
    "Send a voice note to start".to_owned()
}

/// Fixed generic failure text sent when no transcript can be produced.
pub fn failure_text() -> (r: String)
    ensures
        r@ == "failed"@,
{
    "failed".to_owned()
}

/// Body of the liveness probe response.
pub fn health_text() -> (r: String)
    ensures
        r@ == "ok"@,
{
    "ok".to_owned()
}

/// The reply a routing decision settles on its own, before any transcription:
/// the usage text for the start command, the failure text for an event with
/// nothing to transcribe, and none yet for an attachment.
pub fn immediate_reply_text(action: &RouteAction) -> (r: Option<String>)
    ensures
        action is ReplyUsage ==> (r matches Some(t) && t@ == "Send a voice note to start"@),
        action is ReplyFailure ==> (r matches Some(t) && t@ == "failed"@),
        action is Transcribe ==> r is None,
{
    match action {
        RouteAction::ReplyUsage => Some(usage_text()),
        RouteAction::ReplyFailure => Some(failure_text()),
        RouteAction::Transcribe { .. } => None,
    }
}

/// The reply for a finished transcription: the transcript text itself on
/// success, the fixed generic failure text on any error, so that a failed
/// transcription degrades into a reply instead of aborting the handling task.
pub fn reply_for_outcome(outcome: &Result<TranscriptResult, TranscribeError>) -> (reply: String)
    ensures
        outcome matches Ok(t) ==> reply@ == t.text@,
        outcome is Err ==> reply@ == "failed"@,
{
    match outcome {
        Ok(t) => t.text.clone(),
        Err(_) => failure_text(),
    }
}

} // verus!
