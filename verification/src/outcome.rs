//! Shape and invariant of the value a processing call returns, and the
//! decisions the boundary makes around the pipeline collaborator: input
//! validation before the call, shaping of the collaborator's reply, and
//! conversion of an abnormal termination into a normal failure value.

use vstd::prelude::*;

verus! {

/// Fixed-shape aggregate returned by every processing call. Absent text is
/// `None`; at the outer edge `None` becomes a null pointer.
pub struct ProcessOutcome {
    pub success: bool,
    pub formatted_text: Option<String>,
    pub raw_transcript: Option<String>,
    pub error_message: Option<String>,
    pub transcription_ms: u64,
    pub llm_ms: u64,
    pub total_ms: u64,
}

/// What the pipeline collaborator hands back on success.
pub struct PipelineOutput {
    pub formatted_text: String,
    pub raw_transcript: String,
    pub transcription_ms: u64,
    pub llm_ms: u64,
    pub total_ms: u64,
}

/// How the wrapped body of a processing call ended: normally, with its
/// result, or abnormally, with whatever description could be recovered.
pub enum BodyOutcome {
    Completed(ProcessOutcome),
    Aborted(Option<String>),
}

/// The aggregate's invariant: exactly one of the two shapes holds. A
/// success carries no error text; a failure carries an error text, no
/// output text, and zeroed timings.
pub open spec fn outcome_well_formed(o: ProcessOutcome) -> bool {
    &&& o.success ==> o.error_message is None
    &&& !o.success ==> {
        &&& o.formatted_text is None
        &&& o.raw_transcript is None
        &&& o.error_message is Some
        &&& o.transcription_ms == 0
        &&& o.llm_ms == 0
        &&& o.total_ms == 0
    }
}

/// The description attached to an abnormal termination: the recovered text
/// where there is one, a fixed fallback where there is none.
pub open spec fn abort_text_spec(m: Option<String>) -> Seq<char> {
    "Internal error: "@ + match m {
        Some(s) => s@,
        None => "Unknown panic"@,
    }
}

/// A well-formed failure value carrying `msg` as its error description.
pub fn error_result(msg: String) -> (o: ProcessOutcome)
    ensures
        !o.success,
        o.formatted_text is None,
        o.raw_transcript is None,
        o.error_message == Some(msg),
        o.transcription_ms == 0,
        o.llm_ms == 0,
        o.total_ms == 0,
        outcome_well_formed(o),
{
    ProcessOutcome {
        success: false,
        formatted_text: None,
        raw_transcript: None,
        error_message: Some(msg),
        transcription_ms: 0,
        llm_ms: 0,
        total_ms: 0,
    }
}

/// Validation done before the wrapped body runs: a missing handle or a
/// missing audio buffer yields an immediate failure value, and only then.
pub fn validate_process_inputs(handle_present: bool, audio_present: bool) -> (r: Option<
    ProcessOutcome,
>)
    ensures
        r is None <==> (handle_present && audio_present),
        r matches Some(o) ==> {
            &&& !o.success
            &&& outcome_well_formed(o)
            &&& o.error_message matches Some(e) && e@ == "Invalid handle or audio data"@
        },
{
    if handle_present && audio_present {
        None
    } else {
        Some(error_result("Invalid handle or audio data".to_owned()))
    }
}

/// Shape the collaborator's reply: a success carries both texts and the
/// collaborator's own timings; a reported error becomes a well-formed
/// failure value carrying the error text.
pub fn settle_process(reply: Result<PipelineOutput, String>) -> (o: ProcessOutcome)
    ensures
        outcome_well_formed(o),
        o.success == (reply is Ok),
        reply matches Ok(p) ==> {
            &&& o.formatted_text matches Some(f) && f@ == p.formatted_text@
            &&& o.raw_transcript matches Some(r) && r@ == p.raw_transcript@
            &&& o.transcription_ms == p.transcription_ms
            &&& o.llm_ms == p.llm_ms
            &&& o.total_ms == p.total_ms
        },
        reply matches Err(e) ==> o.error_message matches Some(m) && m@ == e@,
{
    match reply {
        Ok(p) => ProcessOutcome {
            success: true,
            formatted_text: Some(p.formatted_text),
            raw_transcript: Some(p.raw_transcript),
            error_message: None,
            transcription_ms: p.transcription_ms,
            llm_ms: p.llm_ms,
            total_ms: p.total_ms,
        },
        Err(e) => error_result(e),
    }
}

/// The single chokepoint between the wrapped body and the foreign caller:
/// a normal completion passes through unchanged, an abnormal termination
/// becomes a well-formed failure value whose error text names the
/// recovered description (or the fixed fallback). Nothing escapes.
pub fn contain_process(outcome: BodyOutcome) -> (o: ProcessOutcome)
    ensures
        outcome matches BodyOutcome::Completed(r) ==> o == r,
        (outcome matches BodyOutcome::Completed(r) && outcome_well_formed(r))
            ==> outcome_well_formed(o),
        outcome matches BodyOutcome::Aborted(m) ==> {
            &&& !o.success
            &&& outcome_well_formed(o)
            &&& o.error_message matches Some(e) && e@ == abort_text_spec(m)
        },
{
    match outcome {
        BodyOutcome::Completed(r) => r,
        BodyOutcome::Aborted(m) => {
            let mut text = "Internal error: ".to_owned();
            match m {
                Some(s) => text.append(s.as_str()),
                None => text.append("Unknown panic"),
            }
            error_result(text)
        },
    }
}

/// Whole milliseconds of audio a sample count represents at 16 kHz
/// (16 samples per millisecond), as logged before processing.
pub fn audio_duration_ms(sample_count: usize) -> (ms: u64)
    ensures
        ms == sample_count as nat / 16,
{
    (sample_count / 16) as u64
}

} // verus!
