use voiceflow_ffi::outcome::{
    audio_duration_ms, contain_process, error_result, settle_process, validate_process_inputs,
    BodyOutcome, PipelineOutput,
};
use voiceflow_ffi::registry::{create, destroy, HandleRegistry};

#[test]
fn null_handle_yields_failure_result() {
    let r = validate_process_inputs(false, true).expect("missing handle must fail");
    assert!(!r.success);
    assert_eq!(r.error_message.as_deref(), Some("Invalid handle or audio data"));
    assert_eq!(r.formatted_text, None);
    assert_eq!(r.raw_transcript, None);
    assert_eq!(r.transcription_ms, 0);
    assert_eq!(r.llm_ms, 0);
    assert_eq!(r.total_ms, 0);
}

#[test]
fn null_audio_yields_failure_result() {
    let r = validate_process_inputs(true, false).expect("missing audio must fail");
    assert!(!r.success);
    assert_eq!(r.error_message.as_deref(), Some("Invalid handle or audio data"));
}

#[test]
fn present_inputs_pass_validation() {
    assert!(validate_process_inputs(true, true).is_none());
}

#[test]
fn empty_audio_produces_well_formed_result() {
    assert_eq!(audio_duration_ms(0), 0);
    let reply = Ok(PipelineOutput {
        formatted_text: String::new(),
        raw_transcript: String::new(),
        transcription_ms: 0,
        llm_ms: 0,
        total_ms: 0,
    });
    let o = contain_process(BodyOutcome::Completed(settle_process(reply)));
    assert!(o.success);
    assert_eq!(o.formatted_text.as_deref(), Some(""));
    assert_eq!(o.raw_transcript.as_deref(), Some(""));
    assert_eq!(o.error_message, None);
}

#[test]
fn audio_duration_at_16khz() {
    assert_eq!(audio_duration_ms(16000), 1000);
    assert_eq!(audio_duration_ms(8000), 500);
    assert_eq!(audio_duration_ms(15), 0);
}

#[test]
fn successful_reply_carries_texts_and_timings() {
    let reply = Ok(PipelineOutput {
        formatted_text: "Hello, world.".to_string(),
        raw_transcript: "hello world".to_string(),
        transcription_ms: 120,
        llm_ms: 340,
        total_ms: 470,
    });
    let o = settle_process(reply);
    assert!(o.success);
    assert_eq!(o.formatted_text.as_deref(), Some("Hello, world."));
    assert_eq!(o.raw_transcript.as_deref(), Some("hello world"));
    assert_eq!(o.error_message, None);
    assert_eq!(o.transcription_ms, 120);
    assert_eq!(o.llm_ms, 340);
    assert_eq!(o.total_ms, 470);
}

#[test]
fn reported_error_becomes_failure_result() {
    let o = settle_process(Err("model not loaded".to_string()));
    assert!(!o.success);
    assert_eq!(o.error_message.as_deref(), Some("model not loaded"));
    assert_eq!(o.formatted_text, None);
    assert_eq!(o.raw_transcript, None);
    assert_eq!(o.total_ms, 0);
}

#[test]
fn error_result_shape() {
    let o = error_result("boom".to_string());
    assert!(!o.success);
    assert_eq!(o.error_message.as_deref(), Some("boom"));
    assert_eq!(o.formatted_text, None);
    assert_eq!(o.raw_transcript, None);
    assert_eq!(o.transcription_ms, 0);
}

#[test]
fn abnormal_termination_is_contained() {
    let o = contain_process(BodyOutcome::Aborted(Some("index out of bounds".to_string())));
    assert!(!o.success);
    assert_eq!(
        o.error_message.as_deref(),
        Some("Internal error: index out of bounds"),
    );
    assert_eq!(o.formatted_text, None);
    assert_eq!(o.raw_transcript, None);
    assert_eq!(o.total_ms, 0);
}

#[test]
fn abnormal_termination_without_description() {
    let o = contain_process(BodyOutcome::Aborted(None));
    assert!(!o.success);
    assert_eq!(o.error_message.as_deref(), Some("Internal error: Unknown panic"));
}

#[test]
fn completed_body_passes_through() {
    let inner = error_result("pipeline failed".to_string());
    let o = contain_process(BodyOutcome::Completed(inner));
    assert!(!o.success);
    assert_eq!(o.error_message.as_deref(), Some("pipeline failed"));
}

#[test]
fn create_then_destroy_leaves_no_handle() {
    let mut reg = HandleRegistry::new();
    let id = create(&mut reg, true, true, true).expect("creation must succeed");
    assert!(reg.is_live(id));
    assert!(destroy(&mut reg, Some(id)));
    assert!(!reg.is_live(id));
}

#[test]
fn failed_creation_registers_nothing() {
    let mut reg = HandleRegistry::new();
    assert_eq!(create(&mut reg, true, true, false), None);
    assert_eq!(create(&mut reg, true, false, true), None);
    assert_eq!(create(&mut reg, false, true, true), None);
}

#[test]
fn destroy_null_is_noop() {
    let mut reg = HandleRegistry::new();
    assert!(!destroy(&mut reg, None));
    let id = create(&mut reg, true, true, true).unwrap();
    assert!(!destroy(&mut reg, None));
    assert!(reg.is_live(id));
}

#[test]
fn handles_are_fresh_and_independent() {
    let mut reg = HandleRegistry::new();
    let a = create(&mut reg, true, true, true).unwrap();
    let b = create(&mut reg, true, true, true).unwrap();
    assert_ne!(a, b);
    assert!(destroy(&mut reg, Some(a)));
    assert!(reg.is_live(b));
    assert!(!reg.is_live(a));
    assert!(!destroy(&mut reg, Some(a)));
}
