use voiceflow_ffi::codec::{
    llm_model_id, moonshine_model_id, parse_llm_model, parse_moonshine_model, parse_stt_engine,
    stt_engine_id, LlmModel, MoonshineModel, SttEngine,
};
use voiceflow_ffi::config::{
    current_model_id, current_moonshine_model_id, current_stt_engine_id, parse_config_fields,
    render_config, set_model, set_moonshine_model, set_stt_engine, Config,
};

#[test]
fn llm_identifiers_round_trip() {
    let fixed = [
        (LlmModel::Qwen3_1_7B, "qwen3-1.7b"),
        (LlmModel::Qwen3_4B, "qwen3-4b"),
        (LlmModel::SmolLM3_3B, "smollm3-3b"),
        (LlmModel::Gemma2_2B, "gemma2-2b"),
        (LlmModel::Phi2, "phi-2"),
    ];
    for (model, id) in fixed {
        assert_eq!(llm_model_id(model), id);
        assert_eq!(parse_llm_model(id), Some(model));
    }
}

#[test]
fn custom_has_identifier_but_does_not_parse() {
    assert_eq!(llm_model_id(LlmModel::Custom), "custom");
    assert_eq!(parse_llm_model("custom"), None);
    assert_eq!(parse_llm_model("not-a-real-id"), None);
    assert_eq!(parse_llm_model(""), None);
}

#[test]
fn stt_identifiers_round_trip() {
    assert_eq!(stt_engine_id(SttEngine::Whisper), "whisper");
    assert_eq!(stt_engine_id(SttEngine::Moonshine), "moonshine");
    assert_eq!(parse_stt_engine("whisper"), Some(SttEngine::Whisper));
    assert_eq!(parse_stt_engine("moonshine"), Some(SttEngine::Moonshine));
    assert_eq!(parse_stt_engine("vosk"), None);
}

#[test]
fn moonshine_identifiers_round_trip() {
    assert_eq!(moonshine_model_id(MoonshineModel::Tiny), "tiny");
    assert_eq!(moonshine_model_id(MoonshineModel::Base), "base");
    assert_eq!(parse_moonshine_model("tiny"), Some(MoonshineModel::Tiny));
    assert_eq!(parse_moonshine_model("base"), Some(MoonshineModel::Base));
    assert_eq!(parse_moonshine_model("large"), None);
}

#[test]
fn default_configuration() {
    let c = Config::default();
    assert_eq!(c.llm_model, LlmModel::Qwen3_4B);
    assert_eq!(c.stt_engine, SttEngine::Whisper);
    assert_eq!(c.moonshine_model, MoonshineModel::Base);
}

#[test]
fn set_model_then_current_returns_it() {
    let mut c = Config::default();
    assert!(set_model(&mut c, "qwen3-4b"));
    assert_eq!(current_model_id(&c), "qwen3-4b");
    assert!(set_model(&mut c, "phi-2"));
    assert_eq!(current_model_id(&c), "phi-2");
}

#[test]
fn set_model_unknown_id_changes_nothing() {
    let mut c = Config::default();
    assert!(set_model(&mut c, "qwen3-1.7b"));
    let before = c;
    assert!(!set_model(&mut c, "not-a-real-id"));
    assert_eq!(c, before);
    assert_eq!(current_model_id(&c), "qwen3-1.7b");
}

#[test]
fn set_model_custom_is_not_selectable() {
    let mut c = Config::default();
    let before = c;
    assert!(!set_model(&mut c, "custom"));
    assert_eq!(c, before);
}

#[test]
fn set_stt_engine_round_trip() {
    let mut c = Config::default();
    assert!(set_stt_engine(&mut c, "moonshine"));
    assert_eq!(current_stt_engine_id(&c), "moonshine");
    assert!(!set_stt_engine(&mut c, "wav2vec"));
    assert_eq!(current_stt_engine_id(&c), "moonshine");
}

#[test]
fn set_moonshine_model_round_trip() {
    let mut c = Config::default();
    assert!(set_moonshine_model(&mut c, "tiny"));
    assert_eq!(current_moonshine_model_id(&c), "tiny");
    assert!(!set_moonshine_model(&mut c, "huge"));
    assert_eq!(current_moonshine_model_id(&c), "tiny");
}

#[test]
fn rendered_configuration_text() {
    let c = Config::default();
    assert_eq!(render_config(&c), "qwen3-4b\nwhisper\nbase\n");
}

#[test]
fn configuration_round_trips_through_its_fields() {
    let mut c = Config::default();
    assert!(set_model(&mut c, "phi-2"));
    assert!(set_stt_engine(&mut c, "moonshine"));
    assert!(set_moonshine_model(&mut c, "tiny"));
    let rebuilt = parse_config_fields("phi-2", "moonshine", "tiny");
    assert_eq!(rebuilt, Some(c));
}

#[test]
fn one_bad_field_spoils_the_store() {
    assert_eq!(parse_config_fields("phi-2", "moonshine", "huge"), None);
    assert_eq!(parse_config_fields("custom", "whisper", "base"), None);
    assert_eq!(parse_config_fields("", "whisper", "base"), None);
}

#[test]
fn set_model_leaves_other_fields_alone() {
    let mut c = Config::default();
    assert!(set_stt_engine(&mut c, "moonshine"));
    assert!(set_model(&mut c, "gemma2-2b"));
    assert_eq!(current_stt_engine_id(&c), "moonshine");
    assert_eq!(current_moonshine_model_id(&c), "base");
}
