use voiceflow_ffi::catalog::{
    llm_filename, model_count, model_download_url, model_info, moonshine_model_count,
    moonshine_model_info,
};
use voiceflow_ffi::codec::{LlmModel, MoonshineModel};
use voiceflow_ffi::diag::{log_line, u64_to_dec};
use voiceflow_ffi::paths::{
    config_file_path, debug_log_path, model_file_path, models_dir_path,
    moonshine_model_dir_path, moonshine_models_dir_path, version,
};

#[test]
fn model_count_is_six() {
    assert_eq!(model_count(), 6);
}

#[test]
fn moonshine_model_count_is_two() {
    assert_eq!(moonshine_model_count(), 2);
}

#[test]
fn model_info_in_range() {
    let d = model_info(1, true);
    assert_eq!(d.id.as_deref(), Some("qwen3-4b"));
    assert_eq!(d.display_name.as_deref(), Some("Qwen3 4B"));
    assert_eq!(d.filename.as_deref(), Some("qwen3-4b-q4_k_m.gguf"));
    assert_eq!(d.size_mb, 2500);
    assert!(d.is_downloaded);

    let d = model_info(4, false);
    assert_eq!(d.id.as_deref(), Some("phi-2"));
    assert!(!d.is_downloaded);
}

#[test]
fn model_info_custom_entry_is_last() {
    let d = model_info(5, false);
    assert_eq!(d.id.as_deref(), Some("custom"));
    assert_eq!(d.display_name.as_deref(), Some("Custom Model"));
    assert_eq!(d.filename, None);
    assert_eq!(d.size_mb, 0);
}

#[test]
fn model_info_out_of_range_is_sentinel() {
    for index in [6usize, 7, 100] {
        let d = model_info(index, true);
        assert_eq!(d.id, None);
        assert_eq!(d.display_name, None);
        assert_eq!(d.filename, None);
        assert_eq!(d.size_mb, 0);
        assert!(!d.is_downloaded);
    }
}

#[test]
fn moonshine_model_info_in_range() {
    let d = moonshine_model_info(0, false);
    assert_eq!(d.id.as_deref(), Some("tiny"));
    assert_eq!(d.display_name.as_deref(), Some("Moonshine Tiny"));
    assert_eq!(d.size_mb, 60);
    let d = moonshine_model_info(1, true);
    assert_eq!(d.id.as_deref(), Some("base"));
    assert!(d.is_downloaded);
}

#[test]
fn moonshine_model_info_out_of_range_is_sentinel() {
    for index in [2usize, 3, 50] {
        let d = moonshine_model_info(index, true);
        assert_eq!(d.id, None);
        assert_eq!(d.display_name, None);
        assert_eq!(d.size_mb, 0);
        assert!(!d.is_downloaded);
    }
}

#[test]
fn download_url_for_fixed_models() {
    assert_eq!(
        model_download_url("qwen3-4b").as_deref(),
        Some("https://huggingface.co/Qwen/Qwen3-4B-GGUF/resolve/main/qwen3-4b-q4_k_m.gguf"),
    );
    assert_eq!(
        model_download_url("phi-2").as_deref(),
        Some("https://huggingface.co/TheBloke/phi-2-GGUF/resolve/main/phi-2-q4_k_m.gguf"),
    );
}

#[test]
fn download_url_for_custom_is_absent() {
    assert_eq!(model_download_url("custom"), None);
}

#[test]
fn download_url_for_unknown_is_absent() {
    assert_eq!(model_download_url("not-a-real-id"), None);
    assert_eq!(model_download_url(""), None);
}

#[test]
fn filenames_exist_for_all_but_custom() {
    assert_eq!(
        llm_filename(LlmModel::Gemma2_2B),
        Some("gemma2-2b-q4_k_m.gguf"),
    );
    assert_eq!(llm_filename(LlmModel::Custom), None);
}

#[test]
fn derived_paths() {
    assert_eq!(models_dir_path("/home/u"), "/home/u/.voiceflow/models");
    assert_eq!(config_file_path("/home/u"), "/home/u/.voiceflow/config");
    assert_eq!(
        model_file_path("/home/u", "phi-2-q4_k_m.gguf"),
        "/home/u/.voiceflow/models/phi-2-q4_k_m.gguf",
    );
    assert_eq!(
        moonshine_models_dir_path("/home/u"),
        "/home/u/.voiceflow/models/moonshine",
    );
    assert_eq!(
        moonshine_model_dir_path("/home/u", MoonshineModel::Tiny),
        "/home/u/.voiceflow/models/moonshine/tiny",
    );
}

#[test]
fn moonshine_store_is_parent_of_each_model_dir() {
    let store = moonshine_models_dir_path("/h");
    for m in [MoonshineModel::Tiny, MoonshineModel::Base] {
        let dir = moonshine_model_dir_path("/h", m);
        let parent = dir.rsplit_once('/').map(|(p, _)| p.to_string());
        assert_eq!(parent.as_deref(), Some(store.as_str()));
    }
}

#[test]
fn fixed_locations_and_version() {
    assert_eq!(debug_log_path(), "/tmp/voiceflow_debug.log");
    assert_eq!(version(), "0.1.0");
}

#[test]
fn decimal_rendering() {
    assert_eq!(u64_to_dec(0), "0");
    assert_eq!(u64_to_dec(7), "7");
    assert_eq!(u64_to_dec(10), "10");
    assert_eq!(u64_to_dec(1234567890), "1234567890");
    assert_eq!(u64_to_dec(u64::MAX), "18446744073709551615");
}

#[test]
fn log_line_text() {
    assert_eq!(log_line(0, "hello"), "[0] hello");
    assert_eq!(
        log_line(1234567890, "voiceflow_init called"),
        "[1234567890] voiceflow_init called",
    );
}
