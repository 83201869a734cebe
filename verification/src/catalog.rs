//! Read-only model catalog: the descriptors surfaced per enumeration
//! index, and the download-location derivation per identifier. A
//! descriptor is a fresh snapshot; an out-of-range index yields the
//! sentinel "empty" descriptor rather than a failure.

use crate::codec::{
    lemma_llm_ids_distinct, llm_id_spec, llm_model_id, moonshine_id_spec, moonshine_model_id,
    parse_llm_model, parse_llm_spec, LlmModel, MoonshineModel,
};
use vstd::prelude::*;

verus! {

/// Catalog snapshot for a language model. Absent text is `None`; at the
/// outer edge `None` becomes a null pointer, and callers are told to check
/// the identifier before trusting the other fields.
pub struct ModelDescriptor {
    pub id: Option<String>,
    pub display_name: Option<String>,
    pub filename: Option<String>,
    pub size_mb: u32,
    pub is_downloaded: bool,
}

/// Catalog snapshot for a Moonshine speech model.
pub struct MoonshineDescriptor {
    pub id: Option<String>,
    pub display_name: Option<String>,
    pub size_mb: u32,
    pub is_downloaded: bool,
}

/// The catalog order of the language models; the custom entry is last.
pub open spec fn llm_of_index(i: int) -> LlmModel {
    if i == 0 {
        LlmModel::Qwen3_1_7B
    } else if i == 1 {
        LlmModel::Qwen3_4B
    } else if i == 2 {
        LlmModel::SmolLM3_3B
    } else if i == 3 {
        LlmModel::Gemma2_2B
    } else if i == 4 {
        LlmModel::Phi2
    } else {
        LlmModel::Custom
    }
}

/// Human display name of a language model.
pub open spec fn llm_display_spec(m: LlmModel) -> Seq<char> {
    match m {
        LlmModel::Qwen3_1_7B => "Qwen3 1.7B"@,
        LlmModel::Qwen3_4B => "Qwen3 4B"@,
        LlmModel::SmolLM3_3B => "SmolLM3 3B"@,
        LlmModel::Gemma2_2B => "Gemma 2 2B"@,
        LlmModel::Phi2 => "Phi-2"@,
        LlmModel::Custom => "Custom Model"@,
    }
}

/// On-disk file name of a language model; the custom entry has none.
pub open spec fn llm_filename_spec(m: LlmModel) -> Option<Seq<char>> {
    match m {
        LlmModel::Qwen3_1_7B => Some("qwen3-1.7b-q4_k_m.gguf"@),
        LlmModel::Qwen3_4B => Some("qwen3-4b-q4_k_m.gguf"@),
        LlmModel::SmolLM3_3B => Some("smollm3-3b-q4_k_m.gguf"@),
        LlmModel::Gemma2_2B => Some("gemma2-2b-q4_k_m.gguf"@),
        LlmModel::Phi2 => Some("phi-2-q4_k_m.gguf"@),
        LlmModel::Custom => None,
    }
}

/// Hosting repository a language model is fetched from; the custom entry
/// has none, so no download location can be derived for it.
pub open spec fn llm_repo_spec(m: LlmModel) -> Option<Seq<char>> {
    match m {
        LlmModel::Qwen3_1_7B => Some("Qwen/Qwen3-1.7B-GGUF"@),
        LlmModel::Qwen3_4B => Some("Qwen/Qwen3-4B-GGUF"@),
        LlmModel::SmolLM3_3B => Some("HuggingFaceTB/SmolLM3-3B-GGUF"@),
        LlmModel::Gemma2_2B => Some("google/gemma-2-2b-GGUF"@),
        LlmModel::Phi2 => Some("TheBloke/phi-2-GGUF"@),
        LlmModel::Custom => None,
    }
}

/// Size class of a language model, in whole megabytes.
pub open spec fn llm_size_mb_spec(m: LlmModel) -> u32 {
    match m {
        LlmModel::Qwen3_1_7B => 1100u32,
        LlmModel::Qwen3_4B => 2500u32,
        LlmModel::SmolLM3_3B => 1800u32,
        LlmModel::Gemma2_2B => 1600u32,
        LlmModel::Phi2 => 1700u32,
        LlmModel::Custom => 0u32,
    }
}

/// The derived download location of the model an identifier names:
/// absent when the identifier is unrecognized or names an entry without a
/// fixed repository.
pub open spec fn download_url_spec(s: Seq<char>) -> Option<Seq<char>> {
    match parse_llm_spec(s) {
        None => None,
        Some(m) => match llm_repo_spec(m) {
            None => None,
            Some(repo) => match llm_filename_spec(m) {
                None => None,
                Some(file) => Some(
                    "https://huggingface.co/"@ + repo + "/resolve/main/"@ + file,
                ),
            },
        },
    }
}

/// Number of language-model catalog entries.
pub fn model_count() -> (n: usize)
    ensures
        n == 6,
{
    6
}

/// On-disk file name of a language model, for the presence probe.
pub fn llm_filename(m: LlmModel) -> (r: Option<&'static str>)
    ensures
        r is Some <==> llm_filename_spec(m) is Some,
        r matches Some(s) ==> llm_filename_spec(m) == Some(s@),
{
    match m {
        LlmModel::Qwen3_1_7B => Some("qwen3-1.7b-q4_k_m.gguf"),
        LlmModel::Qwen3_4B => Some("qwen3-4b-q4_k_m.gguf"),
        LlmModel::SmolLM3_3B => Some("smollm3-3b-q4_k_m.gguf"),
        LlmModel::Gemma2_2B => Some("gemma2-2b-q4_k_m.gguf"),
        LlmModel::Phi2 => Some("phi-2-q4_k_m.gguf"),
        LlmModel::Custom => None,
    }
}

/// Hosting repository of a language model.
pub fn llm_repo(m: LlmModel) -> (r: Option<&'static str>)
    ensures
        r is Some <==> llm_repo_spec(m) is Some,
        r matches Some(s) ==> llm_repo_spec(m) == Some(s@),
{
    match m {
        LlmModel::Qwen3_1_7B => Some("Qwen/Qwen3-1.7B-GGUF"),
        LlmModel::Qwen3_4B => Some("Qwen/Qwen3-4B-GGUF"),
        LlmModel::SmolLM3_3B => Some("HuggingFaceTB/SmolLM3-3B-GGUF"),
        LlmModel::Gemma2_2B => Some("google/gemma-2-2b-GGUF"),
        LlmModel::Phi2 => Some("TheBloke/phi-2-GGUF"),
        LlmModel::Custom => None,
    }
}

/// Human display name of a language model.
pub fn llm_display_name(m: LlmModel) -> (s: &'static str)
    ensures
        s@ == llm_display_spec(m),
{
    match m {
        LlmModel::Qwen3_1_7B => "Qwen3 1.7B",
        LlmModel::Qwen3_4B => "Qwen3 4B",
        LlmModel::SmolLM3_3B => "SmolLM3 3B",
        LlmModel::Gemma2_2B => "Gemma 2 2B",
        LlmModel::Phi2 => "Phi-2",
        LlmModel::Custom => "Custom Model",
    }
}

/// The model at a catalog index, if the index is in range.
pub fn llm_at_index(index: usize) -> (r: Option<LlmModel>)
    ensures
        r is Some <==> index < 6,
        r matches Some(m) ==> m == llm_of_index(index as int),
{
    match index {
        0 => Some(LlmModel::Qwen3_1_7B),
        1 => Some(LlmModel::Qwen3_4B),
        2 => Some(LlmModel::SmolLM3_3B),
        3 => Some(LlmModel::Gemma2_2B),
        4 => Some(LlmModel::Phi2),
        5 => Some(LlmModel::Custom),
        _ => None,
    }
}

/// Descriptor for a catalog index. An index at or past the count yields
/// the sentinel descriptor: every field null, zero or false. In range,
/// the fields are the catalog entry's, and the presence flag is the
/// probe's verdict as handed in by the edge.
pub fn model_info(index: usize, downloaded: bool) -> (d: ModelDescriptor)
    ensures
        index >= 6 ==> {
            &&& d.id is None
            &&& d.display_name is None
            &&& d.filename is None
            &&& d.size_mb == 0
            &&& !d.is_downloaded
        },
        index < 6 ==> {
            let m = llm_of_index(index as int);
            &&& d.id matches Some(s) && s@ == llm_id_spec(m)
            &&& d.display_name matches Some(s) && s@ == llm_display_spec(m)
            &&& (d.filename is Some <==> llm_filename_spec(m) is Some)
            &&& (d.filename matches Some(f) ==> llm_filename_spec(m) == Some(f@))
            &&& d.size_mb == llm_size_mb_spec(m)
            &&& d.is_downloaded == downloaded
        },
{
    match llm_at_index(index) {
        None => ModelDescriptor {
            id: None,
            display_name: None,
            filename: None,
            size_mb: 0,
            is_downloaded: false,
        },
        Some(m) => ModelDescriptor {
            id: Some(llm_model_id(m).to_owned()),
            display_name: Some(llm_display_name(m).to_owned()),
            filename: match llm_filename(m) {
                Some(f) => Some(f.to_owned()),
                None => None,
            },
            size_mb: llm_size_mb(m),
            is_downloaded: downloaded,
        },
    }
}

/// Size class of a language model, in whole megabytes.
pub fn llm_size_mb(m: LlmModel) -> (n: u32)
    ensures
        n == llm_size_mb_spec(m),
{
    match m {
        LlmModel::Qwen3_1_7B => 1100,
        LlmModel::Qwen3_4B => 2500,
        LlmModel::SmolLM3_3B => 1800,
        LlmModel::Gemma2_2B => 1600,
        LlmModel::Phi2 => 1700,
        LlmModel::Custom => 0,
    }
}

/// Derive the download location for the model an identifier names.
pub fn model_download_url(id: &str) -> (r: Option<String>)
    ensures
        r is Some <==> download_url_spec(id@) is Some,
        r matches Some(u) ==> download_url_spec(id@) == Some(u@),
{
    match parse_llm_model(id) {
        None => None,
        Some(m) => match llm_repo(m) {
            None => None,
            Some(repo) => match llm_filename(m) {
                None => None,
                Some(file) => {
                    let mut u = "https://huggingface.co/".to_owned();
                    u.append(repo);
                    u.append("/resolve/main/");
                    u.append(file);
                    Some(u)
                },
            },
        },
    }
}

/// The custom catalog entry is the designated no-location entry: its own
/// stable identifier does not decode to any selectable model, so no
/// download location is derived for it.
pub proof fn lemma_custom_has_no_url()
    ensures
        download_url_spec(llm_id_spec(LlmModel::Custom)) is None,
{
    lemma_llm_ids_distinct();
}

/// The catalog order of the Moonshine models.
pub open spec fn moonshine_of_index(i: int) -> MoonshineModel {
    if i == 0 {
        MoonshineModel::Tiny
    } else {
        MoonshineModel::Base
    }
}

/// Human display name of a Moonshine model.
pub open spec fn moonshine_display_spec(m: MoonshineModel) -> Seq<char> {
    match m {
        MoonshineModel::Tiny => "Moonshine Tiny"@,
        MoonshineModel::Base => "Moonshine Base"@,
    }
}

/// Size of a Moonshine model, in whole megabytes.
pub open spec fn moonshine_size_mb_spec(m: MoonshineModel) -> u32 {
    match m {
        MoonshineModel::Tiny => 60u32,
        MoonshineModel::Base => 140u32,
    }
}

/// Number of Moonshine catalog entries.
pub fn moonshine_model_count() -> (n: usize)
    ensures
        n == 2,
{
    2
}

/// Human display name of a Moonshine model.
pub fn moonshine_display_name(m: MoonshineModel) -> (s: &'static str)
    ensures
        s@ == moonshine_display_spec(m),
{
    match m {
        MoonshineModel::Tiny => "Moonshine Tiny",
        MoonshineModel::Base => "Moonshine Base",
    }
}

/// Size of a Moonshine model, in whole megabytes.
pub fn moonshine_size_mb(m: MoonshineModel) -> (n: u32)
    ensures
        n == moonshine_size_mb_spec(m),
{
    match m {
        MoonshineModel::Tiny => 60,
        MoonshineModel::Base => 140,
    }
}

/// The Moonshine model at a catalog index, if the index is in range.
pub fn moonshine_at_index(index: usize) -> (r: Option<MoonshineModel>)
    ensures
        r is Some <==> index < 2,
        r matches Some(m) ==> m == moonshine_of_index(index as int),
{
    match index {
        0 => Some(MoonshineModel::Tiny),
        1 => Some(MoonshineModel::Base),
        _ => None,
    }
}

/// Descriptor for a Moonshine catalog index, with the same sentinel rule
/// as the language-model catalog.
pub fn moonshine_model_info(index: usize, downloaded: bool) -> (d: MoonshineDescriptor)
    ensures
        index >= 2 ==> {
            &&& d.id is None
            &&& d.display_name is None
            &&& d.size_mb == 0
            &&& !d.is_downloaded
        },
        index < 2 ==> {
            let m = moonshine_of_index(index as int);
            &&& d.id matches Some(s) && s@ == moonshine_id_spec(m)
            &&& d.display_name matches Some(s) && s@ == moonshine_display_spec(m)
            &&& d.size_mb == moonshine_size_mb_spec(m)
            &&& d.is_downloaded == downloaded
        },
{
    match moonshine_at_index(index) {
        None => MoonshineDescriptor {
            id: None,
            display_name: None,
            size_mb: 0,
            is_downloaded: false,
        },
        Some(m) => MoonshineDescriptor {
            id: Some(moonshine_model_id(m).to_owned()),
            display_name: Some(moonshine_display_name(m).to_owned()),
            size_mb: moonshine_size_mb(m),
            is_downloaded: downloaded,
        },
    }
}

} // verus!
