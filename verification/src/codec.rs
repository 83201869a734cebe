//! Bidirectional mapping between the closed configuration enumerations and
//! their stable string identifiers. The identifiers are a versioned external
//! contract: both directions of the mapping are stated here and proved to
//! agree with each other.

use vstd::prelude::*;

verus! {

/// Language-model selector. `Custom` stands for a user-supplied model that
/// has a stable identifier but no fixed catalog entry.
#[derive(Clone, Copy, PartialEq, Eq, Structural, Debug)]
pub enum LlmModel {
    Qwen3_1_7B,
    Qwen3_4B,
    SmolLM3_3B,
    Gemma2_2B,
    Phi2,
    Custom,
}

/// Speech-recognition engine selector.
#[derive(Clone, Copy, PartialEq, Eq, Structural, Debug)]
pub enum SttEngine {
    Whisper,
    Moonshine,
}

/// Moonshine speech-model size selector.
#[derive(Clone, Copy, PartialEq, Eq, Structural, Debug)]
pub enum MoonshineModel {
    Tiny,
    Base,
}

/// The stable identifier of a language-model value.
pub open spec fn llm_id_spec(m: LlmModel) -> Seq<char> {
    match m {
        LlmModel::Qwen3_1_7B => "qwen3-1.7b"@,
        LlmModel::Qwen3_4B => "qwen3-4b"@,
        LlmModel::SmolLM3_3B => "smollm3-3b"@,
        LlmModel::Gemma2_2B => "gemma2-2b"@,
        LlmModel::Phi2 => "phi-2"@,
        LlmModel::Custom => "custom"@,
    }
}

/// The language-model value an identifier decodes to. `Custom` is not
/// selectable by identifier, so only the five fixed identifiers decode.
pub open spec fn parse_llm_spec(s: Seq<char>) -> Option<LlmModel> {
    if s == "qwen3-1.7b"@ {
        Some(LlmModel::Qwen3_1_7B)
    } else if s == "qwen3-4b"@ {
        Some(LlmModel::Qwen3_4B)
    } else if s == "smollm3-3b"@ {
        Some(LlmModel::SmolLM3_3B)
    } else if s == "gemma2-2b"@ {
        Some(LlmModel::Gemma2_2B)
    } else if s == "phi-2"@ {
        Some(LlmModel::Phi2)
    } else {
        None
    }
}

/// The stable identifier of a speech-engine value.
pub open spec fn stt_id_spec(e: SttEngine) -> Seq<char> {
    match e {
        SttEngine::Whisper => "whisper"@,
        SttEngine::Moonshine => "moonshine"@,
    }
}

/// The speech-engine value an identifier decodes to.
pub open spec fn parse_stt_spec(s: Seq<char>) -> Option<SttEngine> {
    if s == "whisper"@ {
        Some(SttEngine::Whisper)
    } else if s == "moonshine"@ {
        Some(SttEngine::Moonshine)
    } else {
        None
    }
}

/// The stable identifier of a Moonshine model size.
pub open spec fn moonshine_id_spec(m: MoonshineModel) -> Seq<char> {
    match m {
        MoonshineModel::Tiny => "tiny"@,
        MoonshineModel::Base => "base"@,
    }
}

/// The Moonshine model size an identifier decodes to.
pub open spec fn parse_moonshine_spec(s: Seq<char>) -> Option<MoonshineModel> {
    if s == "tiny"@ {
        Some(MoonshineModel::Tiny)
    } else if s == "base"@ {
        Some(MoonshineModel::Base)
    } else {
        None
    }
}

/// String equality, stated over the character views.
pub fn str_eq(a: &str, b: &str) -> (r: bool)
    ensures
        r == (a@ == b@),
{
    let x: String = a.to_owned();
    let y: String = b.to_owned();
    x == y
}

/// Encode a language-model value as its stable identifier.
pub fn llm_model_id(m: LlmModel) -> (s: &'static str)
    ensures
        s@ == llm_id_spec(m),
{
    match m {
        LlmModel::Qwen3_1_7B => "qwen3-1.7b",
        LlmModel::Qwen3_4B => "qwen3-4b",
        LlmModel::SmolLM3_3B => "smollm3-3b",
        LlmModel::Gemma2_2B => "gemma2-2b",
        LlmModel::Phi2 => "phi-2",
        LlmModel::Custom => "custom",
    }
}

/// Decode a language-model identifier; unrecognized identifiers decode to
/// nothing, and `"custom"` is deliberately among them.
pub fn parse_llm_model(s: &str) -> (r: Option<LlmModel>)
    ensures
        r == parse_llm_spec(s@),
{
    if str_eq(s, "qwen3-1.7b") {
        Some(LlmModel::Qwen3_1_7B)
    } else if str_eq(s, "qwen3-4b") {
        Some(LlmModel::Qwen3_4B)
    } else if str_eq(s, "smollm3-3b") {
        Some(LlmModel::SmolLM3_3B)
    } else if str_eq(s, "gemma2-2b") {
        Some(LlmModel::Gemma2_2B)
    } else if str_eq(s, "phi-2") {
        Some(LlmModel::Phi2)
    } else {
        None
    }
}

/// Encode a speech-engine value as its stable identifier.
pub fn stt_engine_id(e: SttEngine) -> (s: &'static str)
    ensures
        s@ == stt_id_spec(e),
{
    match e {
        SttEngine::Whisper => "whisper",
        SttEngine::Moonshine => "moonshine",
    }
}

/// Decode a speech-engine identifier.
pub fn parse_stt_engine(s: &str) -> (r: Option<SttEngine>)
    ensures
        r == parse_stt_spec(s@),
{
    if str_eq(s, "whisper") {
        Some(SttEngine::Whisper)
    } else if str_eq(s, "moonshine") {
        Some(SttEngine::Moonshine)
    } else {
        None
    }
}

/// Encode a Moonshine model size as its stable identifier.
pub fn moonshine_model_id(m: MoonshineModel) -> (s: &'static str)
    ensures
        s@ == moonshine_id_spec(m),
{
    match m {
        MoonshineModel::Tiny => "tiny",
        MoonshineModel::Base => "base",
    }
}

/// Decode a Moonshine model-size identifier.
pub fn parse_moonshine_model(s: &str) -> (r: Option<MoonshineModel>)
    ensures
        r == parse_moonshine_spec(s@),
{
    if str_eq(s, "tiny") {
        Some(MoonshineModel::Tiny)
    } else if str_eq(s, "base") {
        Some(MoonshineModel::Base)
    } else {
        None
    }
}

/// The six language-model identifiers are pairwise distinct.
pub proof fn lemma_llm_ids_distinct()
    ensures
        llm_id_spec(LlmModel::Qwen3_1_7B) != llm_id_spec(LlmModel::Qwen3_4B),
        llm_id_spec(LlmModel::Qwen3_1_7B) != llm_id_spec(LlmModel::SmolLM3_3B),
        llm_id_spec(LlmModel::Qwen3_1_7B) != llm_id_spec(LlmModel::Gemma2_2B),
        llm_id_spec(LlmModel::Qwen3_1_7B) != llm_id_spec(LlmModel::Phi2),
        llm_id_spec(LlmModel::Qwen3_1_7B) != llm_id_spec(LlmModel::Custom),
        llm_id_spec(LlmModel::Qwen3_4B) != llm_id_spec(LlmModel::SmolLM3_3B),
        llm_id_spec(LlmModel::Qwen3_4B) != llm_id_spec(LlmModel::Gemma2_2B),
        llm_id_spec(LlmModel::Qwen3_4B) != llm_id_spec(LlmModel::Phi2),
        llm_id_spec(LlmModel::Qwen3_4B) != llm_id_spec(LlmModel::Custom),
        llm_id_spec(LlmModel::SmolLM3_3B) != llm_id_spec(LlmModel::Gemma2_2B),
        llm_id_spec(LlmModel::SmolLM3_3B) != llm_id_spec(LlmModel::Phi2),
        llm_id_spec(LlmModel::SmolLM3_3B) != llm_id_spec(LlmModel::Custom),
        llm_id_spec(LlmModel::Gemma2_2B) != llm_id_spec(LlmModel::Phi2),
        llm_id_spec(LlmModel::Gemma2_2B) != llm_id_spec(LlmModel::Custom),
        llm_id_spec(LlmModel::Phi2) != llm_id_spec(LlmModel::Custom),
{
    reveal_strlit("qwen3-1.7b");
    reveal_strlit("qwen3-4b");
    reveal_strlit("smollm3-3b");
    reveal_strlit("gemma2-2b");
    reveal_strlit("phi-2");
    reveal_strlit("custom");
    assert("qwen3-1.7b"@.len() == 10);
    assert("qwen3-4b"@.len() == 8);
    assert("smollm3-3b"@.len() == 10);
    assert("gemma2-2b"@.len() == 9);
    assert("phi-2"@.len() == 5);
    assert("custom"@.len() == 6);
    assert("qwen3-1.7b"@[0] == 'q');
    assert("smollm3-3b"@[0] == 's');
}

/// Every selectable language-model value survives an encode/decode round
/// trip: parsing the identifier of `m` gives `m` back.
pub proof fn lemma_llm_round_trip(m: LlmModel)
    requires
        m != LlmModel::Custom,
    ensures
        parse_llm_spec(llm_id_spec(m)) == Some(m),
{
    lemma_llm_ids_distinct();
}

/// Decoding is faithful: any string that decodes to a language-model value
/// is exactly that value's identifier.
pub proof fn lemma_llm_parse_faithful(s: Seq<char>)
    requires
        parse_llm_spec(s) is Some,
    ensures
        llm_id_spec(parse_llm_spec(s)->0) == s,
{
}

/// The speech-engine identifiers are distinct, and every engine value
/// survives an encode/decode round trip.
pub proof fn lemma_stt_round_trip(e: SttEngine)
    ensures
        parse_stt_spec(stt_id_spec(e)) == Some(e),
{
    reveal_strlit("whisper");
    reveal_strlit("moonshine");
    assert("whisper"@.len() == 7);
    assert("moonshine"@.len() == 9);
}

/// Decoding a speech-engine identifier is faithful.
pub proof fn lemma_stt_parse_faithful(s: Seq<char>)
    requires
        parse_stt_spec(s) is Some,
    ensures
        stt_id_spec(parse_stt_spec(s)->0) == s,
{
}

/// Every Moonshine model size survives an encode/decode round trip.
pub proof fn lemma_moonshine_round_trip(m: MoonshineModel)
    ensures
        parse_moonshine_spec(moonshine_id_spec(m)) == Some(m),
{
    reveal_strlit("tiny");
    reveal_strlit("base");
    assert("tiny"@[0] == 't');
    assert("base"@[0] == 'b');
}

/// Decoding a Moonshine model-size identifier is faithful.
pub proof fn lemma_moonshine_parse_faithful(s: Seq<char>)
    requires
        parse_moonshine_spec(s) is Some,
    ensures
        moonshine_id_spec(parse_moonshine_spec(s)->0) == s,
{
}

} // verus!
