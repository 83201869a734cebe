//! The configuration snapshot and its get/set contract. A snapshot is
//! loaded by the edge at the start of every get/set call, read or mutated
//! here, and persisted by the edge before the call returns; no long-lived
//! configuration object exists at the boundary.

use crate::codec::{
    lemma_llm_parse_faithful, lemma_moonshine_parse_faithful, lemma_stt_parse_faithful,
    llm_id_spec, llm_model_id, moonshine_id_spec, moonshine_model_id, parse_llm_model,
    parse_llm_spec, parse_moonshine_model, parse_moonshine_spec, parse_stt_engine,
    parse_stt_spec, stt_engine_id, stt_id_spec, LlmModel, MoonshineModel, SttEngine,
};
use vstd::prelude::*;

verus! {

/// In-memory configuration snapshot: the three selector values the
/// boundary exposes.
#[derive(Clone, Copy, PartialEq, Eq, Structural, Debug)]
pub struct Config {
    pub llm_model: LlmModel,
    pub stt_engine: SttEngine,
    pub moonshine_model: MoonshineModel,
}

impl Default for Config {
    /// The configuration used when no configuration file exists on disk.
    fn default() -> (c: Config)
        ensures
            c.llm_model == LlmModel::Qwen3_4B,
            c.stt_engine == SttEngine::Whisper,
            c.moonshine_model == MoonshineModel::Base,
    {
        Config {
            llm_model: LlmModel::Qwen3_4B,
            stt_engine: SttEngine::Whisper,
            moonshine_model: MoonshineModel::Base,
        }
    }
}

/// The stable identifier of the snapshot's current language model.
pub fn current_model_id(c: &Config) -> (s: &'static str)
    ensures
        s@ == llm_id_spec(c.llm_model),
{
    llm_model_id(c.llm_model)
}

/// The stable identifier of the snapshot's current speech engine.
pub fn current_stt_engine_id(c: &Config) -> (s: &'static str)
    ensures
        s@ == stt_id_spec(c.stt_engine),
{
    stt_engine_id(c.stt_engine)
}

/// The stable identifier of the snapshot's current Moonshine model size.
pub fn current_moonshine_model_id(c: &Config) -> (s: &'static str)
    ensures
        s@ == moonshine_id_spec(c.moonshine_model),
{
    moonshine_model_id(c.moonshine_model)
}

/// Assign the language model named by `id` into the snapshot. An
/// unrecognized identifier mutates nothing and reports failure; a
/// recognized one changes exactly the language-model field.
pub fn set_model(c: &mut Config, id: &str) -> (ok: bool)
    ensures
        ok == (parse_llm_spec(id@) is Some),
        ok ==> final(c).llm_model == parse_llm_spec(id@)->0,
        !ok ==> *final(c) == *old(c),
        final(c).stt_engine == old(c).stt_engine,
        final(c).moonshine_model == old(c).moonshine_model,
{
    match parse_llm_model(id) {
        Some(m) => {
            c.llm_model = m;
            true
        },
        None => false,
    }
}

/// Assign the speech engine named by `id` into the snapshot; unrecognized
/// identifiers mutate nothing.
pub fn set_stt_engine(c: &mut Config, id: &str) -> (ok: bool)
    ensures
        ok == (parse_stt_spec(id@) is Some),
        ok ==> final(c).stt_engine == parse_stt_spec(id@)->0,
        !ok ==> *final(c) == *old(c),
        final(c).llm_model == old(c).llm_model,
        final(c).moonshine_model == old(c).moonshine_model,
{
    match parse_stt_engine(id) {
        Some(e) => {
            c.stt_engine = e;
            true
        },
        None => false,
    }
}

/// Assign the Moonshine model size named by `id` into the snapshot;
/// unrecognized identifiers mutate nothing.
pub fn set_moonshine_model(c: &mut Config, id: &str) -> (ok: bool)
    ensures
        ok == (parse_moonshine_spec(id@) is Some),
        ok ==> final(c).moonshine_model == parse_moonshine_spec(id@)->0,
        !ok ==> *final(c) == *old(c),
        final(c).llm_model == old(c).llm_model,
        final(c).stt_engine == old(c).stt_engine,
{
    match parse_moonshine_model(id) {
        Some(m) => {
            c.moonshine_model = m;
            true
        },
        None => false,
    }
}

/// The persisted text of a snapshot: the three identifiers, one per
/// line, in a fixed order.
pub fn render_config(c: &Config) -> (s: String)
    ensures
        s@ == llm_id_spec(c.llm_model) + "\n"@ + stt_id_spec(c.stt_engine) + "\n"@
            + moonshine_id_spec(c.moonshine_model) + "\n"@,
{
    let mut s = llm_model_id(c.llm_model).to_owned();
    s.append("\n");
    s.append(stt_engine_id(c.stt_engine));
    s.append("\n");
    s.append(moonshine_model_id(c.moonshine_model));
    s.append("\n");
    s
}

/// Rebuild a snapshot from its three persisted identifiers. The snapshot
/// exists exactly when all three decode; one bad field spoils the store.
pub fn parse_config_fields(llm: &str, stt: &str, moonshine: &str) -> (r: Option<Config>)
    ensures
        r is Some <==> (parse_llm_spec(llm@) is Some && parse_stt_spec(stt@) is Some
            && parse_moonshine_spec(moonshine@) is Some),
        r matches Some(c) ==> {
            &&& c.llm_model == parse_llm_spec(llm@)->0
            &&& c.stt_engine == parse_stt_spec(stt@)->0
            &&& c.moonshine_model == parse_moonshine_spec(moonshine@)->0
        },
{
    match (parse_llm_model(llm), parse_stt_engine(stt), parse_moonshine_model(moonshine)) {
        (Some(llm_model), Some(stt_engine), Some(moonshine_model)) => Some(
            Config { llm_model, stt_engine, moonshine_model },
        ),
        _ => None,
    }
}

/// Persistence round trip: rebuilding a snapshot from the identifiers it
/// persists restores every field. The custom language model is the one
/// value without this property, since its identifier is deliberately not
/// selectable.
pub proof fn lemma_config_round_trip(c: Config)
    requires
        c.llm_model != LlmModel::Custom,
    ensures
        parse_llm_spec(llm_id_spec(c.llm_model)) == Some(c.llm_model),
        parse_stt_spec(stt_id_spec(c.stt_engine)) == Some(c.stt_engine),
        parse_moonshine_spec(moonshine_id_spec(c.moonshine_model)) == Some(c.moonshine_model),
{
    crate::codec::lemma_llm_round_trip(c.llm_model);
    crate::codec::lemma_stt_round_trip(c.stt_engine);
    crate::codec::lemma_moonshine_round_trip(c.moonshine_model);
}

/// Set/get round trip for the language model: after a successful set of a
/// recognized identifier, the current identifier is exactly the one set;
/// after a failed set, every field is unchanged.
pub proof fn lemma_set_model_round_trip(before: Config, after: Config, id: Seq<char>)
    requires
        parse_llm_spec(id) is Some ==> after == (Config { llm_model: parse_llm_spec(id)->0, ..before }),
        parse_llm_spec(id) is None ==> after == before,
    ensures
        parse_llm_spec(id) is Some ==> llm_id_spec(after.llm_model) == id,
        parse_llm_spec(id) is None ==> llm_id_spec(after.llm_model) == llm_id_spec(
            before.llm_model,
        ),
{
    if parse_llm_spec(id) is Some {
        lemma_llm_parse_faithful(id);
    }
}

/// Set/get round trip for the speech engine.
pub proof fn lemma_set_stt_round_trip(before: Config, after: Config, id: Seq<char>)
    requires
        parse_stt_spec(id) is Some ==> after == (Config { stt_engine: parse_stt_spec(id)->0, ..before }),
        parse_stt_spec(id) is None ==> after == before,
    ensures
        parse_stt_spec(id) is Some ==> stt_id_spec(after.stt_engine) == id,
        parse_stt_spec(id) is None ==> stt_id_spec(after.stt_engine) == stt_id_spec(
            before.stt_engine,
        ),
{
    if parse_stt_spec(id) is Some {
        lemma_stt_parse_faithful(id);
    }
}

/// Set/get round trip for the Moonshine model size.
pub proof fn lemma_set_moonshine_round_trip(before: Config, after: Config, id: Seq<char>)
    requires
        parse_moonshine_spec(id) is Some ==> after == (Config {
            moonshine_model: parse_moonshine_spec(id)->0,
            ..before
        }),
        parse_moonshine_spec(id) is None ==> after == before,
    ensures
        parse_moonshine_spec(id) is Some ==> moonshine_id_spec(after.moonshine_model) == id,
        parse_moonshine_spec(id) is None ==> moonshine_id_spec(after.moonshine_model)
            == moonshine_id_spec(before.moonshine_model),
{
    if parse_moonshine_spec(id) is Some {
        lemma_moonshine_parse_faithful(id);
    }
}

} // verus!
