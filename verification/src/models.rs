//! The Whisper model catalog: which GGUF models can be downloaded, where from,
//! and under which file name they are stored.
use crate::text::{concat, same_text};
use vstd::prelude::*;
use vstd::string::StringExecFns;

verus! {

broadcast use vstd::string::group_string_axioms;

/// Where the ggml model files are downloaded from.
pub const HF_BASE: &'static str = "https://huggingface.co/ggerganov/whisper.cpp/resolve/main";

/// A model offered for download.
#[derive(Debug, Clone)]
pub struct ModelSpec {
    pub id: String,
    pub name: String,
    pub approx_size_mb: u32,
    pub multilingual: bool,
    pub url: String,
}

/// A catalog entry plus whether it is present on disk.
#[derive(Debug, Clone)]
pub struct ModelInfo {
    pub spec: ModelSpec,
    pub downloaded: bool,
    pub path: String,
}

/// The download URL of a model id: `<HF_BASE>/<id>.bin`.
pub open spec fn model_url(id: Seq<char>) -> Seq<char> {
    HF_BASE@ + "/"@ + id + ".bin"@
}

/// The file a model id is stored under: `<id>.bin`.
pub open spec fn model_file(id: Seq<char>) -> Seq<char> {
    id + ".bin"@
}

/// The catalog, fastest → most accurate: id, display name, approximate size in
/// MB, and whether the model is multilingual.
pub open spec fn catalog_entries() -> Seq<(Seq<char>, Seq<char>, u32, bool)> {
    seq![
        ("ggml-tiny.en-q5_1"@, "Tiny · English (Q5)"@, 32, false),
        ("ggml-base.en-q5_1"@, "Base · English (Q5)"@, 60, false),
        ("ggml-base.en"@, "Base · English"@, 148, false),
        ("ggml-base-q5_1"@, "Base (Q5)"@, 60, true),
        ("ggml-small.en-q5_1"@, "Small · English (Q5)"@, 190, false),
        ("ggml-small-q5_1"@, "Small (Q5)"@, 190, true),
        ("ggml-medium-q5_0"@, "Medium (Q5)"@, 539, true),
        ("ggml-large-v3-turbo-q5_0"@, "Large v3 Turbo (Q5)"@, 574, true),
        ("ggml-large-v3-turbo"@, "Large v3 Turbo"@, 1620, true),
        ("ggml-large-v3-q5_0"@, "Large v3 (Q5)"@, 1081, true),
    ]
}

/// The spec of catalog entry `e`.
pub open spec fn describes(m: ModelSpec, e: (Seq<char>, Seq<char>, u32, bool)) -> bool {
    &&& m.id@ == e.0
    &&& m.name@ == e.1
    &&& m.approx_size_mb == e.2
    &&& m.multilingual == e.3
    &&& m.url@ == model_url(e.0)
}

/// `<id>.bin`, the file name a model is stored under.
pub fn model_file_name(id: &str) -> (s: String)
    ensures
        s@ == model_file(id@),
{
    concat(id, ".bin")
}

fn spec(id: &str, name: &str, size: u32, multilingual: bool) -> (m: ModelSpec)
    ensures
        describes(m, (id@, name@, size, multilingual)),
{
    let mut url = concat(HF_BASE, "/");
    url.append(id);
    url.append(".bin");
    ModelSpec {
        id: String::from_str(id),
        name: String::from_str(name),
        approx_size_mb: size,
        multilingual,
        url,
    }
}

/// The static catalog of downloadable models, fastest → most accurate.
///
/// Quantized (`q5`) tiers are the default recommendation: much smaller than
/// f16 and faster to load and decode on CPU, with only a minor accuracy cost.
pub fn catalog() -> (v: Vec<ModelSpec>)
    ensures
        v.len() == catalog_entries().len(),
        forall|i: int| 0 <= i < v.len() ==> describes(#[trigger] v@[i], catalog_entries()[i]),
{
    let mut v: Vec<ModelSpec> = Vec::new();
    v.push(spec("ggml-tiny.en-q5_1", "Tiny · English (Q5)", 32, false));
    v.push(spec("ggml-base.en-q5_1", "Base · English (Q5)", 60, false));
    v.push(spec("ggml-base.en", "Base · English", 148, false));
    v.push(spec("ggml-base-q5_1", "Base (Q5)", 60, true));
    v.push(spec("ggml-small.en-q5_1", "Small · English (Q5)", 190, false));
    v.push(spec("ggml-small-q5_1", "Small (Q5)", 190, true));
    v.push(spec("ggml-medium-q5_0", "Medium (Q5)", 539, true));
    v.push(spec("ggml-large-v3-turbo-q5_0", "Large v3 Turbo (Q5)", 574, true));
    v.push(spec("ggml-large-v3-turbo", "Large v3 Turbo", 1620, true));
    v.push(spec("ggml-large-v3-q5_0", "Large v3 (Q5)", 1081, true));
    v
}

/// The download URL of a catalog model, or `None` for an id not in the catalog.
pub fn catalog_url(id: &str) -> (r: Option<String>)
    ensures
        r is Some <==> exists|i: int|
            0 <= i < catalog_entries().len() && #[trigger] catalog_entries()[i].0 == id@,
        r matches Some(u) ==> u@ == model_url(id@),
{
    let entries = catalog();
    let mut i: usize = 0;
    while i < entries.len()
        invariant
            i <= entries.len(),
            entries.len() == catalog_entries().len(),
            forall|j: int|
                0 <= j < entries.len() ==> describes(#[trigger] entries@[j], catalog_entries()[j]),
            forall|j: int| 0 <= j < i ==> #[trigger] catalog_entries()[j].0 != id@,
        decreases entries.len() - i,
    {
        if same_text(entries[i].id.as_str(), id) {
            proof {
                assert(describes(entries@[i as int], catalog_entries()[i as int]));
            }
            return Some(entries[i].url.clone());
        }
        proof {
            assert(describes(entries@[i as int], catalog_entries()[i as int]));
        }
        i = i + 1;
    }
    None
}

/// Every catalog entry is a ggml model with a positive size whose URL is a
/// `.bin` file.
pub proof fn law_catalog_is_well_formed()
    ensures
        catalog_entries().len() >= 4,
        forall|i: int|
            0 <= i < catalog_entries().len() ==> {
                let e = #[trigger] catalog_entries()[i];
                &&& e.0.len() >= 5
                &&& e.0.take(5) == "ggml-"@
                &&& e.2 > 0
                &&& model_url(e.0).len() >= 4
                &&& model_url(e.0).skip(model_url(e.0).len() - 4) == ".bin"@
            },
{
    reveal_strlit("ggml-");
    reveal_strlit(".bin");
    reveal_strlit("ggml-tiny.en-q5_1");
    reveal_strlit("ggml-base.en-q5_1");
    reveal_strlit("ggml-base.en");
    reveal_strlit("ggml-base-q5_1");
    reveal_strlit("ggml-small.en-q5_1");
    reveal_strlit("ggml-small-q5_1");
    reveal_strlit("ggml-medium-q5_0");
    reveal_strlit("ggml-large-v3-turbo-q5_0");
    reveal_strlit("ggml-large-v3-turbo");
    reveal_strlit("ggml-large-v3-q5_0");
    assert forall|i: int| 0 <= i < catalog_entries().len() implies {
        let e = #[trigger] catalog_entries()[i];
        &&& e.0.len() >= 5
        &&& e.0.take(5) == "ggml-"@
        &&& e.2 > 0
        &&& model_url(e.0).len() >= 4
        &&& model_url(e.0).skip(model_url(e.0).len() - 4) == ".bin"@
    } by {
        let e = catalog_entries()[i];
        assert(e.0.take(5) =~= "ggml-"@);
        let u = model_url(e.0);
        assert(u.skip(u.len() - 4) =~= ".bin"@);
    }
}

} // verus!
