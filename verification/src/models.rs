//! Descriptions of downloadable models and where they are kept under the
//! data directory.

use vstd::prelude::*;
use crate::paths::{join, join_path};
use crate::text::str_eq;

verus! {

/// The kinds of model the library manages.
#[derive(Debug, Clone, Copy, PartialEq, Eq, Structural)]
pub enum ModelType {
    Sharp,
}

/// Where a model is published.
#[derive(Debug, Clone)]
pub enum ModelProvider {
    GitHub { owner: String, repo: String },
    Direct { url: String },
}

/// A model or component that can be downloaded, with its download status.
#[derive(Debug, Clone)]
pub struct ModelInfo {
    pub id: String,
    pub name: String,
    pub model_type: ModelType,
    pub size_bytes: u64,
    pub provider: ModelProvider,
    pub filename: String,
    pub downloaded: bool,
    pub description: Option<String>,
}

/// A Whisper speech model as published: `name` is the size name it is known
/// by (`base`, `small`, ...), `id` the model identifier used for downloads.
#[derive(Debug, Clone)]
pub struct WhisperModel {
    pub name: String,
    pub id: String,
    pub display_name: String,
    pub filename: String,
    pub download_url: String,
    pub size_bytes: u64,
}

/// The first model in `catalog` known by `name`.
pub open spec fn whisper_lookup(catalog: Seq<WhisperModel>, name: Seq<char>) -> Option<WhisperModel>
    decreases catalog.len(),
{
    if catalog.len() == 0 {
        None
    } else if catalog[0].name@ == name {
        Some(catalog[0])
    } else {
        whisper_lookup(catalog.drop_first(), name)
    }
}

/// Finds the first model in `catalog` known by `name`.
pub fn find_whisper_model<'a>(catalog: &'a Vec<WhisperModel>, name: &str) -> (r: Option<&'a WhisperModel>)
    ensures
        match r {
            Some(m) => whisper_lookup(catalog@, name@) == Some(*m),
            None => whisper_lookup(catalog@, name@) is None,
        },
{
    let mut i: usize = 0;
    assert(catalog@.skip(0) =~= catalog@);
    while i < catalog.len()
        invariant
            i <= catalog@.len(),
            whisper_lookup(catalog@.skip(i as int), name@) == whisper_lookup(catalog@, name@),
        decreases catalog@.len() - i,
    {
        assert(catalog@.skip(i as int).drop_first() =~= catalog@.skip(i + 1));
        if str_eq(catalog[i].name.as_str(), name) {
            return Some(&catalog[i]);
        }
        i = i + 1;
    }
    None
}

/// The directory that holds the SHARP components.
pub open spec fn sharp_dir_of(data_dir: Seq<char>) -> Seq<char> {
    join(join(data_dir, "models"@), "sharp"@)
}

/// The directory that holds the Whisper models.
pub open spec fn whisper_dir_of(data_dir: Seq<char>) -> Seq<char> {
    join(join(data_dir, "models"@), "whisper"@)
}

/// The SHARP components are kept in `models/sharp` and the Whisper models
/// in `models/whisper` under the data directory, joined with `/`.
pub proof fn law_model_dirs(data_dir: Seq<char>)
    ensures
        data_dir.len() == 0 ==> sharp_dir_of(data_dir) == "models/sharp"@ && whisper_dir_of(data_dir)
            == "models/whisper"@,
        data_dir.len() > 0 && data_dir.last() == '/' ==> sharp_dir_of(data_dir) == data_dir
            + "models/sharp"@ && whisper_dir_of(data_dir) == data_dir + "models/whisper"@,
        data_dir.len() > 0 && data_dir.last() != '/' ==> sharp_dir_of(data_dir) == data_dir
            + "/models/sharp"@ && whisper_dir_of(data_dir) == data_dir + "/models/whisper"@,
{
    reveal_strlit("models");
    reveal_strlit("sharp");
    reveal_strlit("whisper");
    reveal_strlit("models/sharp");
    reveal_strlit("models/whisper");
    reveal_strlit("/models/sharp");
    reveal_strlit("/models/whisper");
    let m = join(data_dir, "models"@);
    assert(m.len() > 0 && m.last() == 's');
    if data_dir.len() == 0 {
        assert(join(m, "sharp"@) =~= "models/sharp"@);
        assert(join(m, "whisper"@) =~= "models/whisper"@);
    } else if data_dir.last() == '/' {
        assert(join(m, "sharp"@) =~= data_dir + "models/sharp"@);
        assert(join(m, "whisper"@) =~= data_dir + "models/whisper"@);
    } else {
        assert(join(m, "sharp"@) =~= data_dir + "/models/sharp"@);
        assert(join(m, "whisper"@) =~= data_dir + "/models/whisper"@);
    }
}

/// The directory that holds the SHARP components.
pub fn get_sharp_dir(data_dir: &str) -> (r: String)
    ensures
        r@ == sharp_dir_of(data_dir@),
{
    let models = join_path(data_dir, "models");
    join_path(models.as_str(), "sharp")
}

/// The directory that holds the Whisper models.
pub fn get_whisper_models_dir(data_dir: &str) -> (r: String)
    ensures
        r@ == whisper_dir_of(data_dir@),
{
    let models = join_path(data_dir, "models");
    join_path(models.as_str(), "whisper")
}

} // verus!
