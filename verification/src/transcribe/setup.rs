//! Where the whisper model lives and where it is downloaded from.
use crate::config::model_name;
use crate::config::ModelSize;
use crate::text::chars_of;
use crate::text::push_char;
use crate::text::push_str;
use vstd::prelude::*;

verus! {

broadcast use vstd::string::group_string_axioms;

/// A path extended by a relative component, as `Path::join` does on Unix: a
/// separator is put between them unless the path is empty or already ends in
/// one; an absolute component replaces the path.
pub open spec fn path_join(base: Seq<char>, comp: Seq<char>) -> Seq<char> {
    if comp.len() > 0 && comp[0] == '/' {
        comp
    } else if base.len() == 0 || base.last() == '/' {
        base + comp
    } else {
        base + seq!['/'] + comp
    }
}

/// The file name of a model: `ggml-{model}.bin`.
pub open spec fn model_file_name(m: ModelSize) -> Seq<char> {
    "ggml-"@ + model_name(m) + ".bin"@
}

/// Where the model file is stored: `models/ggml-{model}.bin` in the data
/// directory.
pub open spec fn model_path(data_dir: Seq<char>, m: ModelSize) -> Seq<char> {
    path_join(path_join(data_dir, "models"@), model_file_name(m))
}

/// The address a model file is downloaded from.
pub open spec fn model_url(m: ModelSize) -> Seq<char> {
    "https://huggingface.co/ggerganov/whisper.cpp/resolve/main/"@ + model_file_name(m)
}

/// Joins a path and a relative or absolute component.
pub fn join_path(base: &str, comp: &str) -> (r: String)
    ensures
        r@ == path_join(base@, comp@),
{
    let b = chars_of(base);
    let c = chars_of(comp);
    if c.len() > 0 && c[0] == '/' {
        return comp.to_owned();
    }
    let mut r = base.to_owned();
    if !(b.len() == 0 || b[b.len() - 1] == '/') {
        push_char(&mut r, '/');
    }
    push_str(&mut r, comp);
    r
}

/// The model's file name: `ggml-{model}.bin`.
pub fn get_model_file_name(model_size: &ModelSize) -> (r: String)
    ensures
        r@ == model_file_name(*model_size),
{
    let mut r = String::new();
    push_str(&mut r, "ggml-");
    push_str(&mut r, model_size.name());
    push_str(&mut r, ".bin");
    r
}

/// Returns the filesystem path where the whisper model file should be stored.
///
/// Models are stored as `ggml-{model_size}.bin` inside the `models/`
/// subdirectory of the application data directory.
pub fn get_model_path(data_dir: &str, model_size: &ModelSize) -> (r: String)
    ensures
        r@ == model_path(data_dir@, *model_size),
{
    let models = join_path(data_dir, "models");
    let name = get_model_file_name(model_size);
    join_path(models.as_str(), name.as_str())
}

/// The address from which the model file is downloaded.
pub fn get_model_url(model_size: &ModelSize) -> (r: String)
    ensures
        r@ == model_url(*model_size),
{
    let mut r = String::new();
    push_str(&mut r, "https://huggingface.co/ggerganov/whisper.cpp/resolve/main/");
    let name = get_model_file_name(model_size);
    push_str(&mut r, name.as_str());
    r
}

/// The temporary file a download is written to before it is renamed into
/// place: the model file name followed by `.tmp`.
pub fn get_model_tmp_path(data_dir: &str, model_size: &ModelSize) -> (r: String)
    ensures
        r@ == path_join(path_join(data_dir@, "models"@), model_file_name(*model_size) + ".tmp"@),
{
    let models = join_path(data_dir, "models");
    let mut name = get_model_file_name(model_size);
    push_str(&mut name, ".tmp");
    join_path(models.as_str(), name.as_str())
}

/// Whether the whisper model is ready: its file (at `get_model_path`)
/// exists and is larger than 1 MB; `model_file_len` is that file's length,
/// `None` when there is no such file.
pub fn is_whisper_ready(model_file_len: Option<u64>) -> (b: bool)
    ensures
        b == (model_file_len is Some && model_file_len.unwrap() > 1_000_000),
{
    crate::transcribe::engine::is_model_valid(model_file_len)
}

/// The error for a downloaded model file that is not valid.
pub fn invalid_download_message(path: &str) -> (s: String)
    ensures
        s@ == "Downloaded model file is invalid or too small (< 1MB): "@ + path@,
{
    let mut s = "Downloaded model file is invalid or too small (< 1MB): ".to_owned();
    push_str(&mut s, path);
    s
}

} // verus!
