//! Gaussian splat generation with the SHARP executable: which images it
//! accepts, the command that runs it, and where its output lands.

use vstd::prelude::*;
use crate::paths::{
    file_stem, file_stem_of, is_plain_name, join, join_path, law_stem_and_extension_of_dotted_name,
};
use crate::text::has_prefix;
use crate::sharp::{SharpManager, SharpModel};
use crate::text::{concat_str, str_eq};

verus! {

/// The image types SHARP reads.
pub open spec fn supported_mime(mime_type: Seq<char>) -> bool {
    ||| mime_type == "image/jpeg"@
    ||| mime_type == "image/png"@
    ||| mime_type == "image/webp"@
    ||| mime_type == "image/bmp"@
    ||| mime_type == "image/tiff"@
}

/// Whether an image of this MIME type can be turned into a splat.
pub fn is_splat_supported(mime_type: &str) -> (r: bool)
    ensures
        r == supported_mime(mime_type@),
{
    str_eq(mime_type, "image/jpeg") || str_eq(mime_type, "image/png") || str_eq(mime_type, "image/webp")
        || str_eq(mime_type, "image/bmp") || str_eq(mime_type, "image/tiff")
}

/// Splats are made of exactly five image types, JPEG, PNG, WebP, BMP and
/// TIFF, named by their MIME types; every supported type is an image type,
/// and any other string, such as `image/svg+xml` or `image/gif`, is not
/// supported.
pub proof fn law_supported_image_types(mime_type: Seq<char>)
    ensures
        supported_mime(mime_type) <==> (mime_type == "image/jpeg"@ || mime_type == "image/png"@
            || mime_type == "image/webp"@ || mime_type == "image/bmp"@ || mime_type == "image/tiff"@),
        supported_mime(mime_type) ==> has_prefix(mime_type, "image/"@),
        !supported_mime("image/svg+xml"@),
        !supported_mime("image/gif"@),
{
    reveal_strlit("image/jpeg");
    reveal_strlit("image/png");
    reveal_strlit("image/webp");
    reveal_strlit("image/bmp");
    reveal_strlit("image/tiff");
    reveal_strlit("image/");
    reveal_strlit("image/svg+xml");
    reveal_strlit("image/gif");
    if supported_mime(mime_type) {
        assert(mime_type.subrange(0, 6) =~= "image/"@);
    }
    assert("image/svg+xml"@.len() != "image/jpeg"@.len());
    assert("image/svg+xml"@.len() != "image/png"@.len());
    assert("image/svg+xml"@.len() != "image/webp"@.len());
    assert("image/svg+xml"@.len() != "image/bmp"@.len());
    assert("image/svg+xml"@.len() != "image/tiff"@.len());
    assert("image/gif"@[6] != "image/bmp"@[6]);
    assert("image/gif"@[6] != "image/png"@[6]);
    assert("image/gif"@.len() != "image/jpeg"@.len());
    assert("image/gif"@.len() != "image/webp"@.len());
    assert("image/gif"@.len() != "image/tiff"@.len());
}

/// Why a splat cannot be generated.
#[derive(Debug, Clone, Copy, PartialEq, Eq, Structural)]
pub enum SplatError {
    /// The executable or the model weights have not been downloaded.
    NotAvailable,
    /// No executable is published for this platform.
    ExecutableNotFound,
    /// The source path names no file.
    InvalidSourceFilename,
}

impl SplatError {
    pub open spec fn message_spec(self) -> Seq<char> {
        match self {
            SplatError::NotAvailable => "SHARP not available. Please download SHARP executable and model from Settings > Models"@,
            SplatError::ExecutableNotFound => "SHARP executable not found"@,
            SplatError::InvalidSourceFilename => "Invalid source filename"@,
        }
    }

    /// The message the error is reported with.
    pub fn message(&self) -> (r: &'static str)
        ensures
            r@ == self.message_spec(),
    {
        match self {
            SplatError::NotAvailable => "SHARP not available. Please download SHARP executable and model from Settings > Models",
            SplatError::ExecutableNotFound => "SHARP executable not found",
            SplatError::InvalidSourceFilename => "Invalid source filename",
        }
    }
}

/// A program to run and its arguments.
pub struct SplatCommand {
    pub program: String,
    pub args: Vec<String>,
}

/// The views of a list of strings.
pub open spec fn views(v: Seq<String>) -> Seq<Seq<char>> {
    v.map_values(|s: String| s@)
}

/// The arguments SHARP is run with.
pub open spec fn splat_args(source: Seq<char>, output_dir: Seq<char>, model: Seq<char>) -> Seq<Seq<char>> {
    seq!["predict"@, "-i"@, source, "-o"@, output_dir, "-c"@, model]
}

/// The command that makes a splat of `source_path` in `output_dir`, given
/// whether the executable and the model weights are downloaded.
pub fn plan_splat(
    manager: &SharpManager,
    executable_downloaded: bool,
    model_downloaded: bool,
    source_path: &str,
    output_dir: &str,
) -> (r: Result<SplatCommand, SplatError>)
    ensures
        !(executable_downloaded && model_downloaded) ==> r == Err::<SplatCommand, _>(SplatError::NotAvailable),
        executable_downloaded && model_downloaded ==> match manager.target() {
            None => r == Err::<SplatCommand, _>(SplatError::ExecutableNotFound),
            Some(p) => r matches Ok(cmd) && cmd.program@ == join(manager.dir(), p.filename_spec())
                && views(cmd.args@) == splat_args(source_path@, output_dir@, join(manager.dir(), SharpModel::FILENAME@)),
        },
{
    if !(executable_downloaded && model_downloaded) {
        return Err(SplatError::NotAvailable);
    }
    let program = match manager.get_executable_path() {
        Some(p) => p,
        None => return Err(SplatError::ExecutableNotFound),
    };
    let model_path = manager.get_model_path();
    let mut args: Vec<String> = Vec::new();
    args.push(String::from_str("predict"));
    args.push(String::from_str("-i"));
    args.push(String::from_str(source_path));
    args.push(String::from_str("-o"));
    args.push(String::from_str(output_dir));
    args.push(String::from_str("-c"));
    args.push(model_path);
    assert(views(args@) =~= splat_args(source_path@, output_dir@, join(manager.dir(), SharpModel::FILENAME@)));
    Ok(SplatCommand { program, args })
}

/// Where SHARP writes the splat of a source image, if the source names a
/// file: the file named by the source's stem with the extension `ply`, in
/// the output directory.
pub open spec fn splat_output(source_path: Seq<char>, output_dir: Seq<char>) -> Option<Seq<char>> {
    match file_stem(source_path) {
        Some(stem) => Some(join(output_dir, stem + ".ply"@)),
        None => None,
    }
}

/// The splat of an image file named by a stem, a dot and an extension
/// without dots is written in the output directory, under the stem followed by `.ply`, whatever the extension is.
pub proof fn law_splat_output_of_image_file(
    source_dir: Seq<char>,
    stem: Seq<char>,
    ext: Seq<char>,
    output_dir: Seq<char>,
)
    requires
        stem.len() > 0,
        is_plain_name(stem + seq!['.'] + ext),
        forall|k: int| 0 <= k < ext.len() ==> ext[k] != '.',
    ensures
        splat_output(join(source_dir, stem + seq!['.'] + ext), output_dir) == Some(
            join(output_dir, stem + ".ply"@),
        ),
{
    law_stem_and_extension_of_dotted_name(source_dir, stem, ext);
}

/// Where SHARP writes the splat of `source_path`: the file named by the
/// source's stem with the extension `ply`, in `output_dir`.
pub fn splat_output_path(source_path: &str, output_dir: &str) -> (r: Result<String, SplatError>)
    ensures
        match splat_output(source_path@, output_dir@) {
            Some(out) => r matches Ok(p) && p@ == out,
            None => r == Err::<String, _>(SplatError::InvalidSourceFilename),
        },
        match file_stem(source_path@) {
            Some(stem) => r matches Ok(p) && p@ == join(output_dir@, stem + ".ply"@),
            None => r == Err::<String, _>(SplatError::InvalidSourceFilename),
        },
{
    match file_stem_of(source_path) {
        Some(stem) => {
            let name = concat_str(stem.as_str(), ".ply");
            Ok(join_path(output_dir, name.as_str()))
        },
        None => Err(SplatError::InvalidSourceFilename),
    }
}

} // verus!
