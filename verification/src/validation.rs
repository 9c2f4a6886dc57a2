//! A path resolution that checks the extension before anything else.
use vstd::prelude::*;
use crate::paths::{
    extension_of_file_name, file_name, opt_extension_of_name, opt_view, parent, path_file_name_of,
    path_parent_of,
};
use crate::utils::path_utils::{
    is_audio, is_video, media_dir_var_of, relocation, MediaError, MediaErrorModel, ParentDir,
    ParentDirModel, Resolution, ResolutionModel, result_view, AUDIO_VAR, VIDEO_VAR,
};

verus! {

/// How [`resolve_filename`] resolves a path with parent `parent` and file
/// name `name`: the file name needs an extension and of a supported kind;
/// then a path without parent stays, a bare file name moves into the media
/// directory of its kind, and any other path into its parent.
pub open spec fn filename_resolution_of_parts(parent: Option<Seq<char>>, name: Option<Seq<char>>) -> Result<
    ResolutionModel,
    MediaErrorModel,
> {
    match opt_extension_of_name(name) {
        None => Err(MediaErrorModel::InvalidFilename),
        Some(ext) => match media_dir_var_of(ext) {
            Err(e) => Err(e),
            Ok(var) => match parent {
                None => Ok(ResolutionModel::Unchanged),
                Some(p) => if p.len() == 0 {
                    relocation(name, Ok(ParentDirModel::MediaDir(var)))
                } else {
                    relocation(name, Ok(ParentDirModel::Given(p)))
                },
            },
        },
    }
}

/// How [`resolve_filename`] resolves the path with this text.
pub open spec fn filename_resolution(path: Seq<char>) -> Result<ResolutionModel, MediaErrorModel> {
    filename_resolution_of_parts(path_parent_of(path), path_file_name_of(path))
}

/// How a path with parent directory `parent` and file name `file_name` is to
/// be resolved in place: the file name needs an extension (else
/// `InvalidFilename`) of a supported kind (else `UnsupportedFormat`); a path
/// without parent then stays, a bare file name moves into the media directory
/// of its kind, and any other path into the canonical form of its parent.
pub fn resolve_filename_parts(parent: Option<String>, file_name: Option<String>) -> (r: Result<
    Resolution,
    MediaError,
>)
    ensures
        result_view(r) == filename_resolution_of_parts(opt_view(parent), opt_view(file_name)),
{
    let ext = match extension_of_file_name(&file_name) {
        Some(e) => e,
        None => return Err(MediaError::InvalidFilename),
    };
    let dir_env_var = if is_video(ext.as_str()) {
        VIDEO_VAR
    } else if is_audio(ext.as_str()) {
        AUDIO_VAR
    } else {
        return Err(MediaError::UnsupportedFormat(ext));
    };
    let parent_dir = match parent {
        Some(p) => p,
        None => return Ok(Resolution::Unchanged),
    };
    let parent = if parent_dir.unicode_len() == 0 {
        ParentDir::MediaDir(String::from_str(dir_env_var))
    } else {
        ParentDir::Given(parent_dir)
    };
    Ok(Resolution::Relocate { parent, file_name })
}

/// How `filename` is to be resolved in place (see
/// [`resolve_filename_parts`]).
pub fn resolve_filename(filename: &String) -> (r: Result<Resolution, MediaError>)
    ensures
        result_view(r) == filename_resolution(filename@),
{
    resolve_filename_parts(parent(filename.as_str()), file_name(filename.as_str()))
}

} // verus!
