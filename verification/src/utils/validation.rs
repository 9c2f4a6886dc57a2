//! In-place variants: a path resolution that checks the extension only for a
//! bare file name, and a URL resolution that rewrites the URL it is given.
use vstd::prelude::*;
use crate::paths::{
    extension_of_file_name, file_name, parent, opt_extension_of_name, opt_view, path_file_name_of,
    path_parent_of,
};
use crate::utils::path_utils::{
    is_audio, is_video, media_dir_var_of, parent_dir_of, relocation, MediaError, ParentDir,
    ParentDirModel, Resolution, ResolutionModel, MediaErrorModel, result_view, AUDIO_VAR, VIDEO_VAR,
};
use crate::utils::url_validation::{is_youtube_url, is_youtube_url_text, search_query, search_query_text};

verus! {

/// The environment variable of the media directory for `extension`: `VIDEOS`
/// for mp4, flv, mkv and avi, `MUSIC` for mp3, aac and m4a, and
/// `UnsupportedFormat` for anything else.
pub fn get_media_dir_from_ext(extension: &str) -> (r: Result<&'static str, MediaError>)
    ensures
        match r {
            Ok(v) => media_dir_var_of(extension@) == Ok::<Seq<char>, MediaErrorModel>(v@),
            Err(err) => media_dir_var_of(extension@) == Err::<Seq<char>, MediaErrorModel>(err@),
        },
{
    let media_var = if is_video(extension) {
        VIDEO_VAR
    } else if is_audio(extension) {
        AUDIO_VAR
    } else {
        return Err(MediaError::UnsupportedFormat(String::from_str(extension)));
    };
    Ok(media_var)
}

/// How [`resolve_filepath`] resolves a path with parent `parent` and file
/// name `name`: a path without parent stays; a path with a non-empty parent
/// moves into that parent; a bare file name needs a supported extension and
/// moves into the media directory of its kind.
pub open spec fn filepath_resolution_of_parts(parent: Option<Seq<char>>, name: Option<Seq<char>>) -> Result<
    ResolutionModel,
    MediaErrorModel,
> {
    match parent {
        None => Ok(ResolutionModel::Unchanged),
        Some(p) => if p.len() == 0 {
            match opt_extension_of_name(name) {
                None => Err(MediaErrorModel::InvalidFilename),
                Some(ext) => relocation(name, parent_dir_of(p, ext)),
            }
        } else {
            relocation(name, Ok(ParentDirModel::Given(p)))
        },
    }
}

/// How [`resolve_filepath`] resolves the path with this text.
pub open spec fn filepath_resolution(path: Seq<char>) -> Result<ResolutionModel, MediaErrorModel> {
    filepath_resolution_of_parts(path_parent_of(path), path_file_name_of(path))
}

/// How a path with parent directory `parent` and file name `file_name` is to
/// be resolved in place: a path without parent stays; a bare file name needs
/// an extension (else `InvalidFilename`) of a supported kind (else
/// `UnsupportedFormat`) and moves into that kind's media directory; any other
/// path moves into the canonical form of its parent.
pub fn resolve_filepath_parts(parent: Option<String>, file_name: Option<String>) -> (r: Result<
    Resolution,
    MediaError,
>)
    ensures
        result_view(r) == filepath_resolution_of_parts(opt_view(parent), opt_view(file_name)),
{
    let parent_dir = match parent {
        Some(p) => p,
        None => return Ok(Resolution::Unchanged),
    };
    let parent = if parent_dir.unicode_len() == 0 {
        let ext = match extension_of_file_name(&file_name) {
            Some(e) => e,
            None => return Err(MediaError::InvalidFilename),
        };
        match get_media_dir_from_ext(ext.as_str()) {
            Ok(var) => ParentDir::MediaDir(String::from_str(var)),
            Err(e) => return Err(e),
        }
    } else {
        ParentDir::Given(parent_dir)
    };
    Ok(Resolution::Relocate { parent, file_name })
}

/// How `filepath` is to be resolved in place (see
/// [`resolve_filepath_parts`]).
pub fn resolve_filepath(filepath: &String) -> (r: Result<Resolution, MediaError>)
    ensures
        result_view(r) == filepath_resolution(filepath@),
{
    resolve_filepath_parts(parent(filepath.as_str()), file_name(filepath.as_str()))
}

/// The URL after [`resolve_url`]: kept when it is a YouTube URL or the user
/// declined the search, and otherwise replaced by the search target.
pub open spec fn resolved_url_text(url: Seq<char>, search_confirmed: bool) -> Seq<char> {
    if is_youtube_url_text(url) || !search_confirmed {
        url
    } else {
        search_query_text(url)
    }
}

/// Resolves `url` in place. A YouTube URL is left as it is; any other URL
/// becomes `ytsearch:<url>` when `search_confirmed`, the user's answer to
/// the question whether to search for it, is yes.
pub fn resolve_url(url: &mut String, search_confirmed: bool)
    ensures
        final(url)@ == resolved_url_text(old(url)@, search_confirmed),
{
    if is_youtube_url(url.as_str()) {
        return;
    }
    if search_confirmed {
        *url = search_query(url.as_str());
    }
}

} // verus!
