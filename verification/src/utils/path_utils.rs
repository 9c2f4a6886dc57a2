//! Media formats, media files, and the plan by which a bare file name is
//! moved into the media directory of its kind.
use vstd::prelude::*;
use crate::paths::{
    extension, extension_of_file_name, file_name, join, parent, opt_extension_of_name, opt_view,
    path_extension_of, path_file_name_of, path_join_of, path_parent_of,
};
use crate::text::str_eq;

verus! {

/// Environment variable naming the directory for audio files.
pub const AUDIO_VAR: &'static str = "MUSIC";

/// Environment variable naming the directory for video files.
pub const VIDEO_VAR: &'static str = "VIDEOS";

/// The extensions of the supported video formats: mp4, flv, mkv, avi.
pub open spec fn is_video_extension(e: Seq<char>) -> bool {
    e == "mp4"@ || e == "flv"@ || e == "mkv"@ || e == "avi"@
}

/// The extensions of the supported audio formats: mp3, aac, m4a.
pub open spec fn is_audio_extension(e: Seq<char>) -> bool {
    e == "mp3"@ || e == "aac"@ || e == "m4a"@
}

/// Why a media file could not be set up.
#[derive(Debug, PartialEq, Eq)]
pub enum MediaError {
    /// The path has no extension.
    InvalidFilename,
    /// The extension (carried here) is neither a video nor an audio format.
    UnsupportedFormat(String),
}

/// The view of a [`MediaError`].
pub enum MediaErrorModel {
    InvalidFilename,
    UnsupportedFormat(Seq<char>),
}

impl View for MediaError {
    type V = MediaErrorModel;

    open spec fn view(&self) -> MediaErrorModel {
        match self {
            MediaError::InvalidFilename => MediaErrorModel::InvalidFilename,
            MediaError::UnsupportedFormat(e) => MediaErrorModel::UnsupportedFormat(e@),
        }
    }
}

/// The view of a result whose two sides have views.
pub open spec fn result_view<T: View, E: View>(r: Result<T, E>) -> Result<T::V, E::V> {
    match r {
        Ok(t) => Ok(t@),
        Err(e) => Err(e@),
    }
}

/// The environment variable of the media directory for an extension, or the
/// error for an unsupported one.
pub open spec fn media_dir_var_of(e: Seq<char>) -> Result<Seq<char>, MediaErrorModel> {
    if is_video_extension(e) {
        Ok(VIDEO_VAR@)
    } else if is_audio_extension(e) {
        Ok(AUDIO_VAR@)
    } else {
        Err(MediaErrorModel::UnsupportedFormat(e))
    }
}

/// Whether `e` is one of the supported video extensions.
pub fn is_video(e: &str) -> (r: bool)
    ensures
        r == is_video_extension(e@),
{
    str_eq(e, "mp4") || str_eq(e, "flv") || str_eq(e, "mkv") || str_eq(e, "avi")
}

/// Whether `e` is one of the supported audio extensions.
pub fn is_audio(e: &str) -> (r: bool)
    ensures
        r == is_audio_extension(e@),
{
    str_eq(e, "mp3") || str_eq(e, "aac") || str_eq(e, "m4a")
}

/// A media format: the kind of the file, with its extension.
#[derive(Debug, PartialEq, Eq)]
pub enum Format {
    Video(String),
    Audio(String),
}

/// The view of a [`Format`].
pub enum FormatModel {
    Video(Seq<char>),
    Audio(Seq<char>),
}

impl View for Format {
    type V = FormatModel;

    open spec fn view(&self) -> FormatModel {
        match self {
            Format::Video(e) => FormatModel::Video(e@),
            Format::Audio(e) => FormatModel::Audio(e@),
        }
    }
}

/// The format of a file with extension `e`.
pub open spec fn format_of(e: Seq<char>) -> Result<FormatModel, MediaErrorModel> {
    if is_video_extension(e) {
        Ok(FormatModel::Video(e))
    } else if is_audio_extension(e) {
        Ok(FormatModel::Audio(e))
    } else {
        Err(MediaErrorModel::UnsupportedFormat(e))
    }
}

impl Format {
    /// The environment variable of the media directory for `extension`:
    /// `VIDEOS` for a video extension, `MUSIC` for an audio one, and
    /// `UnsupportedFormat` otherwise.
    pub fn get_media_dir_env_var(extension: &str) -> (r: Result<&'static str, MediaError>)
        ensures
            match r {
                Ok(v) => media_dir_var_of(extension@) == Ok::<Seq<char>, MediaErrorModel>(v@),
                Err(err) => media_dir_var_of(extension@) == Err::<Seq<char>, MediaErrorModel>(
                    err@,
                ),
            },
    {
        if is_video(extension) {
            Ok(VIDEO_VAR)
        } else if is_audio(extension) {
            Ok(AUDIO_VAR)
        } else {
            Err(MediaError::UnsupportedFormat(String::from_str(extension)))
        }
    }

    /// The format for `extension`: video if it is mp4, flv, mkv or avi, audio
    /// if it is mp3, aac or m4a; any other extension is an unsupported format.
    pub fn new(extension: &str) -> (r: Result<Format, MediaError>)
        ensures
            result_view(r) == format_of(extension@),
    {
        let env_var = match Format::get_media_dir_env_var(extension) {
            Ok(v) => v,
            Err(e) => return Err(e),
        };
        proof {
            reveal_strlit("MUSIC");
            reveal_strlit("VIDEOS");
            assert(VIDEO_VAR@.len() != AUDIO_VAR@.len());
        }
        let extension = String::from_str(extension);
        if str_eq(env_var, AUDIO_VAR) {
            Ok(Format::Audio(extension))
        } else {
            Ok(Format::Video(extension))
        }
    }
}

/// Where a relocated file's directory comes from.
#[derive(Debug, PartialEq, Eq)]
pub enum ParentDir {
    /// The directory the path already names.
    Given(String),
    /// The directory named by this environment variable, or the current
    /// directory when the variable is not set.
    MediaDir(String),
}

/// The view of a [`ParentDir`].
pub enum ParentDirModel {
    Given(Seq<char>),
    MediaDir(Seq<char>),
}

impl View for ParentDir {
    type V = ParentDirModel;

    open spec fn view(&self) -> ParentDirModel {
        match self {
            ParentDir::Given(d) => ParentDirModel::Given(d@),
            ParentDir::MediaDir(v) => ParentDirModel::MediaDir(v@),
        }
    }
}

/// What becomes of a file path before the download. A relocated file is put
/// in its directory, once that directory is created and made canonical,
/// under its file name (see [`relocated_path`]).
#[derive(Debug, PartialEq, Eq)]
pub enum Resolution {
    /// The path is used as it is.
    Unchanged,
    /// The path moves to the canonical form of `parent`, under `file_name`.
    Relocate { parent: ParentDir, file_name: Option<String> },
}

/// The view of a [`Resolution`].
pub enum ResolutionModel {
    Unchanged,
    Relocate { parent: ParentDirModel, file_name: Option<Seq<char>> },
}

impl View for Resolution {
    type V = ResolutionModel;

    open spec fn view(&self) -> ResolutionModel {
        match self {
            Resolution::Unchanged => ResolutionModel::Unchanged,
            Resolution::Relocate { parent, file_name } => ResolutionModel::Relocate {
                parent: parent@,
                file_name: opt_view(*file_name),
            },
        }
    }
}

/// The directory a path with parent `parent` and extension `ext` moves to: its
/// own parent, or, when the parent is empty (a bare file name), the media
/// directory of the extension's kind.
pub open spec fn parent_dir_of(parent: Seq<char>, ext: Seq<char>) -> Result<
    ParentDirModel,
    MediaErrorModel,
> {
    if parent.len() == 0 {
        match media_dir_var_of(ext) {
            Ok(var) => Ok(ParentDirModel::MediaDir(var)),
            Err(e) => Err(e),
        }
    } else {
        Ok(ParentDirModel::Given(parent))
    }
}

/// The relocation of the file named `name` into the directory `dir`.
pub open spec fn relocation(name: Option<Seq<char>>, dir: Result<ParentDirModel, MediaErrorModel>) -> Result<
    ResolutionModel,
    MediaErrorModel,
> {
    match dir {
        Ok(d) => Ok(ResolutionModel::Relocate { parent: d, file_name: name }),
        Err(e) => Err(e),
    }
}

/// How a path with parent `parent` and file name `name` is resolved by
/// [`MediaFile::get_resolved_filepath`]: a path without parent (a root, or
/// the empty path) stays; otherwise the file name needs an extension, and the
/// file moves into its own parent or, for a bare file name, into the media
/// directory of its kind.
pub open spec fn resolution_of_parts(parent: Option<Seq<char>>, name: Option<Seq<char>>) -> Result<
    ResolutionModel,
    MediaErrorModel,
> {
    match parent {
        None => Ok(ResolutionModel::Unchanged),
        Some(p) => match opt_extension_of_name(name) {
            None => Err(MediaErrorModel::InvalidFilename),
            Some(ext) => relocation(name, parent_dir_of(p, ext)),
        },
    }
}

/// How [`MediaFile::get_resolved_filepath`] resolves the path with this
/// text.
pub open spec fn media_file_resolution(path: Seq<char>) -> Result<ResolutionModel, MediaErrorModel> {
    resolution_of_parts(path_parent_of(path), path_file_name_of(path))
}

/// A downloaded file: where it goes and in which format.
#[derive(Debug, PartialEq, Eq)]
pub struct MediaFile {
    pub filepath: String,
    pub format: Format,
}

/// The view of a [`MediaFile`].
pub struct MediaFileModel {
    pub filepath: Seq<char>,
    pub format: FormatModel,
}

impl View for MediaFile {
    type V = MediaFileModel;

    open spec fn view(&self) -> MediaFileModel {
        MediaFileModel { filepath: self.filepath@, format: self.format@ }
    }
}

/// The media file for the path `path` whose extension is `ext`, placed at
/// `resolved` when the resolution moved it.
pub open spec fn media_file_of(path: Seq<char>, ext: Seq<char>, resolved: Option<Seq<char>>) -> Result<
    MediaFileModel,
    MediaErrorModel,
> {
    match format_of(ext) {
        Ok(f) => Ok(
            MediaFileModel {
                filepath: match resolved {
                    Some(p) => p,
                    None => path,
                },
                format: f,
            },
        ),
        Err(e) => Err(e),
    }
}

/// The path of a relocated file: its file name inside the canonical
/// directory.
pub fn relocated_path(canonical_parent: &str, file_name: &str) -> (r: String)
    ensures
        r@ == path_join_of(canonical_parent@, file_name@),
{
    join(canonical_parent, file_name)
}

impl MediaFile {
    /// The media file for `filepath`, once its resolution
    /// ([`MediaFile::get_resolved_filepath`]) has been carried out:
    /// `resolved_filepath` is where the file was moved, if it was. Its format
    /// comes from the extension of `filepath`, which must have one.
    pub fn new(filepath: &str, resolved_filepath: Option<String>) -> (r: Result<MediaFile, MediaError>)
        requires
            path_extension_of(filepath@) is Some,
        ensures
            result_view(r) == media_file_of(
                filepath@,
                path_extension_of(filepath@)->0,
                opt_view(resolved_filepath),
            ),
    {
        let ext = extension(filepath).unwrap();
        let format = match Format::new(ext.as_str()) {
            Ok(f) => f,
            Err(e) => return Err(e),
        };
        let filepath = match resolved_filepath {
            Some(p) => p,
            None => String::from_str(filepath),
        };
        Ok(MediaFile { filepath, format })
    }

    /// [`MediaFile::new`] where `filepath` has an extension, `None` where it
    /// has none.
    pub fn try_new(filepath: &str, resolved_filepath: Option<String>) -> (r: Option<
        Result<MediaFile, MediaError>,
    >)
        ensures
            r is None <==> path_extension_of(filepath@) is None,
            r matches Some(m) ==> result_view(m) == media_file_of(
                filepath@,
                path_extension_of(filepath@)->0,
                opt_view(resolved_filepath),
            ),
    {
        match extension(filepath) {
            Some(_) => Some(MediaFile::new(filepath, resolved_filepath)),
            None => None,
        }
    }

    /// How a path with parent directory `parent` and file name `file_name`
    /// is to be resolved: a path without parent stays where it is; otherwise
    /// the file name needs an extension (else `InvalidFilename`) and the file
    /// is moved into its parent, or, when the parent is empty, into the media
    /// directory of its kind (else `UnsupportedFormat`).
    pub fn resolve_parts(parent: Option<String>, file_name: Option<String>) -> (r: Result<
        Resolution,
        MediaError,
    >)
        ensures
            result_view(r) == resolution_of_parts(opt_view(parent), opt_view(file_name)),
    {
        let parent_dir = match parent {
            Some(p) => p,
            None => return Ok(Resolution::Unchanged),
        };
        let ext = match extension_of_file_name(&file_name) {
            Some(e) => e,
            None => return Err(MediaError::InvalidFilename),
        };
        let parent = if parent_dir.unicode_len() == 0 {
            match Format::get_media_dir_env_var(ext.as_str()) {
                Ok(var) => ParentDir::MediaDir(String::from_str(var)),
                Err(e) => return Err(e),
            }
        } else {
            ParentDir::Given(parent_dir)
        };
        Ok(Resolution::Relocate { parent, file_name })
    }

    /// How `filepath` is to be resolved (see [`MediaFile::resolve_parts`]).
    pub fn get_resolved_filepath(filepath: &str) -> (r: Result<Resolution, MediaError>)
        ensures
            result_view(r) == media_file_resolution(filepath@),
    {
        MediaFile::resolve_parts(parent(filepath), file_name(filepath))
    }
}

} // verus!
