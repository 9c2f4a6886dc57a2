//! The resolved command-line arguments.
use vstd::prelude::*;
use crate::paths::{extension, path_extension_of, opt_view};
use crate::text::str_eq;
use crate::utils::path_utils::MediaFile;

verus! {

/// The id3v2 tags to embed into the downloaded file.
#[derive(Debug, PartialEq, Eq)]
pub struct MetadataArgs {
    pub artist: Option<String>,
    pub album: Option<String>,
}

/// The tags are only embedded into mp3 files.
pub open spec fn takes_metadata(ext: Seq<char>) -> bool {
    ext == "mp3"@
}

impl MetadataArgs {
    /// The tags, kept only for a file with extension `mp3`.
    pub fn from_extension(extension: &str, artist: Option<String>, album: Option<String>) -> (r:
        Option<MetadataArgs>)
        ensures
            r is Some == takes_metadata(extension@),
            r matches Some(m) ==> opt_view(m.artist) == opt_view(artist) && opt_view(m.album)
                == opt_view(album),
    {
        if str_eq(extension, "mp3") {
            return Some(MetadataArgs { artist, album });
        }
        None
    }

    /// The tags given with `--artist` and `--album`, kept only when
    /// `filepath` is an mp3 file; `filepath` must have an extension.
    pub fn from_matches(filepath: &str, artist: Option<String>, album: Option<String>) -> (r: Option<
        MetadataArgs,
    >)
        requires
            path_extension_of(filepath@) is Some,
        ensures
            r is Some == takes_metadata(path_extension_of(filepath@)->0),
            r matches Some(m) ==> opt_view(m.artist) == opt_view(artist) && opt_view(m.album)
                == opt_view(album),
    {
        let ext = extension(filepath).unwrap();
        MetadataArgs::from_extension(ext.as_str(), artist, album)
    }

    /// [`MetadataArgs::from_matches`] where `filepath` has an extension,
    /// `None` where it has none.
    pub fn try_from_matches(filepath: &str, artist: Option<String>, album: Option<String>) -> (r:
        Option<Option<MetadataArgs>>)
        ensures
            r is None <==> path_extension_of(filepath@) is None,
            r matches Some(o) ==> (o is Some == takes_metadata(path_extension_of(filepath@)->0)),
            r matches Some(Some(m)) ==> opt_view(m.artist) == opt_view(artist) && opt_view(
                m.album,
            ) == opt_view(album),
    {
        match extension(filepath) {
            Some(_) => Some(MetadataArgs::from_matches(filepath, artist, album)),
            None => None,
        }
    }

    /// The artist tag.
    pub fn artist(&self) -> (r: &Option<String>)
        ensures
            r == &self.artist,
    {
        &self.artist
    }

    /// The album tag.
    pub fn album(&self) -> (r: &Option<String>)
        ensures
            r == &self.album,
    {
        &self.album
    }
}

/// The resolved arguments of one download.
#[derive(Debug)]
pub struct Args {
    pub is_verbose: bool,
    pub file: MediaFile,
    pub url: String,
    pub quality: Option<String>,
    pub metadata_args: Option<MetadataArgs>,
    pub youtube_dl_args: Option<Vec<String>>,
}

impl Args {
    /// The arguments made of these parts.
    pub fn new(
        is_verbose: bool,
        file: MediaFile,
        url: String,
        quality: Option<String>,
        metadata_args: Option<MetadataArgs>,
        youtube_dl_args: Option<Vec<String>>,
    ) -> (r: Args)
        ensures
            r.is_verbose == is_verbose,
            r.file == file,
            r.url == url,
            r.quality == quality,
            r.metadata_args == metadata_args,
            r.youtube_dl_args == youtube_dl_args,
    {
        Args { is_verbose, file, url, quality, metadata_args, youtube_dl_args }
    }

    /// Whether the command is to be shown before it runs.
    pub fn is_verbose(&self) -> (r: bool)
        ensures
            r == self.is_verbose,
    {
        self.is_verbose
    }

    /// The file to download to.
    pub fn file(&self) -> (r: &MediaFile)
        ensures
            r == &self.file,
    {
        &self.file
    }

    /// The URL or search target.
    pub fn url(&self) -> (r: &String)
        ensures
            r == &self.url,
    {
        &self.url
    }

    /// The quality asked of youtube-dl, if one was given.
    pub fn quality(&self) -> (r: &Option<String>)
        ensures
            r == &self.quality,
    {
        &self.quality
    }

    /// The tags to embed, if any.
    pub fn metadata_args(&self) -> (r: &Option<MetadataArgs>)
        ensures
            r == &self.metadata_args,
    {
        &self.metadata_args
    }

    /// Further arguments for youtube-dl, if any were given.
    pub fn youtube_dl_args(&self) -> (r: &Option<Vec<String>>)
        ensures
            r == &self.youtube_dl_args,
    {
        &self.youtube_dl_args
    }
}

} // verus!
