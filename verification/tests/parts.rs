use ytdl::paths::{extension_of_file_name, stem_of_file_name};
use ytdl::utils::argument_parsing::{Args, MetadataArgs};
use ytdl::utils::exec_command::{eye_d3_args_for_stem, is_tagged, youtube_dl_args_for_output};
use ytdl::utils::path_utils::{Format, MediaError, MediaFile, ParentDir, Resolution};
use ytdl::utils::user_input::{parse_lowercased_reply, Reply};
use ytdl::utils::validation::resolve_filepath_parts;
use ytdl::validation::resolve_filename_parts;

fn some(s: &str) -> Option<String> {
    Some(s.to_string())
}

#[test]
fn extension_and_stem_of_optional_names() {
    assert_eq!(extension_of_file_name(&some("a.mp3")), some("mp3"));
    assert_eq!(extension_of_file_name(&None), None);
    assert_eq!(stem_of_file_name(&some("a.b.c")), some("a.b"));
    assert_eq!(stem_of_file_name(&None), None);
}

#[test]
fn resolution_from_parts() {
    assert_eq!(MediaFile::resolve_parts(None, None), Ok(Resolution::Unchanged));
    assert_eq!(MediaFile::resolve_parts(some(""), some(".bashrc")), Err(MediaError::InvalidFilename));
    assert_eq!(MediaFile::resolve_parts(some("d"), None), Err(MediaError::InvalidFilename));
    assert_eq!(
        MediaFile::resolve_parts(some(""), some("a.flv")),
        Ok(Resolution::Relocate { parent: ParentDir::MediaDir(some("VIDEOS").unwrap()), file_name: some("a.flv") })
    );
    assert_eq!(
        MediaFile::resolve_parts(some("d"), some("a.ogg")),
        Ok(Resolution::Relocate { parent: ParentDir::Given(some("d").unwrap()), file_name: some("a.ogg") })
    );
    assert_eq!(
        MediaFile::resolve_parts(some(""), some("a.ogg")),
        Err(MediaError::UnsupportedFormat(some("ogg").unwrap()))
    );
    assert_eq!(
        resolve_filepath_parts(some("d"), None),
        Ok(Resolution::Relocate { parent: ParentDir::Given(some("d").unwrap()), file_name: None })
    );
    assert_eq!(resolve_filepath_parts(some(""), some("x")), Err(MediaError::InvalidFilename));
    assert_eq!(resolve_filename_parts(None, some("x.mp3")), Ok(Resolution::Unchanged));
    assert_eq!(resolve_filename_parts(None, None), Err(MediaError::InvalidFilename));
    assert_eq!(
        resolve_filename_parts(None, some("x.ogg")),
        Err(MediaError::UnsupportedFormat(some("ogg").unwrap()))
    );
}

#[test]
fn youtube_dl_args_for_a_given_output() {
    let args = Args::new(
        true,
        MediaFile { filepath: some("ignored").unwrap(), format: Format::Audio(some("aac").unwrap()) },
        some("ytsearch:x").unwrap(),
        None,
        None,
        None,
    );
    assert_eq!(
        youtube_dl_args_for_output(&args, "/m/out"),
        vec!["-x", "--audio-format", "aac", "-f bestaudio", "-o", "/m/out.%(ext)s", "ytsearch:x"]
    );
}

#[test]
fn eye_d3_args_for_a_given_stem() {
    let m = Some(MetadataArgs { artist: None, album: some("LP") });
    assert_eq!(eye_d3_args_for_stem("f", "a_b_c", &m), vec!["-Q", "-t a b c", "-A LP", "f"]);
}

#[test]
fn tags_from_the_extension() {
    assert!(MetadataArgs::from_extension("mp3", None, None).is_some());
    assert!(MetadataArgs::from_extension("aac", None, None).is_none());
    assert!(is_tagged(&Format::Audio(some("aac").unwrap())));
    assert!(!is_tagged(&Format::Video(some("mp4").unwrap())));
}

#[test]
fn lowercased_replies() {
    assert_eq!(parse_lowercased_reply(" y\n"), Reply::Yes);
    assert_eq!(parse_lowercased_reply("n"), Reply::No);
    assert_eq!(parse_lowercased_reply("Y"), Reply::Invalid(some("Y").unwrap()));
}
