use ytdl::utils::argument_parsing::MetadataArgs;
use ytdl::utils::path_utils::{
    is_audio, is_video, relocated_path, Format, MediaError, MediaFile, ParentDir, Resolution,
    AUDIO_VAR, VIDEO_VAR,
};
use ytdl::utils::validation::{get_media_dir_from_ext, resolve_filepath};
use ytdl::validation::resolve_filename;

fn relocate(parent: ParentDir, file_name: &str) -> Resolution {
    Resolution::Relocate { parent, file_name: Some(file_name.to_string()) }
}

#[test]
fn video_and_audio_extensions() {
    for e in ["mp4", "flv", "mkv", "avi"] {
        assert!(is_video(e));
        assert!(!is_audio(e));
        assert_eq!(Format::new(e), Ok(Format::Video(e.to_string())));
        assert_eq!(Format::get_media_dir_env_var(e), Ok("VIDEOS"));
        assert_eq!(get_media_dir_from_ext(e), Ok("VIDEOS"));
    }
    for e in ["mp3", "aac", "m4a"] {
        assert!(is_audio(e));
        assert!(!is_video(e));
        assert_eq!(Format::new(e), Ok(Format::Audio(e.to_string())));
        assert_eq!(Format::get_media_dir_env_var(e), Ok("MUSIC"));
        assert_eq!(get_media_dir_from_ext(e), Ok("MUSIC"));
    }
    assert_eq!(AUDIO_VAR, "MUSIC");
    assert_eq!(VIDEO_VAR, "VIDEOS");
}

#[test]
fn unsupported_extensions_are_errors() {
    for e in ["wav", "MP3", "", "mp", "mp3 "] {
        assert_eq!(Format::new(e), Err(MediaError::UnsupportedFormat(e.to_string())));
        assert_eq!(
            Format::get_media_dir_env_var(e),
            Err(MediaError::UnsupportedFormat(e.to_string()))
        );
        assert_eq!(get_media_dir_from_ext(e), Err(MediaError::UnsupportedFormat(e.to_string())));
    }
}

#[test]
fn bare_file_names_go_to_the_media_directory() {
    assert_eq!(
        MediaFile::get_resolved_filepath("song.mp3"),
        Ok(relocate(ParentDir::MediaDir("MUSIC".to_string()), "song.mp3"))
    );
    assert_eq!(
        MediaFile::get_resolved_filepath("clip.mkv"),
        Ok(relocate(ParentDir::MediaDir("VIDEOS".to_string()), "clip.mkv"))
    );
}

#[test]
fn paths_with_a_directory_stay_in_it() {
    assert_eq!(
        MediaFile::get_resolved_filepath("downloads/clip.mp4"),
        Ok(relocate(ParentDir::Given("downloads".to_string()), "clip.mp4"))
    );
    assert_eq!(
        MediaFile::get_resolved_filepath("/tmp/x/a.wav"),
        Ok(relocate(ParentDir::Given("/tmp/x".to_string()), "a.wav"))
    );
}

#[test]
fn resolution_errors() {
    assert_eq!(MediaFile::get_resolved_filepath("noext"), Err(MediaError::InvalidFilename));
    assert_eq!(MediaFile::get_resolved_filepath("dir/noext"), Err(MediaError::InvalidFilename));
    assert_eq!(
        MediaFile::get_resolved_filepath("song.wav"),
        Err(MediaError::UnsupportedFormat("wav".to_string()))
    );
    assert_eq!(MediaFile::get_resolved_filepath("/"), Ok(Resolution::Unchanged));
    assert_eq!(MediaFile::get_resolved_filepath(""), Ok(Resolution::Unchanged));
}

#[test]
fn resolve_filepath_checks_the_extension_only_of_bare_names() {
    assert_eq!(
        resolve_filepath(&"dir/noext".to_string()),
        Ok(relocate(ParentDir::Given("dir".to_string()), "noext"))
    );
    assert_eq!(
        resolve_filepath(&"dir/..".to_string()),
        Ok(Resolution::Relocate { parent: ParentDir::Given("dir".to_string()), file_name: None })
    );
    assert_eq!(resolve_filepath(&"noext".to_string()), Err(MediaError::InvalidFilename));
    assert_eq!(
        resolve_filepath(&"a.txt".to_string()),
        Err(MediaError::UnsupportedFormat("txt".to_string()))
    );
    assert_eq!(
        resolve_filepath(&"a.m4a".to_string()),
        Ok(relocate(ParentDir::MediaDir("MUSIC".to_string()), "a.m4a"))
    );
    assert_eq!(resolve_filepath(&"/".to_string()), Ok(Resolution::Unchanged));
}

#[test]
fn resolve_filename_checks_the_extension_first() {
    assert_eq!(resolve_filename(&"/".to_string()), Err(MediaError::InvalidFilename));
    assert_eq!(
        resolve_filename(&"dir/a.txt".to_string()),
        Err(MediaError::UnsupportedFormat("txt".to_string()))
    );
    assert_eq!(
        resolve_filename(&"a.avi".to_string()),
        Ok(relocate(ParentDir::MediaDir("VIDEOS".to_string()), "a.avi"))
    );
    assert_eq!(
        resolve_filename(&"dir/a.avi".to_string()),
        Ok(relocate(ParentDir::Given("dir".to_string()), "a.avi"))
    );
}

#[test]
fn the_resolutions_agree_on_supported_paths() {
    for p in ["song.mp3", "dir/clip.flv", "/a/b/c.aac", "./x.mp4"] {
        let a = MediaFile::get_resolved_filepath(p);
        assert_eq!(a, resolve_filepath(&p.to_string()));
        assert_eq!(a, resolve_filename(&p.to_string()));
    }
}

#[test]
fn relocated_path_joins_directory_and_name() {
    assert_eq!(relocated_path("/home/me/Music", "song.mp3"), "/home/me/Music/song.mp3");
}

#[test]
fn media_file_takes_the_resolved_path_and_the_format() {
    let f = MediaFile::new("song.mp3", Some("/music/song.mp3".to_string())).unwrap();
    assert_eq!(f.filepath, "/music/song.mp3");
    assert_eq!(f.format, Format::Audio("mp3".to_string()));
    let g = MediaFile::new("/x.mkv", None).unwrap();
    assert_eq!(g.filepath, "/x.mkv");
    assert_eq!(g.format, Format::Video("mkv".to_string()));
    assert_eq!(
        MediaFile::new("a.ogg", None),
        Err(MediaError::UnsupportedFormat("ogg".to_string()))
    );
    assert_eq!(MediaFile::try_new("/", None), None);
    assert_eq!(MediaFile::try_new("a.mp4", None), Some(MediaFile::new("a.mp4", None)));
}

#[test]
fn metadata_only_for_mp3() {
    let m = MetadataArgs::from_matches("song.mp3", Some("Artist".to_string()), None);
    assert_eq!(m, Some(MetadataArgs { artist: Some("Artist".to_string()), album: None }));
    assert_eq!(MetadataArgs::from_matches("song.m4a", Some("A".to_string()), None), None);
    assert_eq!(MetadataArgs::from_matches("clip.mp4", None, Some("B".to_string())), None);
    assert_eq!(MetadataArgs::try_from_matches("noext", None, None), None);
    let t = MetadataArgs::try_from_matches("x.mp3", None, Some("Album".to_string()));
    assert_eq!(t, Some(Some(MetadataArgs { artist: None, album: Some("Album".to_string()) })));
    let m = t.unwrap().unwrap();
    assert_eq!(m.album(), &Some("Album".to_string()));
    assert_eq!(m.artist(), &None);
    let f = MediaFile::new("x.mp3", None).unwrap();
    assert_eq!(f.format, Format::Audio("mp3".to_string()));
}
