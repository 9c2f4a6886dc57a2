use ytdl::utils::argument_parsing::{Args, MetadataArgs};
use ytdl::utils::exec_command::{shown_command, eye_d3_args, try_eye_d3_args, try_youtube_dl_args, youtube_dl_args};
use ytdl::utils::path_utils::{Format, MediaFile};
use ytdl::utils::url_validation::{
    is_youtube_url, resolve_url, search_prompt, search_query, UrlResolution, YOUTUBE_URL_PATTERN,
};
use ytdl::utils::validation;

fn s(v: &[&str]) -> Vec<String> {
    v.iter().map(|x| x.to_string()).collect()
}

fn args(path: &str, format: Format, quality: Option<&str>, extra: Option<&[&str]>) -> Args {
    Args::new(
        false,
        MediaFile { filepath: path.to_string(), format },
        "https://youtu.be/abc".to_string(),
        quality.map(|q| q.to_string()),
        None,
        extra.map(s),
    )
}

#[test]
fn youtube_dl_args_for_audio_with_default_quality() {
    let a = args("/music/my_song.mp3", Format::Audio("mp3".to_string()), None, None);
    assert_eq!(
        youtube_dl_args(&a),
        s(&[
            "-x",
            "--audio-format",
            "mp3",
            "-f bestaudio",
            "-o",
            "/music/my_song.%(ext)s",
            "https://youtu.be/abc",
        ])
    );
}

#[test]
fn youtube_dl_args_for_video_with_quality_and_extra_args() {
    let a = args("/v/clip.tar.mkv", Format::Video("mkv".to_string()), Some("worst"), Some(&["--no-playlist", "-q"]));
    assert_eq!(
        youtube_dl_args(&a),
        s(&[
            "--recode-video",
            "mkv",
            "-f worst",
            "-o",
            "/v/clip.tar.%(ext)s",
            "--no-playlist",
            "-q",
            "https://youtu.be/abc",
        ])
    );
    let b = args("/v/clip.mp4", Format::Video("mp4".to_string()), None, Some(&[]));
    assert_eq!(
        youtube_dl_args(&b),
        s(&["--recode-video", "mp4", "-f bestvideo+bestaudio", "-o", "/v/clip.%(ext)s", "https://youtu.be/abc"])
    );
}

#[test]
fn try_youtube_dl_args_needs_a_directory() {
    let a = args("/", Format::Audio("mp3".to_string()), None, None);
    assert_eq!(try_youtube_dl_args(&a), None);
    let b = args("/m/a.mp3", Format::Audio("mp3".to_string()), None, None);
    assert_eq!(try_youtube_dl_args(&b), Some(youtube_dl_args(&b)));
}

#[test]
fn args_getters() {
    let a = args("/m/a.mp3", Format::Audio("mp3".to_string()), Some("q"), None);
    assert!(!a.is_verbose());
    assert_eq!(a.url(), "https://youtu.be/abc");
    assert_eq!(a.quality(), &Some("q".to_string()));
    assert_eq!(a.file().filepath, "/m/a.mp3");
    assert_eq!(a.metadata_args(), &None);
    assert_eq!(a.youtube_dl_args(), &None);
}

#[test]
fn eye_d3_args_with_and_without_tags() {
    assert_eq!(
        eye_d3_args("/music/my_new_song.mp3", &None),
        s(&["-Q", "-t my new song", "/music/my_new_song.mp3"])
    );
    let m = Some(MetadataArgs { artist: Some("The Band".to_string()), album: Some("First".to_string()) });
    assert_eq!(
        eye_d3_args("/music/a_b.mp3", &m),
        s(&["-Q", "-t a b", "-A First", "-a The Band", "/music/a_b.mp3"])
    );
    let only_artist = Some(MetadataArgs { artist: Some("X".to_string()), album: None });
    assert_eq!(eye_d3_args("t.mp3", &only_artist), s(&["-Q", "-t t", "-a X", "t.mp3"]));
    assert_eq!(try_eye_d3_args("/", &None), None);
}

#[test]
fn youtube_urls_are_recognised() {
    for u in [
        "https://www.youtube.com/watch?v=dQw4w9WgXcQ",
        "http://youtu.be/dQw4w9WgXcQ",
        "youtube/x",
        "youtu.be/x",
        "www.youtube.com/watch",
    ] {
        assert!(is_youtube_url(u), "{}", u);
    }
    for u in [
        "never gonna give you up",
        "https://vimeo.com/123",
        "https://www.youtube.com/",
        "https://youtube.com/watch",
        "ftp://youtu.be/x",
        "youtu.be/x\ny",
        "",
    ] {
        assert!(!is_youtube_url(u), "{}", u);
    }
    assert!(YOUTUBE_URL_PATTERN.starts_with('^'));
}

#[test]
fn non_youtube_urls_become_searches_on_a_yes() {
    let url = "lofi beats".to_string();
    assert_eq!(
        resolve_url(&url),
        UrlResolution::NotYoutube {
            prompt: "not a valid youtube url, wanna search \"lofi beats\" on youtube instead? [y/n]: ".to_string(),
            search: "ytsearch:lofi beats".to_string(),
        }
    );
    assert_eq!(resolve_url(&"https://youtu.be/x".to_string()), UrlResolution::Valid);
    assert_eq!(search_query("q"), "ytsearch:q");
    assert_eq!(search_prompt("q"), "not a valid youtube url, wanna search \"q\" on youtube instead? [y/n]: ");
}

#[test]
fn in_place_url_resolution() {
    let mut u = "lofi".to_string();
    validation::resolve_url(&mut u, true);
    assert_eq!(u, "ytsearch:lofi");
    let mut v = "lofi".to_string();
    validation::resolve_url(&mut v, false);
    assert_eq!(v, "lofi");
    let mut w = "https://youtu.be/x".to_string();
    validation::resolve_url(&mut w, true);
    assert_eq!(w, "https://youtu.be/x");
}

#[test]
fn a_search_target_is_not_a_youtube_url() {
    for u in ["youtu.be/x", "abc", ""] {
        assert!(!is_youtube_url(&search_query(u)));
    }
}

#[test]
fn shown_command_drops_double_quotes_and_unescapes_single_quotes() {
    for q in [
        r#""youtube-dl" "-x" "-f bestaudio" "ytsearch:don\'t stop""#,
        r#"plain"#,
        r#"\\'\'"""#,
        r#"a\"b\'"#,
        "",
    ] {
        assert_eq!(shown_command(q), q.replace("\"", "").replace("\\'", "\'"), "{}", q);
    }
    assert_eq!(shown_command(r#""a" "b\'c""#), "a b'c");
}
