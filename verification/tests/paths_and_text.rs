use ytdl::paths::{extension, extension_from_file_name, file_name, file_stem, join, parent, stem_from_file_name};
use ytdl::text::{prefixed, replace_underscores, str_eq, surrounded};
use ytdl::utils::user_input::{char_is_whitespace, parse_reply, trim, Reply};

#[test]
fn str_eq_compares_characters() {
    assert!(str_eq("mp3", "mp3"));
    assert!(!str_eq("mp3", "mp4"));
    assert!(!str_eq("mp3", "mp33"));
    assert!(str_eq("", ""));
    assert!(str_eq("héllo", "héllo"));
}

#[test]
fn replace_underscores_turns_every_underscore_into_a_space() {
    assert_eq!(replace_underscores("my_new__song_"), "my new  song ");
    assert_eq!(replace_underscores("plain"), "plain");
    assert_eq!(replace_underscores(""), "");
    assert_eq!(replace_underscores("ü_ö"), "ü ö");
}

#[test]
fn prefixed_and_surrounded_concatenate() {
    assert_eq!(prefixed("-f ", "best"), "-f best");
    assert_eq!(surrounded("<", "x", ">"), "<x>");
}

#[test]
fn extension_follows_the_final_dot() {
    assert_eq!(extension("song.mp3"), Some("mp3".to_string()));
    assert_eq!(extension("dir/archive.tar.gz"), Some("gz".to_string()));
    assert_eq!(extension("noext"), None);
    assert_eq!(extension(".bashrc"), None);
    assert_eq!(extension(".config.toml"), Some("toml".to_string()));
    assert_eq!(extension("trailing."), Some("".to_string()));
    assert_eq!(extension("/"), None);
    assert_eq!(extension("dir/.."), None);
}

#[test]
fn stem_precedes_the_final_dot() {
    assert_eq!(file_stem("dir/archive.tar.gz"), Some("archive.tar".to_string()));
    assert_eq!(file_stem("my_song.mp3"), Some("my_song".to_string()));
    assert_eq!(file_stem(".bashrc"), Some(".bashrc".to_string()));
    assert_eq!(file_stem("noext"), Some("noext".to_string()));
    assert_eq!(file_stem("/"), None);
    assert_eq!(stem_from_file_name("a.b"), "a");
    assert_eq!(extension_from_file_name("a.b"), Some("b".to_string()));
}

#[test]
fn parent_file_name_and_join_follow_std() {
    assert_eq!(parent("song.mp3"), Some("".to_string()));
    assert_eq!(parent("music/song.mp3"), Some("music".to_string()));
    assert_eq!(parent("/"), None);
    assert_eq!(parent(""), None);
    assert_eq!(file_name("music/song.mp3"), Some("song.mp3".to_string()));
    assert_eq!(file_name("music/.."), None);
    assert_eq!(join("/tmp", "song.mp3"), "/tmp/song.mp3");
    assert_eq!(join("/tmp/", "song"), "/tmp/song");
    assert_eq!(join("/tmp", "/abs"), "/abs");
}

#[test]
fn trim_removes_surrounding_whitespace() {
    assert_eq!(trim("  y \n"), "y");
    assert_eq!(trim("\t\r\n"), "");
    assert_eq!(trim("a b"), "a b");
    assert_eq!(trim("\u{a0}x\u{3000}"), "x");
    assert_eq!(trim(""), "");
}

#[test]
fn replies_are_read_case_insensitively() {
    assert_eq!(parse_reply("y\n"), Reply::Yes);
    assert_eq!(parse_reply("Y\n"), Reply::Yes);
    assert_eq!(parse_reply("  N  \n"), Reply::No);
    assert_eq!(parse_reply("n"), Reply::No);
    assert_eq!(parse_reply("Yes\n"), Reply::Invalid("yes".to_string()));
    assert_eq!(parse_reply("\n"), Reply::Invalid("".to_string()));
    assert_eq!(parse_reply("y n\n"), Reply::Invalid("y n".to_string()));
}

#[test]
fn a_name_is_its_stem_a_dot_and_its_extension() {
    for name in ["a.mp3", "x.tar.gz", ".cfg.toml", "end."] {
        let e = extension_from_file_name(name).unwrap();
        assert_eq!(format!("{}.{}", stem_from_file_name(name), e), name);
    }
}

#[test]
fn whitespace_is_exactly_the_white_space_property() {
    fn listed(u: u32) -> bool {
        (0x09..=0x0d).contains(&u)
            || u == 0x20
            || u == 0x85
            || u == 0xa0
            || u == 0x1680
            || (0x2000..=0x200a).contains(&u)
            || u == 0x2028
            || u == 0x2029
            || u == 0x202f
            || u == 0x205f
            || u == 0x3000
    }
    for c in (0u32..=0x10ffff).filter_map(char::from_u32) {
        let s = c.to_string();
        assert_eq!(char_is_whitespace(c), c.is_whitespace(), "{:?}", c);
        assert_eq!(char_is_whitespace(c), listed(c as u32), "{:?}", c);
        assert_eq!(trim(&s).is_empty(), c.is_whitespace(), "{:?}", c);
    }
}

#[test]
fn ascii_replies_are_lowercased() {
    for (input, expected) in [("Y", Reply::Yes), ("N", Reply::No), ("\tY\r\n", Reply::Yes)] {
        assert_eq!(parse_reply(input), expected);
    }
    assert_eq!(parse_reply("NO"), Reply::Invalid("no".to_string()));
}
