//! The argument lists of the two external programs: youtube-dl, which
//! downloads, and eyeD3, which tags an audio file.
use vstd::prelude::*;
use crate::paths::{file_stem, join, parent, opt_view, path_file_stem_of, path_join_of, path_parent_of};
use crate::text::{
    prefixed, remove_double_quotes, replace_underscores, underscores_to_spaces, unescape_quotes,
    unescape_single_quotes, without_double_quotes,
};
use crate::utils::argument_parsing::{Args, MetadataArgs};
use crate::utils::path_utils::{Format, FormatModel};

verus! {

/// The texts of a list of strings.
pub open spec fn texts(v: Seq<String>) -> Seq<Seq<char>> {
    v.map_values(|s: String| s@)
}

/// The texts of an optional list of strings.
pub open spec fn opt_texts(v: Option<Vec<String>>) -> Option<Seq<Seq<char>>> {
    match v {
        Some(l) => Some(texts(l@)),
        None => None,
    }
}

/// The format options: re-encode to the video format, or extract the audio in
/// the audio format.
pub open spec fn format_options(format: FormatModel) -> Seq<Seq<char>> {
    match format {
        FormatModel::Video(f) => seq!["--recode-video"@, f],
        FormatModel::Audio(f) => seq!["-x"@, "--audio-format"@, f],
    }
}

/// The best quality for the kind of file.
pub open spec fn best_quality(format: FormatModel) -> Seq<char> {
    match format {
        FormatModel::Video(_) => "bestvideo+bestaudio"@,
        FormatModel::Audio(_) => "bestaudio"@,
    }
}

/// The youtube-dl arguments: the format options, `-f <quality>` (the best
/// quality for the kind unless one is given), `-o <output>.%(ext)s`, the
/// further arguments if any, and the URL last.
pub open spec fn youtube_dl_arg_list(
    format: FormatModel,
    quality: Option<Seq<char>>,
    output: Seq<char>,
    extra: Option<Seq<Seq<char>>>,
    url: Seq<char>,
) -> Seq<Seq<char>> {
    let q = match quality {
        Some(q) => q,
        None => best_quality(format),
    };
    let more = match extra {
        Some(e) => e,
        None => Seq::empty(),
    };
    format_options(format) + seq!["-f "@ + q, "-o"@, output + ".%(ext)s"@] + more + seq![url]
}

/// The output path of a download to `filepath`, without extension: the stem
/// of the file inside its directory.
pub open spec fn output_base(filepath: Seq<char>) -> Seq<char> {
    path_join_of(path_parent_of(filepath)->0, path_file_stem_of(filepath)->0)
}

/// Whether the file path of a download has the stem and the directory that
/// its output path is made of.
pub open spec fn has_output_base(filepath: Seq<char>) -> bool {
    path_file_stem_of(filepath) is Some && path_parent_of(filepath) is Some
}

/// Appends the texts of `extra` to `out`.
fn push_all(out: &mut Vec<String>, extra: &Vec<String>)
    ensures
        texts(final(out)@) == texts(old(out)@) + texts(extra@),
{
    let ghost start = texts(out@);
    let mut i: usize = 0;
    while i < extra.len()
        invariant
            i <= extra.len(),
            texts(out@) == start + texts(extra@.subrange(0, i as int)),
        decreases extra.len() - i,
    {
        let s = extra[i].clone();
        let ghost prev = out@;
        out.push(s);
        assert(texts(out@) =~= texts(prev).push(extra@[i as int]@));
        assert(texts(extra@.subrange(0, i + 1)) =~= texts(extra@.subrange(0, i as int)).push(
            extra@[i as int]@,
        ));
        assert(texts(out@) =~= start + texts(extra@.subrange(0, i + 1)));
        i = i + 1;
    }
    assert(extra@.subrange(0, extra.len() as int) =~= extra@);
}

/// The arguments with which youtube-dl downloads `args.url` to the output
/// path `output_base` (the file path without extension) followed by
/// `.%(ext)s`.
pub fn youtube_dl_args_for_output(args: &Args, output_base: &str) -> (r: Vec<String>)
    ensures
        texts(r@) == youtube_dl_arg_list(
            args.file.format@,
            opt_view(args.quality),
            output_base@,
            opt_texts(args.youtube_dl_args),
            args.url@,
        ),
{
    let mut out: Vec<String> = Vec::new();
    let best: &str = match &args.file.format {
        Format::Video(f) => {
            out.push(String::from_str("--recode-video"));
            out.push(f.clone());
            "bestvideo+bestaudio"
        },
        Format::Audio(f) => {
            out.push(String::from_str("-x"));
            out.push(String::from_str("--audio-format"));
            out.push(f.clone());
            "bestaudio"
        },
    };
    assert(texts(out@) =~= format_options(args.file.format@));
    let quality: &str = match &args.quality {
        Some(q) => q.as_str(),
        None => best,
    };
    out.push(prefixed("-f ", quality));
    out.push(String::from_str("-o"));
    let mut output = String::from_str(output_base);
    output.append(".%(ext)s");
    out.push(output);
    let ghost q = match opt_view(args.quality) {
        Some(q) => q,
        None => best_quality(args.file.format@),
    };
    let ghost fixed = format_options(args.file.format@) + seq![
        "-f "@ + q,
        "-o"@,
        output_base@ + ".%(ext)s"@,
    ];
    assert(texts(out@) =~= fixed);
    match &args.youtube_dl_args {
        Some(extra) => push_all(&mut out, extra),
        None => {},
    }
    let ghost more = match opt_texts(args.youtube_dl_args) {
        Some(e) => e,
        None => Seq::empty(),
    };
    assert(texts(out@) =~= fixed + more);
    let ghost before_url = out@;
    out.push(args.url.clone());
    assert(texts(out@) =~= texts(before_url).push(args.url@));
    assert(texts(out@) =~= youtube_dl_arg_list(
        args.file.format@,
        opt_view(args.quality),
        output_base@,
        opt_texts(args.youtube_dl_args),
        args.url@,
    ));
    out
}

/// The arguments with which youtube-dl downloads `args.url` to
/// `args.file`; the file path must have a stem and a parent directory, which
/// make the output path.
pub fn youtube_dl_args(args: &Args) -> (r: Vec<String>)
    requires
        has_output_base(args.file.filepath@),
    ensures
        texts(r@) == youtube_dl_arg_list(
            args.file.format@,
            opt_view(args.quality),
            output_base(args.file.filepath@),
            opt_texts(args.youtube_dl_args),
            args.url@,
        ),
{
    let filepath = args.file.filepath.as_str();
    let stem = file_stem(filepath).unwrap();
    let dir = parent(filepath).unwrap();
    let file_without_ext = join(dir.as_str(), stem.as_str());
    youtube_dl_args_for_output(args, file_without_ext.as_str())
}

/// [`youtube_dl_args`] where the file path has a stem and a parent
/// directory, `None` where it lacks one.
pub fn try_youtube_dl_args(args: &Args) -> (r: Option<Vec<String>>)
    ensures
        r is None <==> !has_output_base(args.file.filepath@),
        r matches Some(v) ==> texts(v@) == youtube_dl_arg_list(
            args.file.format@,
            opt_view(args.quality),
            output_base(args.file.filepath@),
            opt_texts(args.youtube_dl_args),
            args.url@,
        ),
{
    let filepath = args.file.filepath.as_str();
    if file_stem(filepath).is_none() || parent(filepath).is_none() {
        return None;
    }
    Some(youtube_dl_args(args))
}

/// The eyeD3 arguments for tagging `filepath`: quiet mode, the title (the
/// file stem with underscores turned into spaces), the album and the artist
/// when given, and the file last.
pub open spec fn eye_d3_arg_list(
    filepath: Seq<char>,
    stem: Seq<char>,
    album: Option<Seq<char>>,
    artist: Option<Seq<char>>,
) -> Seq<Seq<char>> {
    let album_args = match album {
        Some(a) => seq!["-A "@ + a],
        None => Seq::empty(),
    };
    let artist_args = match artist {
        Some(a) => seq!["-a "@ + a],
        None => Seq::empty(),
    };
    seq!["-Q"@, "-t "@ + underscores_to_spaces(stem)] + album_args + artist_args + seq![filepath]
}

/// The album tag of optional metadata.
pub open spec fn album_of(m: Option<MetadataArgs>) -> Option<Seq<char>> {
    match m {
        Some(m) => opt_view(m.album),
        None => None,
    }
}

/// The artist tag of optional metadata.
pub open spec fn artist_of(m: Option<MetadataArgs>) -> Option<Seq<char>> {
    match m {
        Some(m) => opt_view(m.artist),
        None => None,
    }
}

/// The arguments with which eyeD3 tags the audio file `filepath`, whose
/// stem is `stem`.
pub fn eye_d3_args_for_stem(filepath: &str, stem: &str, metadata_args: &Option<MetadataArgs>) -> (r:
    Vec<String>)
    ensures
        texts(r@) == eye_d3_arg_list(
            filepath@,
            stem@,
            album_of(*metadata_args),
            artist_of(*metadata_args),
        ),
{
    let mut out: Vec<String> = Vec::new();
    out.push(String::from_str("-Q"));
    let title = replace_underscores(stem);
    out.push(prefixed("-t ", title.as_str()));
    match metadata_args {
        Some(m) => {
            match &m.album {
                Some(album) => out.push(prefixed("-A ", album.as_str())),
                None => {},
            }
            match &m.artist {
                Some(artist) => out.push(prefixed("-a ", artist.as_str())),
                None => {},
            }
        },
        None => {},
    }
    out.push(String::from_str(filepath));
    assert(texts(out@) =~= eye_d3_arg_list(
        filepath@,
        stem@,
        album_of(*metadata_args),
        artist_of(*metadata_args),
    ));
    out
}

/// The arguments with which eyeD3 tags the audio file `filepath`, which must
/// have a stem.
pub fn eye_d3_args(filepath: &str, metadata_args: &Option<MetadataArgs>) -> (r: Vec<String>)
    requires
        path_file_stem_of(filepath@) is Some,
    ensures
        texts(r@) == eye_d3_arg_list(
            filepath@,
            path_file_stem_of(filepath@)->0,
            album_of(*metadata_args),
            artist_of(*metadata_args),
        ),
{
    let stem = file_stem(filepath).unwrap();
    eye_d3_args_for_stem(filepath, stem.as_str(), metadata_args)
}

/// [`eye_d3_args`] where `filepath` has a stem, `None` where it has none.
pub fn try_eye_d3_args(filepath: &str, metadata_args: &Option<MetadataArgs>) -> (r: Option<
    Vec<String>,
>)
    ensures
        r is None <==> path_file_stem_of(filepath@) is None,
        r matches Some(v) ==> texts(v@) == eye_d3_arg_list(
            filepath@,
            path_file_stem_of(filepath@)->0,
            album_of(*metadata_args),
            artist_of(*metadata_args),
        ),
{
    if file_stem(filepath).is_none() {
        return None;
    }
    Some(eye_d3_args(filepath, metadata_args))
}

/// Whether a file in this format is tagged with eyeD3 after the download:
/// audio files are, video files are not.
pub fn is_tagged(format: &Format) -> (r: bool)
    ensures
        r == (format@ is Audio),
{
    match format {
        Format::Audio(_) => true,
        Format::Video(_) => false,
    }
}

/// The command line shown in verbose mode, from the quoted form in which
/// each argument is printed (`"youtube-dl" "-f best" ...`): without its
/// double quotes, and with its escaped single quotes unescaped.
pub fn shown_command(quoted: &str) -> (r: String)
    ensures
        r@ == unescape_single_quotes(without_double_quotes(quoted@)),
{
    let unquoted = remove_double_quotes(quoted);
    unescape_quotes(unquoted.as_str())
}

} // verus!
