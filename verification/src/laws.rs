//! Properties that span several functions of the library.
use vstd::prelude::*;
use crate::paths::{
    extension_of_name, last_index_of, opt_extension_of_name, path_extension_of, path_file_name_of,
    path_parent_of, stem_of_name,
};
use crate::utils::exec_command::{eye_d3_arg_list, youtube_dl_arg_list};
use crate::text::underscores_to_spaces;
use crate::utils::argument_parsing::takes_metadata;
use crate::utils::path_utils::{
    format_of, is_audio_extension, is_video_extension, media_dir_var_of, media_file_of,
    media_file_resolution, resolution_of_parts, FormatModel, MediaErrorModel, ParentDirModel,
    ResolutionModel, AUDIO_VAR, VIDEO_VAR,
};
use crate::utils::url_validation::{
    is_url_scheme, is_url_tail, is_youtube_host, is_youtube_url_text, search_prompt_text,
    search_query_text,
};
use crate::utils::validation::{filepath_resolution, filepath_resolution_of_parts, resolved_url_text};
use crate::validation::{filename_resolution, filename_resolution_of_parts};

verus! {

/// No extension is both a video and an audio extension.
pub proof fn law_extension_kinds_disjoint(e: Seq<char>)
    ensures
        !(is_video_extension(e) && is_audio_extension(e)),
{
    reveal_strlit("mp4");
    reveal_strlit("flv");
    reveal_strlit("mkv");
    reveal_strlit("avi");
    reveal_strlit("mp3");
    reveal_strlit("aac");
    reveal_strlit("m4a");
    if is_video_extension(e) && is_audio_extension(e) {
        assert(e[1] == 'p' || e[1] == 'l' || e[1] == 'k' || e[1] == 'v');
        assert(e[1] == 'p' || e[1] == 'a' || e[1] == '4');
        assert(e[0] == 'm');
        assert(e[2] == '3' || e[2] == 'a');
        assert(false);
    }
}

/// The format of an extension and its media directory agree: audio files
/// go to `MUSIC`, video files to `VIDEOS`, and an extension has a format
/// exactly when it has a media directory.
pub proof fn law_format_matches_media_dir(e: Seq<char>)
    ensures
        (format_of(e) is Ok) == (media_dir_var_of(e) is Ok),
        (format_of(e) == Ok::<FormatModel, MediaErrorModel>(FormatModel::Audio(e))) == (media_dir_var_of(e)
            == Ok::<Seq<char>, MediaErrorModel>(AUDIO_VAR@)),
        (format_of(e) == Ok::<FormatModel, MediaErrorModel>(FormatModel::Video(e))) == (media_dir_var_of(e)
            == Ok::<Seq<char>, MediaErrorModel>(VIDEO_VAR@)),
{
    reveal_strlit("MUSIC");
    reveal_strlit("VIDEOS");
    assert(VIDEO_VAR@.len() != AUDIO_VAR@.len());
    law_extension_kinds_disjoint(e);
}

/// Tags are only kept for a file whose format is audio.
pub proof fn law_metadata_only_for_audio(e: Seq<char>)
    requires
        takes_metadata(e),
    ensures
        format_of(e) == Ok::<FormatModel, MediaErrorModel>(FormatModel::Audio(e)),
{
    law_extension_kinds_disjoint(e);
}

/// The three path resolutions agree on every path that has a parent and a
/// supported extension; they differ only in the order of their checks.
pub proof fn law_resolutions_agree(path: Seq<char>)
    requires
        path_parent_of(path) is Some,
        path_extension_of(path) is Some,
        media_dir_var_of(path_extension_of(path)->0) is Ok,
    ensures
        media_file_resolution(path) == filepath_resolution(path),
        media_file_resolution(path) == filename_resolution(path),
        media_file_resolution(path) is Ok,
{
}

/// A path that a media-file resolution moves has an extension and a file
/// name, so that the relocated path and the media file can both be made.
pub proof fn law_relocated_has_file_name(path: Seq<char>)
    requires
        media_file_resolution(path) is Ok,
        media_file_resolution(path)->Ok_0 != ResolutionModel::Unchanged,
    ensures
        path_extension_of(path) is Some,
        path_file_name_of(path) is Some,
        media_file_resolution(path) matches Ok(ResolutionModel::Relocate { file_name, .. })
            && file_name is Some,
{
}

/// A bare file name of a supported kind goes to the media directory of that
/// kind; a path with a non-empty parent stays in that parent.
pub proof fn law_media_dir_for_bare_names(path: Seq<char>)
    requires
        path_parent_of(path) is Some,
        path_extension_of(path) is Some,
        media_dir_var_of(path_extension_of(path)->0) is Ok,
    ensures
        path_parent_of(path)->0.len() == 0 ==> media_file_resolution(path) == Ok::<
            ResolutionModel,
            MediaErrorModel,
        >(
            ResolutionModel::Relocate {
                parent: ParentDirModel::MediaDir(media_dir_var_of(path_extension_of(path)->0)->Ok_0),
                file_name: path_file_name_of(path),
            },
        ),
        path_parent_of(path)->0.len() != 0 ==> media_file_resolution(path) == Ok::<
            ResolutionModel,
            MediaErrorModel,
        >(
            ResolutionModel::Relocate {
                parent: ParentDirModel::Given(path_parent_of(path)->0),
                file_name: path_file_name_of(path),
            },
        ),
{
}

/// A file name with an extension is its stem, a `.`, and the extension.
pub proof fn law_stem_dot_extension(name: Seq<char>)
    requires
        extension_of_name(name) is Some,
    ensures
        name == stem_of_name(name) + seq!['.'] + extension_of_name(name)->0,
{
    crate::paths::lemma_last_index_bounds(name, '.');
    let i = last_index_of(name, '.');
    assert(name =~= name.subrange(0, i) + seq!['.'] + name.subrange(i + 1, name.len() as int));
}

/// A YouTube URL is never replaced, whatever the user answers.
pub proof fn law_youtube_url_kept(url: Seq<char>, search_confirmed: bool)
    requires
        is_youtube_url_text(url),
    ensures
        resolved_url_text(url, search_confirmed) == url,
{
}

/// A URL that is not a YouTube URL is kept on a no and replaced by its search
/// target on a yes.
pub proof fn law_search_on_yes(url: Seq<char>)
    requires
        !is_youtube_url_text(url),
    ensures
        resolved_url_text(url, false) == url,
        resolved_url_text(url, true) == search_query_text(url),
{
}

/// A search target is not itself a YouTube URL: it starts with `yt`, where a
/// YouTube URL starts with its scheme (`h`), or with its host (`w` or `yo`).
pub proof fn law_search_target_not_youtube(url: Seq<char>)
    ensures
        !is_youtube_url_text(search_query_text(url)),
{
    reveal_strlit("ytsearch:");
    reveal_strlit("http://");
    reveal_strlit("https://");
    reveal_strlit("www.youtube.com");
    reveal_strlit("youtu.be");
    reveal_strlit("youtube");
    let s = search_query_text(url);
    assert(s[0] == 'y' && s[1] == 't');
    if is_youtube_url_text(s) {
        let (scheme, host, tail) = choose|scheme: Seq<char>, host: Seq<char>, tail: Seq<char>|
            #![trigger is_url_scheme(scheme), is_youtube_host(host), is_url_tail(tail)]
            is_url_scheme(scheme) && is_youtube_host(host) && is_url_tail(tail) && s == scheme
                + host + seq!['/'] + tail;
        if scheme.len() == 0 {
            assert(s[0] == host[0]);
            assert(s[1] == host[1]);
        } else {
            assert(s[0] == scheme[0]);
        }
        assert(false);
    }
}

/// The title given to eyeD3 has no underscore and as many characters as the
/// stem it comes from.
pub proof fn law_title_without_underscores(stem: Seq<char>)
    ensures
        !underscores_to_spaces(stem).contains('_'),
        underscores_to_spaces(stem).len() == stem.len(),
{
    let t = underscores_to_spaces(stem);
    if t.contains('_') {
        let k = choose|k: int| 0 <= k < t.len() && t[k] == '_';
        assert(t[k] == (if stem[k] == '_' { ' ' } else { stem[k] }));
        assert(false);
    }
}

/// A media file goes where its resolution put it, whatever its format: with
/// a resolved path its file path is that path, without one it is the path
/// given; its format is that of the extension. Whether it can be made at all
/// depends on the extension alone.
pub proof fn law_media_file_takes_resolved_path(path: Seq<char>, ext: Seq<char>, resolved: Seq<char>)
    ensures
        (media_file_of(path, ext, Some(resolved)) is Ok) == (format_of(ext) is Ok),
        (media_file_of(path, ext, None) is Ok) == (format_of(ext) is Ok),
        format_of(ext) is Ok ==> media_file_of(path, ext, Some(resolved))->Ok_0.filepath == resolved,
        format_of(ext) is Ok ==> media_file_of(path, ext, None)->Ok_0.filepath == path,
        format_of(ext) is Ok ==> media_file_of(path, ext, Some(resolved))->Ok_0.format == format_of(
            ext,
        )->Ok_0,
        format_of(ext) is Ok ==> media_file_of(path, ext, None)->Ok_0.format == format_of(ext)->Ok_0,
{
}

/// A quality given by the user is what youtube-dl is asked for, for audio and
/// video alike, right after the format options; without one it is asked for
/// `bestvideo+bestaudio` for a video and `bestaudio` for an audio file. The
/// two lists differ in that argument only.
pub proof fn law_quality_given_or_best(
    format: FormatModel,
    q: Seq<char>,
    output: Seq<char>,
    extra: Option<Seq<Seq<char>>>,
    url: Seq<char>,
)
    ensures
        ({
            let given = youtube_dl_arg_list(format, Some(q), output, extra, url);
            let default = youtube_dl_arg_list(format, None, output, extra, url);
            let k: int = if format is Video { 2 } else { 3 };
            &&& given.len() == default.len()
            &&& given[k] == "-f "@ + q
            &&& format is Video ==> default[k] == "-f "@ + "bestvideo+bestaudio"@
            &&& format is Audio ==> default[k] == "-f "@ + "bestaudio"@
            &&& forall|i: int| 0 <= i < given.len() && i != k ==> given[i] == default[i]
            &&& given[k + 1] == "-o"@
            &&& given[k + 2] == output + ".%(ext)s"@
            &&& given.last() == url
            &&& format matches FormatModel::Video(f) ==> given[0] == "--recode-video"@ && given[1]
                == f
            &&& format matches FormatModel::Audio(f) ==> given[0] == "-x"@ && given[1]
                == "--audio-format"@ && given[2] == f
            &&& extra is None ==> given.len() == k + 4
            &&& extra matches Some(e) ==> given.len() == k + 4 + e.len() && forall|j: int|
                0 <= j < e.len() ==> #[trigger] given[k + 3 + j] == e[j]
        }),
{
    let given = youtube_dl_arg_list(format, Some(q), output, extra, url);
    let default = youtube_dl_arg_list(format, None, output, extra, url);
    let k: int = if format is Video { 2 } else { 3 };
    assert forall|i: int| 0 <= i < given.len() && i != k implies given[i] == default[i] by {
    }
}

/// The eyeD3 title is `-t ` followed by the whole stem, character by
/// character, with each underscore turned into a space; the list starts
/// with `-Q` and ends with the file.
pub proof fn law_title_is_whole_stem(
    filepath: Seq<char>,
    stem: Seq<char>,
    album: Option<Seq<char>>,
    artist: Option<Seq<char>>,
)
    ensures
        ({
            let args = eye_d3_arg_list(filepath, stem, album, artist);
            &&& args[0] == "-Q"@
            &&& args[1].len() == 3 + stem.len()
            &&& args[1].subrange(0, 3) == "-t "@
            &&& forall|i: int|
                0 <= i < stem.len() ==> #[trigger] args[1][3 + i] == (if stem[i] == '_' {
                    ' '
                } else {
                    stem[i]
                })
            &&& args.last() == filepath
            &&& args.len() == 3 + (if album is Some { 1int } else { 0 }) + (if artist is Some {
                1int
            } else {
                0
            })
            &&& album matches Some(a) ==> args[2] == "-A "@ + a
            &&& artist matches Some(a) ==> args[args.len() - 2] == "-a "@ + a
        }),
{
    reveal_strlit("-t ");
    let args = eye_d3_arg_list(filepath, stem, album, artist);
    let t = args[1];
    assert(t.subrange(0, 3) =~= "-t "@);
}

/// A search target is `ytsearch:` followed by the whole search term.
pub proof fn law_search_target_keeps_whole_term(url: Seq<char>)
    ensures
        search_query_text(url).len() == 9 + url.len(),
        search_query_text(url).subrange(0, 9) == seq!['y', 't', 's', 'e', 'a', 'r', 'c', 'h', ':'],
        search_query_text(url).subrange(9, 9 + url.len() as int) == url,
        !is_youtube_url_text(url) ==> resolved_url_text(url, true) == search_query_text(url),
{
    reveal_strlit("ytsearch:");
    let s = search_query_text(url);
    assert(s.subrange(0, 9) =~= seq!['y', 't', 's', 'e', 'a', 'r', 'c', 'h', ':']);
    assert(s.subrange(9, 9 + url.len() as int) =~= url);
}

/// The in-place resolution moves a path with a non-empty parent into that
/// parent whatever its file name; only a bare file name can be refused, and
/// only such a name has its extension looked at.
pub proof fn law_in_place_resolution_checks_only_bare_names(
    parent: Option<Seq<char>>,
    name: Option<Seq<char>>,
)
    ensures
        parent is Some && parent->0.len() > 0 ==> filepath_resolution_of_parts(parent, name) == Ok::<
            ResolutionModel,
            MediaErrorModel,
        >(ResolutionModel::Relocate { parent: ParentDirModel::Given(parent->0), file_name: name }),
        parent is None ==> filepath_resolution_of_parts(parent, name) == Ok::<
            ResolutionModel,
            MediaErrorModel,
        >(ResolutionModel::Unchanged),
        filepath_resolution_of_parts(parent, name) is Err ==> parent is Some && parent->0.len() == 0,
{
}

/// The media-file resolution moves a path with a non-empty parent into that
/// parent as soon as its file name has an extension, supported or not; only
/// a bare file name can be refused as an unsupported format.
pub proof fn law_media_file_resolution_classifies_only_bare_names(
    parent: Option<Seq<char>>,
    name: Option<Seq<char>>,
)
    ensures
        parent is Some && parent->0.len() > 0 && opt_extension_of_name(name) is Some
            ==> resolution_of_parts(parent, name) == Ok::<ResolutionModel, MediaErrorModel>(
            ResolutionModel::Relocate { parent: ParentDirModel::Given(parent->0), file_name: name },
        ),
        resolution_of_parts(parent, name) matches Err(MediaErrorModel::UnsupportedFormat(_))
            ==> parent is Some && parent->0.len() == 0,
        resolution_of_parts(parent, name) matches Err(MediaErrorModel::InvalidFilename)
            <==> parent is Some && opt_extension_of_name(name) is None,
{
}

/// The extension-first resolution refuses an unsupported extension wherever
/// the file is, and otherwise places the file as the other resolutions do.
pub proof fn law_filename_resolution_classifies_every_name(
    parent: Option<Seq<char>>,
    name: Option<Seq<char>>,
)
    ensures
        opt_extension_of_name(name) is None ==> filename_resolution_of_parts(parent, name)
            == Err::<ResolutionModel, MediaErrorModel>(MediaErrorModel::InvalidFilename),
        opt_extension_of_name(name) is Some && media_dir_var_of(opt_extension_of_name(name)->0) is Err
            ==> filename_resolution_of_parts(parent, name) == Err::<ResolutionModel, MediaErrorModel>(
            MediaErrorModel::UnsupportedFormat(opt_extension_of_name(name)->0),
        ),
        opt_extension_of_name(name) is Some && media_dir_var_of(opt_extension_of_name(name)->0) is Ok
            && parent is Some ==> filename_resolution_of_parts(parent, name) == resolution_of_parts(parent, name),
{
}

/// The question about a search term holds the whole term, between a fixed
/// opening and a fixed closing that do not depend on it.
pub proof fn law_prompt_quotes_whole_term(url: Seq<char>, other: Seq<char>)
    ensures
        search_prompt_text(url).len() == 39 + url.len() + 29,
        search_prompt_text(url).subrange(39, 39 + url.len() as int) == url,
        search_prompt_text(url).subrange(0, 39) == search_prompt_text(other).subrange(0, 39),
        search_prompt_text(url).subrange(39 + url.len() as int, 68 + url.len() as int)
            == search_prompt_text(other).subrange(39 + other.len() as int, 68 + other.len() as int),
{
    reveal_strlit("not a valid youtube url, wanna search \"");
    reveal_strlit("\" on youtube instead? [y/n]: ");
    let a = "not a valid youtube url, wanna search \""@;
    let b = "\" on youtube instead? [y/n]: "@;
    let s = search_prompt_text(url);
    let t = search_prompt_text(other);
    assert(s.subrange(0, 39) =~= a);
    assert(t.subrange(0, 39) =~= a);
    assert(s.subrange(39, 39 + url.len() as int) =~= url);
    assert(s.subrange(39 + url.len() as int, 68 + url.len() as int) =~= b);
    assert(t.subrange(39 + other.len() as int, 68 + other.len() as int) =~= b);
}

/// The seven known extensions and what they give: mp4, flv, mkv and avi are
/// videos kept in `VIDEOS`, mp3, aac and m4a audio kept in `MUSIC`; any other
/// extension is refused; tags are kept for mp3 only.
pub proof fn law_known_extensions(e: Seq<char>)
    ensures
        (e == seq!['m', 'p', '4'] || e == seq!['f', 'l', 'v'] || e == seq!['m', 'k', 'v'] || e
            == seq!['a', 'v', 'i']) ==> format_of(e) == Ok::<FormatModel, MediaErrorModel>(
            FormatModel::Video(e),
        ) && media_dir_var_of(e) == Ok::<Seq<char>, MediaErrorModel>(
            seq!['V', 'I', 'D', 'E', 'O', 'S'],
        ),
        (e == seq!['m', 'p', '3'] || e == seq!['a', 'a', 'c'] || e == seq!['m', '4', 'a'])
            ==> format_of(e) == Ok::<FormatModel, MediaErrorModel>(FormatModel::Audio(e))
            && media_dir_var_of(e) == Ok::<Seq<char>, MediaErrorModel>(
            seq!['M', 'U', 'S', 'I', 'C'],
        ),
        !(e == seq!['m', 'p', '4'] || e == seq!['f', 'l', 'v'] || e == seq!['m', 'k', 'v'] || e
            == seq!['a', 'v', 'i'] || e == seq!['m', 'p', '3'] || e == seq!['a', 'a', 'c'] || e
            == seq!['m', '4', 'a']) ==> format_of(e) == Err::<FormatModel, MediaErrorModel>(
            MediaErrorModel::UnsupportedFormat(e),
        ) && media_dir_var_of(e) == Err::<Seq<char>, MediaErrorModel>(
            MediaErrorModel::UnsupportedFormat(e),
        ),
        takes_metadata(e) == (e == seq!['m', 'p', '3']),
{
    reveal_strlit("mp4");
    reveal_strlit("flv");
    reveal_strlit("mkv");
    reveal_strlit("avi");
    reveal_strlit("mp3");
    reveal_strlit("aac");
    reveal_strlit("m4a");
    reveal_strlit("VIDEOS");
    reveal_strlit("MUSIC");
    assert("mp4"@ =~= seq!['m', 'p', '4']);
    assert("flv"@ =~= seq!['f', 'l', 'v']);
    assert("mkv"@ =~= seq!['m', 'k', 'v']);
    assert("avi"@ =~= seq!['a', 'v', 'i']);
    assert("mp3"@ =~= seq!['m', 'p', '3']);
    assert("aac"@ =~= seq!['a', 'a', 'c']);
    assert("m4a"@ =~= seq!['m', '4', 'a']);
    assert(VIDEO_VAR@ =~= seq!['V', 'I', 'D', 'E', 'O', 'S']);
    assert(AUDIO_VAR@ =~= seq!['M', 'U', 'S', 'I', 'C']);
    law_extension_kinds_disjoint(e);
}

} // verus!
