# ytdl

A very small wrapper around `youtube-dl` and `eyeD3`, written in Verus.

    ytdl [FLAGS] [OPTIONS] <FILEPATH> <URL> [-- <youtube-dl_args>...]

The output file's extension decides its kind: `mp4`, `flv`, `mkv` and `avi`
are video, `mp3`, `aac` and `m4a` audio. A bare file name is placed in the
directory named by `VIDEOS` or `MUSIC` (or the current directory when the
variable is unset). A URL that is not a YouTube URL can be turned into a
YouTube search. Audio files are tagged with eyeD3 after the download; the
`--artist` and `--album` tags are kept for mp3 files only.

Layout:

- `src/`: the verified library. `paths` and `text` hold the path and string
  helpers; `utils` holds the media formats and the resolution of the output
  path (`path_utils`, `validation`), URL recognition (`url_validation`),
  reply parsing (`user_input`), the argument records (`argument_parsing`) and
  the argument lists of the two programs (`exec_command`); the top-level
  `validation` holds a further path resolution; `laws` states properties that
  span several functions.
- `app/`: the program: command-line parsing, environment and file-system
  access, the terminal prompt, and running the two programs.
- `tests/`: tests of the library on concrete values.
