# omniget

Course-platform logic of the OmniGet media downloader, verified with Verus.

- `src/` — the verified library: the catalogue of known course platforms and
  URL detection (`catalog`), URL parts (`url_parts`), course structure read
  from the browser or from course pages (`ztm`, `html`, `browser`), download
  planning and file names (`download`), video qualities and ffmpeg output
  (`media`), HTTP status and player URLs (`hotmart`), lecture lengths
  (`duration`), the task files for new platforms (`tasks`), the command-line
  helpers (`cli`), text operations with their specifications (`text`), and
  the laws that relate these functions (`laws`).
- `tests/` — tests of the library on concrete values.
- `app/` — the command-line program and the I/O around the library: HTTP
  requests, the browser bridge, yt-dlp and ffmpeg processes, and the
  float arithmetic on durations.
