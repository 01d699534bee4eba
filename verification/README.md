# sd_models

Model download and SHARP component management, verified with Verus.

- `src/` is the verified library:
  - `text`: character-level string operations (equality, prefixes, suffixes,
    replacement, decimal formatting);
  - `paths`: `/`-separated paths held as strings (joining, file name, stem,
    extension, replacing the extension), with laws relating them;
  - `models`: model descriptions, the Whisper catalog lookup and the model
    directories under the data directory;
  - `sharp`: the SHARP executable builds and model weights, and the manager
    that locates them;
  - `download`: the download job as a sequence of decisions (plan, count
    bytes, checkpoint, verify, report), with laws on where each kind of model
    ends up;
  - `splat`: which images can be turned into splats, the SHARP command and the
    output path.
- `app/` does the I/O: HTTP downloads, files and archives, the SHARP process,
  and serialisable copies of the job types.  It hands the library paths with
  `/` as the separator, turning the platform's own separator into `/` where
  it differs, and turns the paths it reports and stores back into the
  platform's form.
- `tests/` exercises the library on concrete values.
