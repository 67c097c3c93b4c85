# aviutl2_audio_rec

Remote control of microphone recording for the AviUtl2 editor, with its decisions
proved in Verus.

A plugin of the editor serves the named pipe `\\.\pipe\aviutl2_audio_rec`. A command
line client sends `start:<path>` or `stop` and gets `ok`, `noop:<reason>` or
`err:<reason>` back.

```
audio_rec_cli.exe start "C:\recordings\take1.wav"
audio_rec_cli.exe stop
audio_rec_cli.exe toggle "C:\recordings\take1.wav"
audio_rec_cli.exe config save-path "C:\recordings"
```

A toggle stops the recording that is under way, whatever its path, and starts one where
there is none. A start or toggle without a path records into the saved directory, under
the time as its name. The exit code is 0 for success, 1 for a wrong argument or a failed
check, 2 for a pipe that could not be reached and 3 for an error that the plugin told. A
message holds at most 65,536 bytes.

## Layout

- `src/` is the verified library: commands and responses, the phases of the server and
  of its shutdown, the course of a run of the client, checks on paths, the settings,
  the search for a free place on the timeline.
- `app/` is what carries the decisions out: devices, files, the pipe, the clock, and
  the plugin interface of the editor. `main.rs` is the client, `lib.rs` the plugin.
- `tests/` runs the library on concrete values.

## What is taken on trust

The library believes, without proof, what is stated of five functions of the standard
library: `Path::extension`, `Path::parent` and `Path::join` in `src/paths.rs`, and
`String::from_utf8` and `String::from_utf8_lossy` in `src/encoding.rs`. What is stated
of paths holds on Windows and on Unix. The library also believes that an `AudioRecorder`
does what that trait says.
