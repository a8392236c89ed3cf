# ferrosonic

The verified core of a terminal Subsonic music player, written in Verus.

- `src/` is the library. Every function in it is verified against its
  contract; the public proof functions state laws that relate several
  functions (what a read gives back of a write, what stays in range after
  any key, what one call undoes of another).
  - `audio/`: the ring buffer between the FFmpeg decoder and the audio
    device, the decoder's command line and sample decoding, and the
    PipeWire sample-rate controller.
  - `subsonic/`: token authentication, request and stream URLs (built with
    the `url` crate), and the validation of decoded responses.
  - `app/`: the decisions of the application: key handling of the
    settings, radio and equalizer pages, playback and queue decisions,
    session restore, start-up, the event loop's timing, what is playing
    now and each refresh of it, and the cava visualiser's configuration
    and its screen (kept by a `vt100` terminal parser).
  - `config/`, `ui/`: equalizer preset file names, themes and the text of
    the pages.
  - `text.rs`: character-level string helpers shared by the above.
- `tests/` runs the library on concrete values.
- `app/` is ordinary Rust around the library: processes, the audio device,
  HTTP, files, the terminal and the floating-point parts (band gains,
  positions in seconds).

Calls into outside crates (`md5`, `rand`, `url`, `reqwest`, `vt100`) and a few
`String` operations stand behind small trusted wrappers whose contracts
state what the crates' sources show.
