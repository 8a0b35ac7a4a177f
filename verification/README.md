# aquafin

The logic of a Jellyfin client for the terminal, verified with Verus: what a key press
does, what is asked of the server and what becomes of its answers, what plays next, what
each pane shows, and what the server is told about playback.

- `src/` is the library. Every transition of the client is stated over `AppModel`, the
  contents of `App`; the laws that span several operations are public proof functions
  beside them (`ui/app/invariants.rs` and `ui/upkeep.rs` for what every operation keeps).
- `app/` is the terminal front end around it: drawing, mpv, images, the async requests
  and the event loop. The HTTP client, the audio engine and the config file come in
  through traits.
- `tests/` runs the library on concrete values.
