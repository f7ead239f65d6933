# ytplay

`ytplay` plays the audio of a YouTube video in a terminal. It has `yt-dlp` find the stream
and `mpv` play it, shows what is playing, takes keys, and recommends what to play next.

What the program decides is a library in Verus, under `src/`:

- `url`: from an argument or a line of input to the URL to play
- `tools`: the arguments for `yt-dlp` and `mpv`, and what their ends mean
- `json`: JSON documents as plain values, read with `serde_json`
- `stream`: what `yt-dlp` tells about a video and its audio stream
- `recommendations`: the search for other videos and what is made of its results
- `player`: the dialogue with `mpv`
- `up_next`: which video plays next, and when
- `session`: the course of a playback, step by step
- `ui`: the lines on the screen and the meaning of the keys
- `cli`: the course of the program, step by step
- `error`, `text`: errors and their words; text as sequences of characters

Each function states in its contract what it returns or changes. The proof functions at
the end of the modules state what holds of several functions together: that the exit code
is the one of `mpv`, that the video that is playing is not recommended, that a queued video
follows, and so on.

What the proofs rest on without proof are the contracts of the few items that call
`serde_json` or parts of the standard library; each says so in its doc comment.

The program around the library is under `app/`: the terminal, processes, the socket of
`mpv`, threads, and the floating-point numbers. `tests/` runs the library on examples.
