# velocis

The verified core of Velocis, a video editor, written in Verus.

- `src/` is the library, every function of it verified:
  - `kinds`: media types and track kinds and the names they are saved under;
  - `text`: string comparison and decimal formatting (`{}` and `{:02}`);
  - `ids`: identifiers made from the clock;
  - `paths`: the data directory and the files in it;
  - `import`: how an imported file is classified and named;
  - `timeline`: which track takes which media, clip colours, clip lookup;
  - `labels`: the words, icons and clocks the screens show;
  - `commands`: keyboard shortcuts and the command palette;
  - `state`: the editor's state machine (screens, dialog, recent projects, selection, playback);
  - `persist`: the saved list of recent projects.
- `app/` is the program around it: reading and writing JSON files, the media
  and timeline model with fractional-second times, playback and seeking, the
  WebGL renderer, and a driver that takes one editor event per input line.
- `tests/` exercises the library on concrete values.
