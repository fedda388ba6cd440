# orttaai-core

The engine of Orttaai, a push-to-talk voice keyboard for Linux and Windows:
press a hotkey, speak, release, and the words appear at the cursor.

`src/` is the library, written in Verus: every function states its behaviour
in `requires`/`ensures` and is proved against it.

| module | what it holds |
|---|---|
| `coordinator` | the dictation state machine (press → record → release → transcribe → Personal Memory → secure-field check → inject), as a step function from state and event to next state and action, with its laws |
| `memory` | Personal Memory: dictionary terms and snippets applied word by word, case-insensitively, keeping punctuation |
| `hotkey` | hotkey display strings, portal trigger strings, key-name → keyboard code, the press-toggle used with the GNOME shortcut portal |
| `types` | shared types and the hotkey-combo parser |
| `injection` | the injector interface, a recording mock, how the system injector routes text, keysyms and replies of the Wayland RemoteDesktop portal |
| `clipboard` | the clipboard interface and an in-memory clipboard |
| `focus` | the focused application's name from an X11 `WM_CLASS` value or a Windows image path |
| `models` | the Whisper model catalog, download URLs and file names |
| `store`, `transcription`, `llm`, `desktop` | history records, transcript assembly, Ollama URLs, and the desktop shell's decisions |
| `text` | the string model all of the above is stated in (Unicode whitespace, words, trimming) |

`app/` is the `orttaai` command-line program around the library: audio capture
(`cpal`, `rubato`), transcription (`whisper-rs`), typing (`enigo`, `wtype`, the
XDG portals via `ashpd`), the global hotkey (`global-hotkey`), SQLite history
(`rusqlite`), settings files and the Ollama client (`ureq`). It performs what
the library decides.

`tests/` exercises the library on concrete values.
