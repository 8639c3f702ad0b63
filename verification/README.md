# tts_studio

The logic of a text-to-speech desktop application (Qwen3 TTS in a Tauri
shell) and of the small license server it activates keys against, written in
Verus and verified.

- `src/license.rs`: the seven-day trial and the activated license.
- `src/engine.rs`: the speech engine's lazy, single load of its model.
- `src/voices.rs`: built-in and cloned voices, speech request outcomes.
- `src/activation.rs`: what the license server's answer comes to on the desktop.
- `src/server.rs`: the license server's rules (administration, verification, activation).
- `src/assets.rs`: the administration pages' paths and content types.
- `src/search_path.rs`: putting directories in front of a `;`-separated `PATH`.
- `src/text.rs`: decimal rendering and string helpers.

`app/` holds the I/O around the library: the license server (`app/main.rs`,
axum and SQLite) and the desktop commands (`app/desktop/`).
