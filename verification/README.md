# cardamom_loader

A `dinput8` (or, in a `dsound` build, `dsound`) proxy for 32-bit Windows
games. When the game loads it, it loads the real library (a `dinput8_c.dll` or
`dsound_c.dll` next to the executable if there is one, otherwise the system's
`dinput8.dll` or `dsound.dll`), forwards the game's calls to it, and loads every
`.dll` in a plugins folder next to the executable. The folder name, an optional
console window and the log level are set in `cardamom-loader.toml`, which is
created with the defaults when it is missing or unusable.

Layout:

- `src/` is the verified library: log levels, the configuration, the export
  tables and the names of their procedures, the choice of plugin files, the
  names and paths of the proxied library, and the start-up sequence as a state
  machine with its proved properties.
- `tests/` runs the library on concrete values.
- `app/` carries the library's decisions out against Windows: files, the
  environment, the console, loading libraries and forwarding the exports.
