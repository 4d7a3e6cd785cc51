# taskwarrior-tui profiles

Named Taskwarrior profiles for taskwarrior-tui, as a Verus-verified library
with a thin program around it.

- `src/text.rs`: character-level string operations (code point order,
  substring search, prefix tests, character classes).
- `src/paths.rs`: home expansion, joining and cleaning of profile paths.
- `src/profile.rs`: profile colors, profiles, the name-ordered profile map,
  active profiles.
- `src/config.rs`: the checks on one profile of a parsed `profiles.toml`,
  profile resolution, error messages.
- `src/validation.rs`: a validation run over every profile as a sequence of
  steps; the program reports what the file system says and does what each
  step asks.
- `src/menu.rs`: the profile picker (search, selection, navigation).
- `src/startup.rs`: configuration directory, profile selection, environment,
  restart command, profile listing, log level.
- `app/`: command line (clap), reading and parsing `profiles.toml` (toml,
  serde), file system checks, environment, logging (log4rs), terminal
  (crossterm) and process restart.
