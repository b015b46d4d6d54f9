# hermit_bot

The Hermit Discord bot, with its decisions and message texts in a library
verified with Verus.

- `src/` is the library. `text` holds verified decimal formatting and
  string search, and the call of `str::to_lowercase`; `mention` holds the
  calls of serenity that write mentions; `events` the greeting, the welcome
  of new members and leaving empty voice channels; `commands` the answers
  of `ping`, `help` and `details`; `music` the decisions and answers of the
  voice commands; `services` the joke and meme services and the choice of
  a meme's picture; `config` the token, prefixes and error handling;
  `installer` the dependency installer's commands; `helper` the reporting
  of failed requests.
- `app/` is the program: it talks to Discord through serenity and poise,
  to the voice gateway through songbird, and to the web services through
  reqwest, and asks the library what to answer and do.  songbird is not yet
  a dependency in Cargo.toml: together with its audio driver its sources
  are too large to add beside the others, so the voice parts of `app/`
  (voice-state updates and the music commands) build only once songbird
  0.4 is added back.
- `tests/` runs the library on concrete values.
