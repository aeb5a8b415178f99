# thenbot

A Discord bot (poise/serenity) with its logic in a Verus-verified library.

- `src/` — the verified library: reply texts, command decisions (music
  queue, voice-channel moves, owner commands), markdown escaping of converted
  text, code-block extraction, decimal rendering of numbers, with contracts
  and proved laws. Calls into `owoify_rs`, `url`, `rand`/`rand_chacha` and
  serenity's `MessageBuilder` stand behind small trusted wrappers.
- `tests/` — tests of the library on concrete values.
- `app/` — the bot itself: poise commands, the voice connection (songbird),
  YouTube lookups, the formatter process, and the event loop.
