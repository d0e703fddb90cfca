# lead_into_wine

The rules of a small tavern game, written in Verus and proved against their
contracts, with the Bevy game around them.

- `src/` — the rules: pouring and mixing liquids (`alchemy`), the customers
  and their configuration (`persona`), the flow of a day (`level`, built on the
  one-shot countdown of `timer`), the drawers and screens (`states`, `menu`),
  grabbing and releasing items (`interaction`), the key/value tables that hold
  the configuration (`table`) and placeholder filling in texts (`text`).
- `tests/` — tests of the rules on concrete values.
- `app/` — the game: Bevy plugins that read input, call the rules and draw.
