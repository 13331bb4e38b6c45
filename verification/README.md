# cookie_clicker

A terminal cookie-clicker idle game with casino side games (slots, coin flip,
dice, roulette, blackjack) and a LAN chat, whose rules are proved with Verus.

- `src/` is the verified library: the casino games and their bookkeeping,
  card values and the blackjack table, what each key does on each screen,
  the golden-cookie and frenzy counters, the building and upgrade catalogue,
  the chat history, pings and tab completion, and the glyphs the screens use.
  Random draws come from `rand`'s small generator; the library states what
  holds of every outcome.
- `app/` is the program around it: the terminal event loop (crossterm and
  ratatui), saving and loading (serde_json), the UDP chat socket, and the
  cookie economy, whose cookie counts, costs and rates are floating point.
- `tests/` exercises the library on concrete values.
