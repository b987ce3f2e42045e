# news_tui

A terminal news reader. The library (`src/`) holds the parts with contracts
proved by Verus:

- `domain`: feeds, articles and timestamps.
- `parser::rss`: turning a feed document (parsed by `feed-rs`) into articles.
- `storage`: the SQLite repository (through `rusqlite`): the statements, the
  values bound to them and the decoding of result rows.
- `fetcher`: the HTTP client (`reqwest`) and the rule that a blank body is
  no feed.
- `config`: configured feeds and the choice of the configuration file.
- `ui`: the reader's key handling and the texts it shows.

`app/` is the program around it: reading the configuration file, the network
requests, the terminal and `main`.
