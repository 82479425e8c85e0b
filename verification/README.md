# NGX Radar

A screener for listings of the Nigerian Exchange (NGX) in five sectors (energy, fintech,
agriculture, finance, healthcare), with a curated list of director dealings and a signal
score for each.

- `src/` is the verified library:
  - `text`: character-level string helpers (equality, infix search, trimming, case
    mapping, character removal, decimal `u64` reading) stated over `Seq<char>`.
  - `sector`: sectors, parsing of user input, display names and colours.
  - `universe`: the covered listings, their filtering by sector, reference prices in kobo.
  - `insider`: the curated transactions, the fallback when nothing is fetched, disclosure
    keyword detection, and the signal score.
  - `screener`: stable descending ranking by integer keys, grouping by name, extreme
    positions, and the requested sort order.
  - `fetch`: the order in which data sources are tried, Alpha Vantage symbols and
    messages, the NGX price-list rows kept, and volume totals.
  - `daily`: the Alpha Vantage daily series reply: its notices, and the days kept, oldest
    first.
  - `synthetic`: the seed and integer steps of the synthetic price history, and the trading
    days.
- `app/` is the program around it: HTTP fetching, dates, floating-point prices and
  averages, the terminal table, the web server and the report files.
- `tests/` exercises the library on concrete values.
