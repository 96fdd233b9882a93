# umami-cli

A command-line client for self-hosted [Umami](https://umami.is) analytics,
whose logic is a library verified with Verus.

- `src/` — the verified library:
  - `json.rs`: JSON values, their compact text, field lookup and update;
  - `text.rs`: decimal rendering, trimming, splitting, padding;
  - `api/`: requests and replies as plain values, the client (base URL,
    token, headers, error handling);
  - `commands/`: for each command group, the API call a command makes and
    what it shows for the reply;
  - `output.rs`: field texts, listings, detail views, aligned tables;
  - `ranking.rs`: the top entries by count, as the realtime view lists them;
  - `config.rs`: the saved settings.
- `tests/`: tests of the library on concrete values.
- `app/`: the program — argument parsing, prompts, the settings file, HTTP
  and printing.
