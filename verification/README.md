# revwlol

Lobby analysis for League of Legends: it reads the local client's lockfile,
finds the players of champion select and of the lobby chats, scans each
player's recent ranked solo-queue matches through the Riot API into a profile
card, and judges the lobby as a whole.

- `src/` is the library, verified with Verus:
  - `text` — trimming, splitting, searching, case folding and number
    formatting over characters;
  - `json` — the part of a JSON object that the analysis reads;
  - `riot_id`, `labels` — Riot IDs, position and region names;
  - `lockfile`, `lcu`, `champ_select` — the local client: where its lockfile
    is, what it holds, its state, and the players it shows;
  - `urls` — Riot API, client, Data Dragon and profile-site addresses;
  - `ddragon` — the champion catalog;
  - `matches`, `stats`, `profile` — reading matches, tallying them, and the
    profile card;
  - `lobby` — the lobby verdict.
- `app/` is the program around it: HTTP requests, files, the clock, the
  Data Dragon cache, and the floating-point ratios of the profile.
- `tests/` runs the library on concrete values.
