# kopuz

The logic of the kopuz music player, verified with Verus: the settings
surface, the API's enumerations and its messages on the wire, the player's commands and
position clock, the audio sink's decisions, Apple Music playback dispatch
and caching, the search for a system Widevine CDM, cover and artist-image
resolution, and gRPC error mapping.

## Layout

- `src/config.rs`, `src/wire.rs`, `src/convert.rs`: the settings and their
  wire messages, with conversions both ways and the round-trip laws.
- `src/api.rs`, `src/enums.rs`, `src/status.rs`: the API's enumerations and
  messages, their wire codes, and the error-code/gRPC-status mapping.
- `src/protocol/`: the API's messages (player state and commands, events,
  queue requests, library listings, jobs, radio, playlists, artwork) to and
  from their wire form, each with the law that a value sent and read back is
  the value that was sent. A player volume travels as the bit pattern of its
  32-bit float, unchanged both ways.
- `src/player/`: the engine status and position clock, the player facade
  (each operation returns the engine command and the now-playing push), the
  sink's format and buffer choices, and the media-control modes.
- `src/applemusic/`: track-id dispatch, asset selection, encrypted playlist
  reading, licence answers, cache policy and names; CDM search roots,
  version ordering and selection.
- `src/cover.rs`: the artist-photo fetch map, the artist image policy, and
  Jellyfin/Subsonic image URLs.
- `src/pages/`: ranged offline downloads, the favourites filter, unknown-name
  checks, home sections and song-card actions, cookies, yt-dlp formats.
- `src/text.rs`: verified text helpers (prefixes, infixes, decimals, trims).
- `app/`: the I/O around the library: HTTP, files, environment, downloads,
  the MPRIS server, gRPC statuses.
- `tests/`: the scenarios, run against the compiled library.

Enumerations travel as `i32` codes with 0 as the unspecified value and the
named values numbered from 1 in declaration order.
