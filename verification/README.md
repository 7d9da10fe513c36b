# game_client

The rules of a hexagon-grid tactics game client, verified with Verus.

- `src/` is the library: the hexagon geometry, the map model, the combat data
  and the reactions to the server's combat events, unit placement, the unit
  actions and their highlights, the map editor's tools and spawn markers, and
  the client's state machines. Every function there carries a contract that
  Verus proves; the laws that span functions are public proof functions.
- `tests/` runs the library on concrete values.
- `app/` is the Bevy program around the library: windows, input, rendering,
  asset loading, the network connection and the shared game crate's types,
  converted to and from the library's models.
