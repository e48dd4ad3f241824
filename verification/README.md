# ruffle_ios

The decision logic of an iOS front end for the Ruffle Flash Player emulator,
written in Verus and verified.

- `src/` is the verified library:
  - `keys`: UIKit key codes and characters to the player's key events;
  - `touch`: the handling of a touch as a state machine;
  - `player_view`: the life cycle of the view that shows a player;
  - `storage`: the movies of the library, how a movie's link is played
    and named, and the key/value data each movie stores, with the laws of
    reads, writes and removals;
  - `web_url`: URLs as the `url` crate parses them, as plain values;
  - `stored_options`: the stored form of the options a user sets for a
    movie, with the law that reading it gives back the options written;
  - `options`, `settings`: the player options and the settings form of the
    edit screen, with the laws of reading back what a row wrote;
  - `player_config`: the configuration a player is built with;
  - `library`: the decisions of the library screen;
  - `text`: string comparison and the decimal form of integers.
- `app/` is the UIKit shell around it (view controllers, CoreData, the
  player itself), which performs what the library decides.
- `tests/` runs the library on concrete values.
