# big_screen_launcher

The navigation, settings and controller logic of a controller-driven
big-screen game launcher, written in Verus with its behaviour stated in
contracts and proved.

- `src/` is the verified library: the page and menu navigation
  (`page_state`, `home_menu`, `power_menu`, `game_menu`), the settings text
  and its round trip (`config`, `config_laws`), controller input and repeat
  timing (`input`), focus and wake-up bookkeeping (`runtime`), the game list
  (`game`), launching (`launch`), the store scanners' parsing and filtering
  (`epic`, `xbox`, `steam_scan`), DLSS detection (`dlss`), artwork and icon
  selection (`cover`), background lookups of game details (`details`) and
  analytics settings (`analytics`).
- `tests/` runs the library on concrete values.
- `app/` is the program around the library: file and process I/O, the
  filesystem walks, and the floating-point animations and formatting.
