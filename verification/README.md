# cosmos_client

The logic of the Cosmos game client's user interface, written in Verus and
proved against its contracts.

* `src/` is the verified library. Each module covers one part of the
  interface: the menus the pause key closes (`menu`), the hotbar and the
  priority queue that decides who controls it (`hotbar`, `priority_queue`),
  the crosshair and the reasons that hide elements (`crosshair`, `reasons`,
  `focus_cam`), the galaxy map (`galaxy_map`), the screens of the main menu
  (`main_menu`, `singleplayer`, `multiplayer`, `settings`), the datapad
  (`master_menu`), friends (`friends`), the HUD (`hud`), reactive bindings
  (`reactivity`), and the widgets (`button`, `checkbox`, `slider`,
  `tabbed_view`, `text_input`, `modal`, `window`, `item_renderer`,
  `ship_flight`, `show_cursor`). `text` holds the character-level string
  functions the others build on.
* `tests/` exercises the library on concrete values.
* `app/` is a small command-line program around the library: it lists,
  starts and deletes local worlds, stores the multiplayer menu's data, and
  holds the screen geometry computed in floating point.
