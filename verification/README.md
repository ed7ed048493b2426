# dim_stream_deck

The decision logic of two keys of the DIM Stream Deck plugin, verified with Verus.

- `src/` — the library: metrics labels and backgrounds (`metrics`, with the
  thousands grouping in `thousands`), what a pull-item key sends
  (`pull_item`), how its image is layered (`item_render`), the redraw with
  its loading spinner (`key_update`) and routing of property-inspector
  messages (`plugin_message`).
- `app/` — the Stream Deck side: event handlers, serde forms, Skia drawing.
- `tests/` — tests of the library.
