# railway

The logic of a travel planner for public transport, verified with Verus:
journeys and their legs, what a traveller is doing on a journey at a given
time and what is announced about it, the stores of bookmarked journeys and of
recent searches, the limiter of station suggestions, the list of providers,
and the texts shown for all of these.

## Layout

- `src/` is the verified library. Each module states its contracts over
  mathematical models (`Seq`, `Set`, `Map` and spec functions) and proves
  them; the properties that span several calls are public proof functions
  named `lemma_*`.
  - `journey`, `leg`, `notify`: the events and alerts of a journey, the
    notices due, and the background work on a journey being followed.
  - `journey_store`, `search_store`, `journeys_result`: bookmarked journeys,
    recent searches and lists of search results.
  - `request_limiter`, `timer`, `focus`: small state machines driven from
    outside (requests while typing, scheduled work, keyboard focus).
  - `live_update`, `detail_layout`, `labels`, `display`, `indicators`,
    `search_options`, `station_entry`, `price`, `utility`: what the views
    show, as texts and decisions.
  - `provider`, `discount_card`, `transport`, `migrate_journey_store`,
    `error`: providers, cards, modes of transport, the old bookmark format
    and errors.
  - `i18n`, `text`, `duration`, `calendar`, `assoc`, `place`: translation,
    text operations, spans of time, the year of a day, small maps and places.
- `tests/` runs the library on concrete values.
- `app/` holds what cannot be verified: the calls to the providers over the
  network, reading and writing the bookmark and search files, and the
  conversions between the providers' types and the library's.

Translations, calendar formatting and the local time zone come from outside
crates (`gettext-rs`, `chrono`).  A translated text is known as a
translation of its message id (`translation_of`), calendar texts are named
by the date and pattern they write, and of the local time zone only what
holds in every zone is stated; the functions that fill translated templates
state exactly what they make of any template.  The application binds the
text domain's codeset to UTF-8 before any lookup (`app/i18n.rs`).
