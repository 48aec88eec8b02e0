# rath_demo

The logic of a small todo web application (Axum, libSQL/Turso, minijinja,
htmx) as a Verus-verified library, with the web server around it in `app/`.

- `src/` — the verified library. `calendar` and `decimal` model dates and
  decimal text; `datetime`, `passwords` and `render_html` hold the calls into
  `chrono`, `argon2` and `html-minifier` with what those crates promise;
  `serde_converters`, `date_only_converter` and `filters` read and write dates;
  `routes` decides what each route answers; `turso_helper` decides what the
  rows of a query amount to; `fields` is the field-name map that form pages show.
- `tests/` — tests that run the library with the real outside crates.
- `app/` — `main`, the HTTP handlers, the database and template engine calls,
  and copies of the library's types with serde derives.
