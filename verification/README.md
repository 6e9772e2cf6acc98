# showsk_rs

A small blogging server. Users register (username, email, password typed twice), log in,
and write posts with an optional image.

- `src/` is the library, verified with Verus:
  - `domain/`: validation of usernames, emails, passwords (hashed with Argon2), post
    bodies and image paths, and the `NewUser` / `NewPost` values built from them;
  - `authorization.rs`: the decision of a login attempt from what the user lookup found;
  - `configuration.rs`: settings, the server address, database connection parameters and
    the deployment environment;
  - `routes.rs`: the decisions of the HTTP handlers (status codes, messages, redirects, the
    login form's errors, collecting a post's text and placing uploaded images);
  - `text.rs`: white space, grapheme counting, lower-casing and decimal formatting.
- `app/` is the actix-web server around it: configuration loading, database queries,
  sessions, flash messages, multipart uploads and templates.
- `tests/` exercise the library on concrete values.
