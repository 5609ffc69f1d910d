# Jinx

Jinx is a Discord bot that grants roles to users when they register [Jinxxy](https://jinxxy.com/) license keys. It is
an independent project, not affiliated with Jinxxy.

## Layout

- `src/` is the library: everything the bot decides or computes, verified with [Verus](https://github.com/verus-lang/verus).
  - `license` tells license keys apart and validates who activated a license; `bot::registration` is the registration
    of a license as a state machine, from key to roles.
  - `bot::refresh` keeps the product cache warm; `bot::cache` and `bot::name_index` hold the names and complete them.
  - `bot::event_handler`, `bot::error_handler` and `bot::commands` answer interactions.
  - `http` builds requests, pages through and interprets responses, and compares versions.
  - `db` maps values to the database and back, and migrates and checks its tables.
- `app/` is the bot around the library: Discord, HTTP, SQLite and the command line. It performs what the library
  decides, and hands back what came of it.
- `tests/` runs the library on concrete values.

## What is proved

Each function states what it returns for every input. Public proof functions state what holds across functions. Some
of them:

- `bot::registration::only_a_free_license_gets_to_its_roles`: a license that is locked, or that somebody else
  activated, grants no roles.
- `bot::registration::roles_follow_a_clean_list`: over a whole registration, roles are granted only after the list of
  activations was found clean.
- `license::free_means_activated_by_nobody_else`: which activations keep a license from a user.
- `bot::refresh::oldest_store_is_next` and `bot::refresh::worker_never_spins`: the order and the pace of the refresh.
- `db::roles::a_rejoin_restores_what_was_granted`: a user who rejoins a server gets the roles of their licenses back.
- `db::escaped_text_matches_itself_alone`: no text acts as a pattern in a database search.
- `error::private_text_stays_private`: what is shown to a user of an internal error.

Functions marked `external_body` call the standard library or an outside crate. Their contracts are not proved; a
comment above each says what is relied on.
