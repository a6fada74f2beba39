# vrc_yutils

A companion for VRChat: it keeps the signed-in user's friend lists (in game,
on the website, offline) up to date from the VRChat pipeline stream, follows
the game's output log to notify XSOverlay when players join or leave, and
serves the lists to a local page.

- `src/` is the library, verified with Verus: the records (`model`), the
  friend lists and the events that change them (`users`), start-up
  (`init`), the pipeline stream (`session`), the output log (`log`),
  notifications (`notify`), signing in (`auth`), text restoration
  (`sanitize`) and character-level string helpers (`text`).
- `app/` is the program around it: the web server, the HTTPS client, the
  websocket and UDP connections, files, and the serde forms of the records.
- `tests/` exercises the library on concrete values.
