# abc_chatter_bot

A Discord bot that chats through an AI chat service, runs "chug checks"
(reaction polls about which game to play), generates images and speech,
and reacts to messages with fitting server emotes.

- `src/` is the library, verified with Verus: the text of every message and
  embed the bot posts, the chug-check state machine, the voice command's
  steps, the bookkeeping of the threads in which the bot chats, the requests
  to the outside services and what the bot does with their replies.
- `app/` is the program around it: the Discord client, the commands and
  event handlers, the HTTP clients, the serde bodies and the database
  migration. It hands the library plain values and acts on what comes back.
- `tests/` runs the library on concrete values.
