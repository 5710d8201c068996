# viav

Viav is a Discord bot that keeps a guild supplied with voice channels. When a user
joins an empty voice channel, the channel is renamed with a short tag, a copy under
the old name is created so that an empty channel stays free, and a private text
channel with a control deck (lock, hide, mark NSFW) is opened beside it.

- `src/` is the verified library: the topic format of the text channels, the
  commands and reactions, and each flow of the bot as a function from state and
  event to the next state and action, with its contract and laws proved by Verus.
- `app/` is the bot: it connects to Discord with serenity, performs the actions the
  library asks for and hands back what came of them.
- `tests/` runs the library on concrete values.
