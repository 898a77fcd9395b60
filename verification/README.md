# twitch_bot

A Twitch chat bot that buffers the messages of a chat room and forwards them,
at a fixed interval, to an Azuqua flo over a signed HTTPS request.

- `src/` is the verified library: errors, the command line options and the
  settings file, the message buffer, the reading of chat messages out of IRC
  messages, the chat room and the messages the bot sends to it, the reactions
  of the bot to chat traffic and to its timer, and the signed request that
  invokes a flo.
- `app/` is the program around it: the command line parser, the files, the
  IRC connection and its event loop, the timer and the HTTPS client.
- `tests/` runs the library on concrete values.
