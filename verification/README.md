# qqbot

A QQ chat bot that speaks the OneBot protocol and answers through the iFlow
chat-completion API.

- `src/` is the verified library: the message models, the conversation memory
  of users and groups, the routing of incoming events, the settings and their
  carrying-over from an outdated settings file, and the decisions of the chat
  client (authorisation, retries, key renewal, tool calls, replies).
- `app/` is the program around it: the WebSocket connection, the HTTP requests,
  the settings file, the daily job, and the serde forms of the library's types.
- `tests/` runs the library on concrete values.
