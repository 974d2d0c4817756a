# F1 Notifications

A Discord bot that keeps a calendar of F1, F2, F3 and F1 Academy sessions in
Discord channels, with a small web interface to manage events and sessions.

The logic lives in `src/` and is verified with Verus:

- `model`: events (weekends), sessions, messages and instants.
- `text`: decimal text of integers and its parsing.
- `time`: the calls into `chrono` that format instants.
- `calendar`: the calendar messages, five weekends per message.
- `bot`: the F1 and feeder messages and when a message is rewritten.
- `laws`: properties that span several of the functions above.
- `icon`, `markup`, `html`, `pages`: the HTML of the web interface.
- `auth`: Discord login, allowed users and session cookies.
- `discord`: Discord endpoints, interactions and their signatures.
- `error`, `routes`: form checks and the answers of the web routes.

`app/` holds the program around it: the database, the HTTP server, the
Discord client and the background loop, which calls the library for every
decision it takes.
