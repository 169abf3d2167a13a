# kobovnc

A VNC client for Kobo e-ink readers, as a verified library (`src/`) and a thin
command-line program (`app/`).

The library states and proves, with Verus:

- `view::gui` — the layout of the settings screen (fields, buttons, toggles, the
  console, the keyboard and the menus) and how it answers each event;
- `view::toggle_button` — the two-state button of that screen;
- `view::dispatch` — how an event travels through the widgets of that screen, the
  events they send, and the screen itself;
- `event_handling` — what a session does with a touch, a button or a swipe: the
  pointer events it sends, how swipes pan the view over a larger remote screen, and
  when the session ends;
- `settings` — how the events of the settings screen change the next session's settings;
- `scaling` — where an unscaled remote screen lies on the device's screen;
- `dirty` — the list of regions waiting for a refresh, and its bounding box;
- `session` — each step of a running session: which part of the pixels and copies
  the server sends falls in view, the region each dirties, when to ask for the next
  frame, and when to refresh the screen partly or fully;
- `rfb` — the bytes of the RFB protocol that a session reads and writes;
- `client` — pixel formats, authentication answers, update requests, the
  post-processing table, 1-bit expansion and refresh decisions.

`app/` reads the command line, runs the loops of the settings screen and of the
session on the library's answers, holds the connection to the server, and holds
what computes with floating-point numbers (scaling to fit, the contrast curve). The
reader's framebuffer and input drivers are not part of this project: `app/` keeps the
screen in memory and takes input events from a channel.

The custom 1-bit encoding (`--encoding`) is refused with an error before any
connection: its number belongs to the servers that offer it and is not known here.
When a server asks for the password or Apple Remote Desktop authentication, the
connection ends with an error: their ciphers are not part of this project.
