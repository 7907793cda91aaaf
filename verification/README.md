# leto

A desktop wrapper for Discord built on a web view. The library in `src/` holds the
decisions the wrapper makes, verified with Verus:

- `injection`: client mods and the scripts and stylesheets they inject — which to load
  from the network and which from disk, how a stylesheet is wrapped in a script, how the
  loaded parts are combined, and the errors reported when loading fails.
- `scripts`: the switchable client mods and the scripts each contributes.
- `window`: what a menu click asks for, the scripts that hand a fetch's outcome back to the
  page, and how a fetch that the page asks for is shaped (method and headers).
- `microphone`: which input sample formats a capture stream supports.
- `rpc`: the rich presence server's settings and start-up errors.

`app/` is the program around it: the window, the web view, the menu, the event loop,
network and disk access, audio capture and the rich presence server.
