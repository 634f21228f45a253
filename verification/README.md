# webview2

Finds out whether the WebView2 runtime is installed or disabled on a Windows
host, and plans the native dialogs that its setup shows.

`src/` is a verified library that never touches the operating system:

- `host`: what can be asked of a host, what it can reply, and a recorded host.
- `scan`: a search through the registry, one question at a time.
- `criteria`: what it takes to be installed or disabled, and the keys searched.
- `detection`: the two probes, and their verdict on a recorded host.
- `laws`: what holds of the probes on every host.
- `layout`: the dialogs and where their controls lie.
- `dialog`: how a dialog reacts to what happens to it.

`app/` runs the probes and the dialogs on a live host through `winsafe`.
