# plug_gui

The decisions behind the editor windows of audio plugins, written in Verus.

`src/` is the verified library:

- `window`, `editor`: an editor that renders a document, frame by frame and event by event, and the
  handle through which the host drives it
- `events`, `keyboard`, `cursor`: input, from what the window reports to what the document takes
- `document`, `net`: the head elements and the resources of the document
- `surface`, `egl`: how the surface is configured, and where its libraries are found
- `egui_editor`, `resizable_window`: an editor with an immediate-mode interface
- `iced_editor`, `timed`: an editor with a message-driven interface
- `resize_hint`, `size`, `scalar`, `text`: what the others share

Numbers with a fraction are carried by their bits (`scalar`): the library compares them and never
computes with them.

`app/` carries the decisions out: the window system, the GPU, files and the GUI toolkits.
`tests/` runs the library on concrete values.
