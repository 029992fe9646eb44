# azalea-shell

The logic of the Azalea Wayland desktop shell's widgets and services, written
in Verus and proved against its contracts.

- `src/` — the verified library, one module per area: the media-player widget
  (`media`), NetworkManager states and the network widget (`network`), the
  notification server and cards (`notification`), bluetooth device menus
  (`bluetooth`), application search and the launcher (`search`), the taskbar
  shortcut (`shortcut`), D-Bus name discovery (`discovery`), the clock
  (`time`), the image component (`image`), audio polling (`audio`), the widget
  configuration traits (`window`), and shared helpers (`text`, `keyed`).
  Properties that relate several operations are stated as public proof
  functions named `law_*`.
- `tests/` — tests on concrete values.
- `app/` — the D-Bus servers and proxies, the clock, image loading, the weather
  and the floating-point volume and brightness levels, built around the
  library.
