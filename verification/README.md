# halod_drivers

Drivers for desktop hardware: Logitech HID++ devices, NZXT fan hubs and Kraken coolers,
Philips Evnia monitors, Razer mice, SteelSeries Arctis headsets, ZOTAC graphics-card
lighting and NVIDIA temperature sensors.

`src/` holds what the drivers decide and compute: the packets they send, how replies are
read, the state they keep. It performs no I/O. Each function states in its contract what
it returns, and Verus proves it. Laws that span several functions are public proof
functions next to the code they speak of.

`app/` performs the I/O: it opens devices, sends what the library hands it and feeds back
what was read. Positions on a drawing surface and other fractions, which the library keeps
as integers, become floating-point numbers there.

`tests/` runs the library on concrete values.

Every vendor has a module with `protocols` (wire formats) and `devices` (what a user can
set). `rgb`, `types`, `text` and `bytes` are shared.

Two outside crates are called from the library, behind contracts that are taken on trust:
`image` decodes and resizes pictures, `q565` encodes frames for the Kraken screen.
