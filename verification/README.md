# havit_monitor

A tray monitor for the battery of the Havit MS966WB wireless mouse, and the
machinery that lets its Windows executable switch its own icon.

The library in `src/` holds the parsing, planning, naming and formatting logic,
with its contracts proved by Verus:

- `ico` — parsing `.ico` files and building the `RT_GROUP_ICON` directory;
- `swap` — the steps of an icon swap, the resource writes, the stale images,
  the executable's folder and file name, leftover files, the recorded icon name
  and the current-icon cache;
- `win` — NUL-terminated UTF-16 buffers, the swap lock's name, the buffer
  growth used to read the executable's path, and the cache of the launch path;
- `monitor` — what the monitor does on each event: the refresh every 60 seconds,
  the tray menu, a click on the tray icon, closing the window;
- `icon_set` — checking the declared icon set and generating the `AppIcon` enum
  and the resource script at build time;
- `battery` and `battery_icon` — the HID read request, the interpretation of the
  receiver's answer, the snapshot the monitor keeps, and the tray label and icon;
- `text` — decimal and hexadecimal formatting for the messages;
- `stubs` — the swap entry points away from Windows.

`app/` is the program around it: the Win32 calls and file operations (with the
small steps tied to them, such as committing resource writes only once all of
them have succeeded), the HID device, the timer that carries out the refresh,
and the tray UI.
