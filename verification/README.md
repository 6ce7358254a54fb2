# my_desktop_app

The logic behind a gesture-driven Windows desktop shell, verified with Verus.

- `src/` is the verified library:
  - `category`: the eight start-menu categories and the table that files
    start-menu folders under them (`folder_to_category`);
  - `index`: the index from program names to categories, built from a scan
    of the start-menu `Programs` directories and completed by a fallback table;
  - `desktop`: which desktop items are shortcuts and which category each
    item gets (`categorize_desktop_item`);
  - `window_list`: which top-level windows are offered for switching, and
    which one is the application's own;
  - `data_uri`: file icons (PNG) and the wallpaper as `data:` URIs;
  - `input`: mouse buttons, click events and relative cursor moves;
  - `win_path`: file names of Windows paths, of shortcut targets and of
    process images;
  - `greeting`, `text`: the greeting command and character-level helpers.
- `app/` is the Tauri shell: it reads the file system, the start menu and the
  window list through the Windows API, hands what it read to the library and
  carries out what the library decides.
- `tests/` runs the library on concrete values.
