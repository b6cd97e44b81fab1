# passrat

A terminal password manager. Services, their accounts, security questions and shortcuts are
kept in an SQLite vault; the screens are a lock screen, a home list of services with a
filter, a two-pane view of a service's accounts and their details, and edit forms.

## Layout

- `src/` is the library, verified with Verus: the text helpers (`text`), calendar dates
  (`date`), the records (`models`) and how they are written out in messages (`record_text`), the field checks (`validators`), the edit forms
  (`forms`) and how a field is written into its record (`applicators`), the account details
  and form rows (`helpers`), the columns of the vault's rows (`db`), a list selection
  (`list_state`), each screen's key handling (`modes`), and the application's state machine
  (`app`), which hands the work that needs the vault, the clipboard or the terminal back to
  its caller as a `Request`.
- `app/` is the program around it: the terminal loop (crossterm, ratatui), the SQLite calls
  (rusqlite), the clipboard (arboard) and the data directory (xdg).
- `tests/` runs the library on concrete values.
