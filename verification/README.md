# lab_inventory

A console inventory system for a laboratory: items with inventory numbers
and statuses, their maintenance history, categories, vendors, user accounts
with two roles (lab manager, assistant), and an audit trail of every change.

- `src/` is the verified library (Verus):
  - `models` — the records, and the text codes under which roles and item
    statuses are stored (read back exactly; unknown codes fall back).
  - `text` — string equality, blank detection as `trim().is_empty()` sees
    it, the `%search%` pattern, decimal reading and writing of integers.
  - `auth` — bcrypt password hashes, the login decision, the initial
    `pushnyavka` lab manager account.
  - `menus` — what each numbered choice means on each screen for each role,
    and the access rules (assistants never reach administration).
  - `queries` — how list searches are narrowed.
  - `audit`, `records` — audit events, their action names and details, and
    the time-stamped rows handed to the store.
- `app/` is the terminal program around it: the SQLite store (`rusqlite`),
  the prompts, and the session loop.
