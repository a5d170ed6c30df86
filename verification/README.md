# admin_portal

The verified core of the Himmelblau admin portal, a desktop dashboard for
`aad-tool` and the Himmelblau identity broker.

- `src/` is the library, verified by Verus:
  - `text` — Unicode trimming, decimal text, line and word splitting;
  - `aad_tool` — where `aad-tool` and `pkexec` are found, the command line
    that is launched, and how an exit code and the two output streams are
    reported;
  - `commands` — the `aad-tool` command line of every dashboard action and
    its privilege tier;
  - `broker` — the broker's D-Bus calls, the reading of its replies, and the
    interactive sign-in as a state machine;
  - `system` — the root check and the filtering of GDK cursor warnings;
  - `forms` — the checks of every dashboard form;
  - `ui` — the sections, the start-up machine and the two-step confirmation
    of destructive actions.
- `tests/` runs the library on concrete values.
- `app/` is the program around it: the Tauri backend (process launching,
  D-Bus, GDK log handler) and the Dioxus frontend.
