# Taurin

Taurin is a desktop toolbox (a Tauri window drawn with Yew): image
compression and editing, CSV viewing, PDF splitting and merging, Markdown to
PDF, a Kanban board, a scratch pad, password generation, text diff, a regex
tester, a JSON formatter, Base64, keyboard shortcut and command references and
a character counter.

Layout:

- `src/` — the `taurin` library, verified with Verus. It holds what the tools
  decide: the state of each tool and how every user action and every answer of
  the backend changes it, the text each tool shows, the Markdown renderer, the
  reference tables and their search, the command palette's fuzzy ranking, and
  where a dropped file goes. Each public function has a contract; the laws
  (`law_*` proof functions) state what holds across calls.
- `tests/` — tests of the library on concrete values.
- `app/` — the window itself: the Yew components, the calls into the Tauri
  host, timers and the clipboard. It draws the library's state and hands the
  host's answers back to it.
