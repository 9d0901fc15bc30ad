# bora

The verified core of bora, a terminal workspace manager: what its sidebar,
menus, dialogs and repository configuration decide, written in Verus with
contracts that the verifier proves.

- `src/` is the library. Every function in it is verified against its
  `requires`/`ensures`; the `law_*` proof functions state properties that
  hold across calls (a repeated section update reaches one section, a
  probe returns what the cache stored, every navigator row is drawn once,
  distinct linked worktrees get distinct ports, ...).
  - `sections`: project layout sections and the create/update verbs.
  - `bora_config`, `config_cache`: repository commands from `.bora.toml`
    and wt's `[scripts.run.*]`, their precedence, and the per-repository
    load cache.
  - `worktree_list`: `git worktree list --porcelain` parsing and port
    allocation.
  - `menus`, `plugins`: context menus and plugin actions.
  - `navigator`, `lists`, `geometry`: navigator lines, list cursors, and
    sidebar hit tests.
  - `state`, `github`, `workspace`: worktree dialogs, sidebar widths on a
    config reload, GitHub picks, and workspace moves.
  - `theme`, `session`: palettes and theme resolution; session-wide
    decisions.
  - `live_reload`: what a live reload of the configuration changes, per
    section, and what it reports.
- `tests/` exercises the library on concrete values.
- `app/` is the runtime around it: reading settings files, running git,
  and the process-wide configuration cache.
