# DockerSmith

A full-screen terminal UI suite for Docker — inspect images and containers, check for
updates without pulling, and reclaim disk space. What the program decides is a library whose
functions carry contracts that Verus proves; what touches the terminal, the disk, the network
and the daemon is a thin program around it.

## Layout

- `src/` — the verified library.
  - `text`, `style`, `refmap`, `json`, `clock` — plain values: texts, styled lines, maps by
    reference, JSON, points in time.
  - `util`, `registry` — image references; which requests a registry gets and what its replies
    mean; changelog sources.
  - `docker` — images and containers, disk usage, update checks, the stages of a container
    update, runs of prunes.
  - `config`, `theme`, `cli`, `notify`, `selfupdate` — settings and remembered state, palettes,
    what the headless commands print, notifications, release assets.
  - `md` — Markdown release notes as styled lines.
  - `tui` — the application. `model` says what every event does to it, `app` does it and
    returns the work to be done outside, `laws` proves what holds whatever the user does;
    `sort` orders the lists;
    `layout`, `ui`, `overlays` and `screen` draw it and record what can be clicked.
- `tests/` — the library on concrete values.
- `app/` — the program: arguments, files, HTTP, the Docker daemon, the terminal.

## How the application works

`App::handle_event` takes an event, changes the application, and returns effects: load the
lists, check an image, prune, save. The program carries an effect out and sends what comes of
it back as another event. Nothing is removed, pruned or replaced without a confirmation that
was answered with yes; that, and other promises of the same sort, are the public proof
functions whose names start with `law_`.
