# Dogi

Dogi configures Logitech MX Master 3S mice on Linux: it keeps their settings, writes
them to the device, carries out what their buttons and wheels ask for, watches the
battery and updates itself.

## Layout

- `src/` is the library. It decides everything: what settings mean, which changes a
  device gets and how they are taken back, when the runtime may act, which releases are
  trusted, in which order files are replaced. It performs no input or output. Every
  function states in its contract what it returns, and Verus proves it. Where the work
  alternates between a decision and something that touches the machine, the library
  holds a state machine: it names the next step, and takes what came of it.
- `app/` is the program: the command line, files, sockets, the desktop bus, the virtual
  input device and the network. It carries out the steps that the library names.
- `tests/` runs the library on concrete values.

The mathematical models stand beside the types (`...View`, reached with `@`). Properties
that span several functions are public proof functions whose names begin with `law_`.

## What is trusted

The contracts of the few functions that call other crates are believed: reading and
building proxies (`ureq`), reading and comparing versions (`semver`), SHA-256 (`sha2`),
and reading and verifying SSH signatures (`ssh-key`). Each stands in a small function
whose comment says what is claimed of the call. Of the standard library, it is believed
that `String::push` puts a character at the end.

The HID++ transport, the rules that match an application to a profile, and the desktop
window are not part of this project.
