# remapper

An input remapper for Linux: it reads the events of an input device, runs
them through a profile's mappings (simple remaps, macros, tap/hold keys and
combos) and writes the result to a virtual device.

## Layout

- `src/` is the library, verified with Verus. It holds the configuration
  model and its migration, the key and axis name tables, the mapping
  handlers, the engine's event processing, the device searches, the daemon's
  and the command line's decisions, and the state of the graphical
  interface's components. Each public function states what it returns in its
  contract; the laws that relate several functions are public proof
  functions named `law_*` and `lemma_*`.
- `app/` is the program around it: argument parsing, the configuration file,
  the kernel's input devices and `uinput`, the daemon's socket, prompts and
  the systemd user service.
- `tests/` runs the library on concrete values.

The few calls into std and outside crates that the library makes (the
clocks, lower-casing, the platform's configuration directory) stand behind
small trusted wrappers whose doc comments say what is assumed of them.
