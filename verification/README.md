# paladin-gtk

Front end of a vault for one-time passwords. The behaviour of its dialogs,
lists and workers is a verified library; the widgets around it are ordinary
Rust.

- `src/` holds the library. Each dialog is a state with a function from message
  to next state and request; each worker's result is classified by a function
  with an exact contract. Public proof functions state what holds across calls.
- `tests/` runs the library on concrete values.
- `app/` holds the program: widgets, files, and the calls into the vault engine.

Values of the vault engine reach the library as arguments or through closures,
so every contract holds whatever the engine answers. Secrets live in the types
of `src/wiping.rs`. The library states that a wiped value is empty; that its
memory is overwritten is the work of the `zeroize` and `secrecy` crates.
