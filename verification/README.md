# fish_reader

The interactive line reader of a shell as a verified state machine: editing with undo and kill ring,
motions, history search, autosuggestions, completions, the pager, abbreviations, prompts, and the
loop around them.

* `src/` is the library. Every function has a contract that Verus proves, but for a few that are
  trusted: the wrappers in `unicode`, `host` and `term`, and the specifications of character classes
  in `unicode`, which say what std and libc give. The state of a reader is
  `data::ReaderData`; its mathematical view is `data::DataView`, and every operation is a function
  on that view. `world::World` holds the stack of readers and what they share. `laws` and the
  `law_` functions of the other modules state what holds across operations.
* `app/` runs the library: it owns the terminal, reads events, and carries out the
  `action::Action`s that the reader queues. What the rest of the shell contributes comes in through
  one trait.
* `tests/` runs the library on concrete values.

The library does no input or output. What only the shell can tell is passed in; what the shell has
to do is queued, in the order in which it is to happen.
