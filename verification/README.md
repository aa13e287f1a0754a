# recursive_tui

The decision logic of a terminal front end for a coding agent, written in Rust
and verified with Verus, with the terminal program around it.

- `src/` is the library. Its functions carry contracts that Verus proves, but
  for the few wrappers around outside code, whose contracts are believed. It
  holds the state of the interface (`app`), the prompt (`input_state`), what
  keys, events, commands, panels and dialogs do (`app/*`), the transcript
  (`transcript`, `render`), the slash commands (`commands`, `skill_commands`,
  `command_menu`), the pickers (`pickers`, `model_picker`, `completion`,
  `ollama_probe`), the agent worker as a state machine (`backend`,
  `backend/worker`), what is decided before a runtime is built
  (`runtime_builder`), and a plain chat front end (`chat`, `keymap`). Laws
  that relate several functions stand in `app/laws.rs` and beside the
  functions they are about.
- `tests/` runs the library on concrete values.
- `app/` is the program: the terminal loop, the task that owns the agent
  runtime, the file system, the network. It links the agent core, the crate
  `recursive`.

The library reads nothing from the outside but the clock. What else it has to
know of the world is handed to it in `App::around`, and what has to be done
outside is left in the state or handed back as a value.

Beliefs about code outside the library are few: the wrappers and specifications
in `text.rs`, `clock.rs` and `json.rs`.
