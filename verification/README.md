# agent_orchestration

The decisions behind three parts of an agent application, written in Rust and proved with Verus:

- starting child agents from a conversation: which calls are accepted, which requests are in
  flight, and which history event ends which request (`start_agent`, `launch`, `startup`,
  `outcome`);
- the card that asks the user to confirm an orchestration and that reports how it went
  (`orchestrate`, `card`, `by_action`);
- the repository picker of a tab configuration, and the key binding that opens it (`repo_picker`,
  `branch_picker`, `keymap`).

Each function states in its contract what it returns. What holds across calls is stated by the
proof functions in `start_agent_laws`, `orchestrate_laws` and `picker_laws`.

The outcome of a request travels through a channel of the `async-channel` crate. What is assumed
of that crate is stated in `outcome`; nothing is assumed of any other.

`app/` connects the library to the application: its models, its services and its UI toolkit.
