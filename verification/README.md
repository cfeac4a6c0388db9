# argo

The decision logic of a self-healing agent framework, verified with Verus.

- `src/` is the verified library: error classification and the heal
  strategies with the engine's order of trial (`classifier`, `heal`),
  post-mortem lessons (`postmortem`), the growth cycle that turns past errors
  into patterns and proposals (`growth`), memory modes, keys and context
  overflow (`memory`), configuration checks and `${NAME}` expansion
  (`config`), provider requests and replies (`llm`), one agent run as a
  conversation (`execution`), loop agents (`loop_agent`), the orchestrator
  (`orchestrator`), worker pools and spawned children (`pool`, `spawn`), the
  MCP connector (`mcp`) and the command line's decisions (`cli`).
- `app/` is the `argo` program around it: argument parsing, files, HTTP,
  Redis, waiting, and the floating-point scoring of outputs.
- `tests/` exercises the library.
