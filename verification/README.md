# aimux

Host-driven language model operations: generating and streaming text, parsing
and repairing the tool calls that models make, replaying recorded calls, and a
C ABI over all of it.

- `src/` is the library, verified with Verus. It holds the decisions: each
  function says in its contract what it returns or changes, and the `law_*`
  proof functions state what holds across functions.
- `tests/` runs the library.
- `app/` is the running side: clocks, tasks, wire decoding and the C ABI. It
  performs what the library's machines ask for and hands back what happened.

Where to start reading in `src/`:

| Subject | Modules |
|---|---|
| JSON documents, text and schemas | `json`, `json_text`, `text`, `sampling` |
| Errors and their texts | `error`, `error_text`, `host_error` |
| Tool calls and their repair | `tool`, `parse_tool_call`, `repair_result`, `repair_laws` |
| Generations | `generation`, `generate`, `generate_options`, `generation_control`, `response_messages` |
| Streams | `stream_part`, `stream_pump`, `stream_text`, `stream_laws` |
| Operations | `operation`, `protocol`, `driver` |
| Recording and replay | `recording`, `replay`, `replay_keys`, `replay_wire`, `replay_stream`, `replay_laws` |
| Wire documents | `wire`, `wire_read`, `wire_laws`, `result_wire`, `openai_output` |
| The host boundary | `host_args`, `host_requests`, `host_calls`, `constructors`, `handles` |

What is not proved is confined to a few functions marked
`#[verifier::external_body]`, in `json_text` and `host_args`. Each makes one
call, or the few calls that belong together, of `serde_json`, `jsonschema` or
the standard library, names them, and says what is taken for granted of them.
