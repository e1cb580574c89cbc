# deepseek_cli

Decision logic of the DeepSeek command-line tools, written in Verus.

- `src/` is the library. Every function there carries a `requires` / `ensures`
  contract that Verus proves: the workspace-settings cache, the apps-tools cache
  and its generation tickets, turn-environment validation, session and rollout
  error mapping, goal metrics, home-directory resolution steps, credential
  header values, plugin fixture layout and path-segment encoding. Calls into
  `sha1`, `rama-http` and a few `std` functions sit behind small trusted
  wrappers whose doc comments say what is assumed of them.
- `app/` is ordinary Rust around the library: file system and environment
  access, serde copies of library types, and the loops that feed outside
  events into the library's step functions.
- `tests/` exercises the library through its public interface.
