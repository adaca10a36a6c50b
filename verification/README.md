# ksforge

ksforge turns a change request into a controlled run of a coding agent:
it builds a request (capability, constraints, validation policy, test
scope) around the change, drives the agent phase by phase, validates the
result with commands the user controls, and reports what changed,
durably enough that a run paused on a human decision can be resumed.

## Layout

- `src/` is the library, verified with Verus. Each public function states
  its behaviour in `requires` / `ensures`; the laws that span several
  functions are public proof functions next to the code they speak of
  (`domain/execution.rs`, `application/execute.rs`, `workspace/snapshot.rs`,
  `github/comment.rs`, `domain/workflow.rs`, `domain/constraint.rs`).
- `app/` is the command-line program around it: argument parsing, the
  file store, spawning the agents, `git` / `gh`, and the loop that performs
  the actions that `application::execute::PhaseLoop::step` decides.
- `tests/` runs the library on concrete values.

## Prompt texts

The agent prompts are plain text files read at start-up from the directory
named by `KSFORGE_PROMPTS_DIR`, else from a `prompts/` directory beside the
executable, else from `./prompts`. The library receives them as a
`PromptTexts` value.
