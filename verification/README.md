# llmconduit

Command line and configuration wizard of the llmconduit gateway, verified with Verus.

- `src/text.rs`: whitespace, decimal numbers, lists.
- `src/json.rs`: JSON objects as `serde_json` holds them, and what is taken on trust of it.
- `src/config.rs`: the config file, and the route that its catch-all profile gives.
- `src/cli.rs`: the command line, and where the config file is.
- `src/wizard.rs`: what the wizard proposes, warns of, and makes of the answers.
- `src/flow.rs`: the dialogue of the wizard, question by question.
- `src/transcript.rs`: whole runs of the dialogue, and what holds of them.
- `src/laws.rs`: what holds of the configs that the wizard emits.
- `app/`: argument parsing with clap, prompts with dialoguer, and the loop around the
  dialogue. Reading and writing config files is left to a `ConfigStore`.
