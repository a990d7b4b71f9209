# estate_control

The decision logic of the Cell One estate control plane, verified with Verus.

- `src/` is the library. Each module states its behaviour in `requires` /
  `ensures` over spec functions and proves it:
  - `ci`, `strict`: the hosted-CI and pre-merge (`doctor --strict`) checks.
  - `doctor`: the doctor's failures, its one-line summary, expired-lease
    refusals, and the status and enrich-join lines.
  - `decisions`: host prepare / select / revalidate and decision receipts.
  - `export_repair`, `weight_index`: repairing a merge-export that dropped
    MTP tensors and tokenizer files, and the rewritten weight-map index.
  - `coverage`: coverage cites and the hop-coverage subjects.
  - `apply_gate`, `plan_review`: the plan gates of `apply` and its dry run,
    and the risks a plan pull request lists.
  - `formats`: safetensors shard headers and shards, `config.json`, the
    weight-map index, `decision-select.json`, the redaction report, and
    canonical JSON: what is read out of them and what is refused.
  - `help`, `help_pages`: the operator help topics and their pages.
  - `audit`, `feed`, `convey`, `enrich`, `suggest`, `state_files`, `paths`,
    `digest`, `text`: the smaller decisions and the text model they share.
- `tests/` runs the library on concrete cases.
- `app/` is the command-line shell: clap arguments, file reads and writes,
  the journal's serde records, and printing.

Outside calls stand behind trusted items, each with a doc comment saying
what its contract claims: SHA-256 from `sha2`, `String::push`, and the
`serde_json` and `safetensors` parsers and printers, whose results are
named rather than restated.
