# fiscal_core

The verified core of a French tax simulation engine (income tax, savings,
property, business and transmission tools), written in Verus.

- `src/` — the library, every function proved against its contract:
  - `tools`: the catalogue of tool names and the dispatch of a name to its handler;
  - `error`: the engine's error and its messages;
  - `arguments`: integer argument checks, the income tax year, and family tax
    shares counted exactly in quarter shares;
  - `rule_ids`: identifiers of the registry rules each computation cites, and
    the small tables that pick a rule, an allowance or a usufruct share;
  - `freshness`: age of the fiscal data and when it is stale (dates read by chrono);
  - `registry`, `registry_laws`: loading the sourced rules from domain
    documents, rule lookup, cited sources and coverage, with the laws that
    loading and citing obey;
  - `contract`: the number of tools the JSON contract declares (read by serde_json);
  - `text`: character-level string helpers.
- `app/` — the host side: JSON arguments, the floating-point computations of
  each tool, reading the registry's TOML documents (from `FISCAL_DATA_DIR`,
  default `data/`) and the WebAssembly binding.
- `tests/` — tests of the library on concrete values.
