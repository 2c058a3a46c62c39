# unity_ls

A language server for Unity C# scripts. Above each script's class it shows a
code lens that counts, and lists, the lines of the project's scenes
(`.unity`), prefabs (`.prefab`) and assets (`.asset`) that attach the script
as a component, found through the GUID in the script's `.meta` file.

- `src/` is the library, written in Verus and verified: the document store,
  the text operations (lines, suffixes, the `guid:` field, decimal numbers), the reading of the
  GUID from a `.meta` file, the search of asset files, the class line, the
  code lenses, and the handling of LSP requests and notifications. Calls into
  `saphyr`, `regex`, `tree-sitter`, `url`, `lsp-types`, `gen-lsp-types`,
  `lsp-server` and `fxhash` stand behind small trusted functions whose
  contracts say what the library relies on.
- `app/` is the server program: the stdio transport of `lsp-server`, the
  decoding and encoding of LSP messages with `serde_json`, and the reading of
  files and walking of the `Assets` directory.
- `tests/` runs the library on concrete inputs.
