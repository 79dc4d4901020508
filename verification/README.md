# Kuu

A terminal text editor with Vim and Emacs key bindings, a file tree, undo and
redo, incremental search and syntax highlighting (tree-sitter grammars for
Rust, Python and OCaml; the editor as built here highlights Rust, and a
`Highlighter::with_grammars` gives the others).

The editor's logic is a library verified with Verus (`src/`): the buffer,
the edit history, cursor motions, every key binding of both sets, the file
tree and its ordering, search, and how each line is drawn. The highlighter
keeps tree-sitter behind a few trusted calls keyed by a `Grammar`; what a
query yields over a text is named, and the colored ranges are stated over it. Each operation
states in its contract what it does to the editor's state; the key handlers
state, key by key and mode by mode, what a key press does, and which keys
could not be handled in a given state (where a line is missing or a count
would overflow), so that the program can refuse them beforehand.

`app/` is the program around the library: the terminal, reading keys,
reading and writing files, the settings file, and drawing with ratatui.
Whatever needs the file system is asked for by the library as an `Effect`
and done there.

Settings are read from `config.toml` in the `kuu` directory of the user's
configuration directory:

```toml
key_bind_mode = "vim"      # or "emacs"
show_line_numbers = true
tab_size = 4
```

The `chkey` command switches between the two sets of key bindings.
