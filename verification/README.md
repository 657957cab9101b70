# herdr_file_viewer: the commit graph section

A terminal file viewer shows the commit graph of its repository in a section under the file tree.
This crate is the logic of that section, verified with Verus.

- `src/history.rs`: the arguments for `git log --graph` and the reading of its output. Each row of
  output is mapped back to its commit by an id embedded in the row.
- `src/controller.rs`: the session state of the section. Showing and hiding it, the all-branches
  scope, the divider, the cursor with paging, copying a commit id.
- `src/presenter.rs`: the draw model, with styled lines from `ratatui`.
- `src/laws.rs`: what holds across the intents, such as that pages join up without a gap.
- `app/`: the git process, the clipboard and the renderer, which the controller is given.
