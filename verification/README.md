# bloginator

A command-line generator for small static blogs. `bloginator build` reads
`./bloginator.toml` (or the file given with `-c`), lays the command-line
options over it, clears the output folder (once it is marked safe with a
`.build-folder` file or the user agrees), copies `index.html`, and renders
every markdown file under `posts/` into `post_template.html` in place of
`{{POST_CONTENTS}}`.

Layout:

- `src/` is the library, verified with Verus: resolving the configuration
  (`config.rs`, `cli.rs`), choosing the log level (`log.rs`), the file-system
  checks, their failure messages and the clearing gate (`fsutils.rs`), and
  rendering posts (`post.rs`, with string helpers in `text.rs`). The markdown
  conversion is the one call into an outside crate; its contract is trusted.
- `app/` is the program: argument parsing, reading the configuration file,
  logging, and all file-system I/O. It panics where a library check fails.
- `tests/` runs the library on concrete values.

The configuration file sets `verbose` at top level and `output_folder` in a
`[build]` table.

Paths are held in the library as the bytes the operating system uses, so any
path the system accepts passes through unchanged; the program converts them
with the Unix path extensions.
