# mini-crater

Finds the crates that rely on a target crate and builds them locally, first as they are and then
with an updated version of the target crate. This shows the scope of a breaking change before it
is released.

## Layout

- `src/` is the library: the rules of the tool, written in Rust and proved with
  [Verus](https://github.com/verus-lang/verus).
  - `options`, `requirement`, `registry`, `address`, `fetch`, `cache`, `order`: what the user asks for, which
    crates depend on the target, and in which order they are tried.
  - `experiment`, `manifest`, `command`, `checkout`, `message`, `statistics`: the course of the
    experiments and the books on them.
  - `state`, `ui`, `scroll`, `layout`, `saturate`, `trace`: what the terminal shows and how it
    answers to keys.
  - `laws`: what holds between the run, its statistics and the screen.
  - `outside`: what is taken from other crates on trust.
- `app/` is the program around it: the command line, requests, files, commands and drawing.
- `tests/` runs the library.

## Usage

Provide the crate name, the version to upgrade from, and one or more patch lines to substitute in.
The environment variable `RUST_LOG=trace` gives more detail about the process.

```
mini-crater snafu \
  --version 0.8.9 \
  --patch 'snafu = { path = "/Users/shep/Projects/snafu" }' \
  --patch 'snafu-derive = { path = "/Users/shep/Projects/snafu/snafu-derive" }'
```

With `--use-git` the crates come from their repositories. `--pre-command` and `--post-command`
replace the two builds; the commands find these variables in their environment:

- `MINI_CRATER_WORKING_DIR`: the root working directory.
- `MINI_CRATER_EXPERIMENT_NAME`: the name of the crate that is being tried.
- `MINI_CRATER_EXPERIMENT_CHECKOUT_DIR`: the top of the checkout, where there is one.
