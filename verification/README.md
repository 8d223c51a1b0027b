# pkger

A library for building RPM, DEB, PKG and gzip packages from declarative recipes
inside containers. Everything under `src/` is written in Verus: each function
carries a contract and each module states the laws it keeps.

Layout of `src/`:

- `template` — the `${{ VAR }}` template language: lexer, parser, rendering.
- `value`, `strmap`, `text` — parsed documents as plain values, small string maps
  and the string helpers every other module builds on.
- `recipe` — recipes: metadata and its per-image dependencies and patches,
  environment, steps, targets, loading rules and the package descriptions
  (`control`, `.spec`, `PKGBUILD` fields) a recipe turns into.
- `build` — the decisions of a build: which steps run on which target, the
  directory layout inside a container, the commands that fetch sources, install
  dependencies and make packages, reading their output, and the stages of a build.
- `runtime` — container options and the output of commands run in a container.
- `cli` — the command line tool's model: operating systems and package managers,
  TOML recipes, images on disk and the saved state of built images, build plans and
  jobs, generated recipes, log filters and DEB control files.

`app/` holds the program around the library: reading and writing files, YAML and
TOML through serde, merging recipes with their base, and the command line.
`tests/` runs the library on concrete values.
