# cli_harness

The logic of the command-line tool's integration-test harness, verified with Verus.

- `src/` is the verified library: names of the configuration variables (`env`), the
  scratch git repositories' roots and set-up steps (`repo`), the watch for a marker in a
  container's output (`marker`), the Nix expressions of the test images (`nix`), image
  names and `docker` arguments (`image`), the layout and command lines of
  `systemd-nspawn` containers (`nspawn`), Unix path joining (`path`) and the
  `slirp4netns` network (`network`).
- `app/` performs the file-system, git, process and container work around it.
- `tests/` checks the library on concrete values.
