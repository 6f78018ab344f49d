# bitbucket_cli

`bb` is a command-line client for Bitbucket Cloud and Bitbucket Server/Data
Center: pull requests, repositories, pipelines, issues, webhooks,
deployments, artifacts, variables, SSH keys, workspaces and projects.

The crate is split in two.

- `src/` is the library, written in Verus. It holds the decisions of every
  command: which repository a command works on (from `--repo`, the
  environment and the `origin` remote), the URLs it sends to and the
  values its requests carry (such as a new pull request's title,
  branches and approvers, or a schedule's cron and branch), how answers
  are filtered and shown, the configuration file's settings and aliases,
  pagination, and the errors with their messages.
  Every function carries a `requires`/`ensures` contract that Verus proves;
  the public `law_*` proof functions state properties that span several
  functions. Calls into `regex`, `chrono` and a few `std` functions go
  through small trusted wrappers whose contracts name what those calls
  return.
- `app/` is the program around it: argument parsing with `clap`, HTTP with
  `reqwest` (laying the library's request values out as JSON), git, files,
  prompts and printing.

`tests/` runs the library on concrete values.
