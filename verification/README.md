# fossil_git

The logic of a Fossil source-control backend, written and proved in Verus: it
builds the arguments of `fossil` commands, reads what they print, and decides
what to do next.

- `src/` is the verified library. It does no input or output. A task that needs
  several commands is a chain of steps: each function takes what the last
  command printed and returns the next command or the result.
  - `text`, `digits`, `index`, `path`, `unique_map`: lines, words, numbers,
    ordered lists, paths in a checkout, maps.
  - `oid`, `timestamp`, `parents`: object ids, time stamps and lists of parents.
    These hold the calls into `git2`, `time` and `smallvec`; each such call
    stands in one small trusted function whose contract says what it claims.
    The calls into std that Verus does not know are trusted in the same way:
    reading numbers from bytes and showing an id (`oid`), appending a character
    (`text`) and lower case (`timeline`).
  - `info`, `commit`, `details`, `timeline`, `blame`, `diff`, `stash`: history.
  - `status`, `changes`, `numstat`, `check_in`: the state of a checkout, and
    checking it in.
  - `branch`, `remote`, `worktree`, `commands`, `operations`: everything else
    that is asked of `fossil`.
  - `repository`, `setup`: a repository and its caches; cloning, opening and
    making repositories.
  - `git`, `git_actions`, `fossil_actions`, `error`: names, hooks and errors.
- `app/` runs the commands and talks to the file system.
- `tests/` runs the library on concrete inputs.

Properties that relate several functions are public proof functions whose names
begin with `law_`.
