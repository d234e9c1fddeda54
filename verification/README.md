# mhfz_launcher

The decision logic of a Monster Hunter Frontier Z launcher, verified with Verus.

- `src/user.rs`: remembered users per endpoint (local and remote tables), the
  keyring target of an endpoint, the order in which a password is searched
  (keyring, then credentials file), and the credentials file's contents.
- `src/strmap.rs`: a string-keyed map kept as a list with no key twice.
- `src/launch.rs`: the Linux launch as a state machine: each step takes the
  report of the work asked for last (a file written, a path found, a folder
  listed, a process started) and asks for the next; laws about it are proved
  there.
- `src/command.rs`: the Wine, wineboot, wineserver, registry and game commands.
- `src/fonts.rs`: the MS Gothic whitelist and the registry names of fonts.
- `src/linux.rs`: SteamOS detection, environment defaults, the log file.
- `src/xinput.rs`: the XInputPlus files and the outcome of installing them.
- `src/text.rs`: text search, Unix path joining, decimal numbers.

`app/` holds the I/O: the system keyring, files, JSON, processes and the
loop that runs the launch state machine.

The user tables and the credentials file are string-keyed maps. vstd gives
`std::collections::HashMap` a model only for keys whose hashing it knows
(integers, not `String`), and its own `StringHashMap` cannot list its
entries, which saving the tables needs. So `src/strmap.rs` keeps each map
as a list of entries with no key twice, proved to stand for a `Map`.
