# shyper

The control logic of a driver that runs one virtual machine on the Shyper
hypervisor, verified with Verus.

- `src/` is the library. It decides everything and does nothing outside: each
  operation names the command to run, the file to write or the path to look at,
  and takes what came of it.
  - `config`: the hypervisor settings, their defaults and their check
  - `device`, `pool`: queued devices, and which image stands behind each disk
  - `json`, `kata`: the JSON documents that the hypervisor reads
  - `start`: the start of a machine as a state machine
  - `inner`, `driver`: the machine and the driver around it
  - `command`, `error`, `text`: command lines, errors, text
  - `laws`: what holds of all of it together
- `app/` runs the commands, reads and writes the files and holds the processes.
- `tests/` runs the library on concrete values.

The JSON documents are parsed, edited and written by `serde_json`; `src/json.rs`
states what the library relies on there.
