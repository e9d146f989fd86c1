# Woosh Viewer

The operator's program for a Woosh robot: it follows the robot's data stream, shows the
map, the poses and the plan in the embedded Rerun viewer, records tasks on the operator's
computer, and sends navigation commands.

`src/` is the library: the program's rules, written in Verus. What each function returns
or changes is stated in its contract and proved; the properties that span several
functions are public proof functions whose names begin with `law_`. The proofs rest on
a few trusted items: the calls into `serde_json` and `toml`, and some functions of the
standard library. Each says in its doc comment what is believed of the call.

| module      | what it is about                                                       |
|-------------|------------------------------------------------------------------------|
| `config`    | the command line, the configuration file, the operator's address input |
| `toml_file` | the flat TOML documents that the configuration is kept in              |
| `http`      | requests to the control service and its answers                        |
| `control`   | the operator's commands, request by request                            |
| `json`      | JSON documents as plain data                                           |
| `status`    | what the data stream says of the robot                                 |
| `task`      | the words for the states of a task                                     |
| `sidecar`   | the state of the data service and of its connection                    |
| `drawing`   | what is drawn for a message                                            |
| `logger`    | what has been drawn and recorded, and what is still to be              |
| `occupancy` | the grid of the dynamic map                                            |
| `history`   | the recorded tasks                                                     |
| `panel`     | the operator's panel                                                   |
| `places`    | where the configuration and the recorded tasks are kept                |
| `text`      | operations on text                                                     |
| `double`    | double-precision numbers, carried by their bits                        |

`app/` is the program around it: the window, sockets, threads and files with the wording
of their errors, and the floating-point arithmetic of the picture. It needs Rerun 0.36.1
with its native viewer.
