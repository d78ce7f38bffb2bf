# ec2

A command line tool for EC2 instances: list, start, stop, restart, wait for, change the type of and
terminate them. Its logic is a library that Verus verifies.

- `src/`: the library.
  - `session`: a command from the command line to its end, as a state machine. It takes what the
    service and the user report and gives back the actions to perform.
  - `commands`: the actions and messages of each command.
  - `states`, `instances`: state filters and marks; summaries of what the service describes.
  - `render`, `table`, `json`: instances as a table and as a JSON document.
  - `text`: numbers, splitting, joining and trimming.
  - `laws`: what holds across functions and over whole sessions.
- `app/`: the program around it: the command line, the terminal and the service.
- `tests/`: tests of the library.

Calls into `comfy_table`, `serde_json` and the case mappings of the standard library are trusted;
each is documented where it is made.
