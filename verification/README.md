# Dagster Designer desktop shell

The shell puts the Dagster Designer web application into a window of its own. It starts the
application's backend, waits for it, stops it again, remembers where the user keeps their
projects, and fills the menu bar.

`src/` is a library, verified with Verus, that takes the decisions. It performs no input or output:
where a decision depends on what a file or a process says, the library asks for it step by step,
and is told. Its modules are

- `text` and `paths`: text, lines, numbers, and file system paths as bytes;
- `preferences`, `save` and `projects`: what is remembered, how it is saved, and where files live;
- `stale`: clearing a port of the processes that still listen on it;
- `backend`, `spawn` and `stop`: starting, awaiting and stopping the backend;
- `folder`: changing the projects folder;
- `menu`, `page_menu` and `events`: the menu bar, how a page changes it, and what its items do;
- `menu_laws`: what holds of the menu bar as a whole.

Public proof functions whose names begin with `law_` state what holds of several functions
together.

`app/` is the program around the library. It performs what the library asks for: files, processes,
connections, windows and native menus. It is for macOS and other Unix systems: paths are bytes with
slashes between their components, and `lsof` and `kill` clear the port.

`tests/` runs the library on concrete values.
