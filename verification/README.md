# mac_cleaner

A console tool that frees disk space on macOS: caches, logs, the Trash,
Xcode artefacts, developer tool caches, system data, browser caches, Docker
data and old macOS installers.

- `src/` is the verified library (Verus): the target catalogue and its
  builders, Unix path joining, text trimming and prompt answers, physical
  size accounting with hard links counted once, the rows shown for targets,
  the cleanup session (confirmation, high-risk confirmation, skipping of
  targets that need rights the process lacks or that hold nothing, and the
  accounting of freed bytes) and the main menu.
- `app/` is the program around it: terminal output and prompts, directory
  walks, deletions and outside commands. It performs each action the
  cleanup session asks for and hands the result back.
- `tests/` runs the library on concrete values.
