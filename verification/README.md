# dataman

A terminal explorer for CSV and SQLite files. CSV files are read into an SQLite
database in memory; the user moves through the tables, filters and transforms
columns with regular expressions, edits cells, runs SQL, and saves the result.

The library under `src/` is written in Verus and its contracts are proved:

- `controller`: the commands, the keys that run them, the state machine of the
  input line, and the controller that decides what each key does.
- `model`: the database and the operations on its tables, the page of rows on
  screen and its column widths, the SQL statements the operations run, the CSV
  import, the regular-expression functions registered in SQLite, and the table
  of tables.
- `libstuff`: sheets of columns and rows held in memory.
- `text`: string building (decimal numbers, joining).

The calls into rusqlite, regex and csv stand behind small trusted functions. Those
of regex and csv state what the crates document of their results; those of
rusqlite state how rows and registered functions come back, but not what SQLite
answers, which depends on what the database holds. The database keeps, as ghost
state, the transactions it handed to SQLite (with the rollback after a failed
one), a log of the queries SQLite answered with their answers and of the single
statements it was handed with their parameters, the last page it read with its
query, and the SQL functions it registered. The contracts say from these which
table and column an operation read as the current ones, what it sent for them,
and what was done with the answer. Functions that work on a bare connection (the
table of tables, the CSV export) write the same kind of log into a `SqlLog`.

`app/` is the program around the library: the command line, reading and writing
files, the terminal (crossterm and ratatui), and the main loop.
