# rtk

Command routing, execution planning and output filtering for programs that run
shell commands on behalf of others. The library is written in Verus: its
functions carry contracts, and the contracts are proved.

The library decides and never performs. A command line goes in; what comes out
is the next thing to do, until there is a result:

- `shell_lexer`, `plan`: command lines that are literal words joined by `&&`,
  `||` and `;`, and nothing else. `spelling` relates plans to their characters.
- `route`: the filter that a command goes through, if there is one.
- `platform`: the shell and the paths of the platform.
- `chain`, `execute`: which commands of a chain run, what they come to
  together, and when the untouched command line goes to the shell instead.
- `process`, `capture`: timeouts, cancellation, bounded output, and the order
  in which a child is started, watched, stopped and collected.
- `failure`: failures, classified by whether a retry could repeat effects.
- `guard`, `runner`: what is shown, printed and recorded of a finished command.

`app/` holds what performs: processes, pipes, threads and printing. The
embedding program supplies its filters, recovery log and usage history through
`Host`.

Whether a command runs on Windows decides which shell it falls back to and how
the path of a program is split.
