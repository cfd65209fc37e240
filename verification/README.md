# surrealmud_portal

The telnet portal of a MUD server that keeps its world in SurrealDB. The
library in `src/` holds the protocol logic, verified with Verus; `app/` is
the program around it: the tokio event loop, the sockets, the configuration
files and the database connection.

Library modules:

- `codes`: telnet command and option bytes.
- `codec`: writing telnet events as bytes and reading them back.
- `options`: the supported options, their negotiation state, the
  outstanding handshakes.
- `capabilities`: what is known of a client.
- `events`: the messages into and out of a session.
- `protocol`: the session state, opening the negotiation, and the answers
  to WILL, WONT, DO and DONT.
- `terminal`: window size (NAWS) and terminal types (TTYPE, MTTS). The
  count of terminal type answers moves from 0 to 1 with the first answer
  and no further, so a later answer is always handled as the second; the
  third-answer branch, where MTTS bits are read, is reached only when the
  session's owner sets `ttype_count` to 2.
- `session`: the other steps of a session: subnegotiations, typed lines,
  messages from the game, the end of negotiation.
- `text`: line endings and small string operations.
- `scan`: trimming white space and reading the decimal number of an MTTS
  bit field, as `str::trim` and `str::parse::<usize>` do.
- `outside`: the calls into std and serde_json, with what each is trusted
  to do.
- `laws`: properties across operations: refusal of unsupported options,
  negotiation that cannot loop, the session invariant, the option table
  kept for a session's life, the link to the game after negotiation, a
  closed session staying closed, the terminal type count that stays at
  one, NAWS and SGA turned on and off, MTTS bits
  that only add, line endings, and the round trip of typed lines.
