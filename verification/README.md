# agent_tools

The tool-box of a conversational agent: a knowledge base, book indexes,
documents, GitHub, exchange rates, crypto and stock prices, weather, e-mail,
Google Workspace, Bluesky, Facebook Pages and a few system commands, with the
registry the agent calls them through and the system prompt that lists them.

## Layout

- `src/` is the library, written in Verus and verified. For every tool it
  holds what the tool decides: how a call's arguments are read and checked,
  which request is sent (URL, query, headers, body) where the request is an
  HTTP call of the tool's own (the weather tools' coordinates are floats and
  are written into their URL by `app/`), how each kind of reply is turned
  into the answer, and which tools a configuration registers. Contracts state
  these results over spec functions on sequences of characters and JSON
  values. Where a request carries the clock's reading (a trending search's
  date, a calendar window, a forecast's "tomorrow") or a message lettre
  dates itself (a Gmail send), the contract fixes everything but that
  reading. Laws (`law_*` proof functions) state properties that span calls,
  such as what the registry finds after a registration, that registering
  the same tools again changes nothing, that only enabled tools are
  registered, or that a series is listed newest first.
- `tests/` exercises the library on concrete calls and replies.
- `app/` is the service around it: the `AgentTool` trait, HTTP, processes,
  files, SMTP and OAuth, and the function definitions advertised to the
  model. It hands the library plain values and sends what the library plans.

Calls into outside crates that only compute (upper- and lower-casing, URL and
base64 encoding, regular expressions, dates, mailbox parsing, building a
mail message) are made from
the library through small trusted wrappers whose contracts say what the
library relies on.
