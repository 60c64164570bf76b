# photos

The core of a photo-sharing GraphQL service, written in Verus and proved
against its contracts.

`src/` is the verified library:

- `text`, `paths`, `ids`, `checks`, `formats`, `times` — strings and their
  models, path extensions as `std::path::Path` reads them, UUID text, field
  rules, picture formats by extension, instants written as text;
- `validation` — the user forms and their rules;
- `login`, `accounts` — the decision steps of logging in, signing up,
  verifying an address and updating a profile, with laws over runs of steps,
  and the session's user entry across log-in and log-out;
- `upload`, `videos`, `processor`, `worker` — where uploads are stored,
  the rows recorded for them, the announcements sent to the workers and
  what the workers read back from them;
- `payments` — the M-Pesa push request, its answer and the purchase steps;
- `mailer`, `errors`, `models` — the verification mail, error texts, rows.

`app/` is the server around it: HTTP, GraphQL, the store, the
mail service, M-Pesa and the message queue.
