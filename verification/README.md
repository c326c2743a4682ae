# julie-vic-wedding

The RSVP service of Julie & Vic's wedding: guests sign in with Google or
Facebook, get a session token and answer the invitation before a deadline;
administrators generate invitation tokens and send invitation e-mails.

- `src/` is the library, verified with Verus: attendance answers and their
  database encoding, the profiles and OAuth client settings of the two
  providers, session-token claims and signing, the decisions of the database
  conversations, the answers of the HTTP handlers, the RSVP deadline, the
  invitation e-mails and the invitation tokens.
- `tests/` exercises the library on concrete values.
- `app/` is the program around it: the gotham server and its handlers, the
  Postgres access through diesel, the calls to the providers and to Mailgun,
  and the administration commands.
