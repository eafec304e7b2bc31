# twilio_rs

A phone agent. A caller speaks to it over a Twilio media stream; Deepgram writes down what is
said, OpenAI answers, and Google reads the answer out. When the call is over, the caller is sent
a text message about each answer, and the call is stored in Postgres.

- `src/` is the library, verified with Verus: what the agent does about each message, how it
  collects and speaks an answer, what it asks for, what it stores, and what it tells Twilio.
- `app/` is the program around it: sockets, HTTP services, the database and the clock. It performs
  the actions that the library decides on and hands back what came of them.
- `tests/` are tests of the library.

What is said of a function stands in its contract. What holds of several functions together stands
in proof functions whose names begin with `law_`, most of them in `src/laws.rs`. The library trusts
the `base64` crate to encode and decode the format that `src/b64.rs` defines, and std to know UTF-8.
