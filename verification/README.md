# pigeo

A small end-to-end messaging service: clients register, send messages to other
users and fetch the messages addressed to them, over TLS, with the server keeping
users and messages in PostgreSQL.

- `src/` is the verified library: the request and answer types, the server's
  decisions for each request (as a handler that asks for one database operation at
  a time and is handed what came back), how a refusal is answered, how the client
  reads each answer, and the laws that tie these together (`src/laws.rs`).
- `app/` is the program around it: TLS connections, the PostgreSQL queries, JSON
  encoding of requests and answers, threads and the command line.
