# deno_server

An HTTP front end for a JavaScript runtime built on deno_core. The script
calls ops to start a server, wait for requests, read their method and
complete their responses.

- `src/` is verified with Verus:
  - `http/whitespace.rs`: splitting a line into whitespace-separated words
    (the Unicode `White_Space` set), with the laws of that split.
  - `http/http_stream.rs`: reading the request line into method, URI and
    version; the response state of one connection (body, status, readiness,
    the waker of the task that waits) and the laws that its operations keep.
  - `http/serve.rs`: the ops' error, where the server listens, and what
    waiting for the next request does with what the queue gave.
- `app/` is the program around it: sockets, tokio tasks, the deno_core ops
  and extensions, and the V8 bootstrap.
- `tests/` runs the library on concrete inputs.
