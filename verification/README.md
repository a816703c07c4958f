# vllm_pd_router

A router for disaggregated inference: each client request is served by a *prefill* worker, which
computes the prompt and one token, and then by a *decode* worker, which carries on from the cache
that the first one hands over. The library is verified with Verus.

## Layout

- `src/` is the library. It decides and computes; it does no input or output.
  - `startup`, `router`, `profiling`: setting a router up, and the profiling that it has under way.
  - `routing`, `headers`, `discovery`: which workers come into question for a request, what the
    load-balancing policies are shown, and how a client is refused.
  - `request`, `request_id`: the prefill request, the decode request and the id that both carry.
  - `exchange`, `direct`, `discovered`: an exchange with two workers as a machine that takes one
    event at a time and says which effects are to be had and what comes next.
  - `json`: JSON documents, on top of `serde_json`.
  - `table`, `text`: small tools.
- `app/` is the HTTP side: it asks policies and registries, sends what the library says is to be
  sent, and hands back what came of it.
- `tests/` runs the library on given values.

## What is proved

Every function has a contract that says what it returns. Laws over whole exchanges stand as public proof functions,
among them: a worker carries a request in its load exactly while it has it in hand, whatever goes
wrong; any request, whatever its body, is taken through both stages; both workers get the same
request id; a call that fails is recorded once, at the worker where it failed; a profiled worker has
one pending timeout, which stops it; a prefill request asks for one token and never for a
stream; the decode worker gets the client's request with nothing changed but what the prefill
worker handed over; log probabilities are merged exactly where they were asked for and the reply is
not a stream.

## What is taken on trust

The contracts of `serde_json` (reading, writing and changing documents), of `uuid` (the shape of a
random id), of `http`'s `StatusCode` as it is shown, and of `String::push` and `str::to_lowercase`.
Each stands where it is used, with what it claims.
