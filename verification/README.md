# evm_rpc_harness

Checks EVM JSON-RPC endpoints, and compares two of them.

- A *run* asks an endpoint which chain and which node software it has, makes the
  checks that fit, listens to WebSocket feeds if asked to, and reports what
  passed and what failed.
- A *comparison* sends each request of a corpus to two endpoints and reports
  whether the answers are the same, but for transaction and block hashes and the
  order of object members.

## Layout

- `src/` is the library, verified with Verus. It decides which calls are made,
  what each result comes to, what is counted and what is printed. It does no
  input or output.
  - `json`, `hex`, `text`, `failure`: values, quantities, texts, error chains
  - `chain`, `node`, `detect`, `plan`: what is known of an endpoint, and what is
    checked of it
  - `client`, `steps`, `checks`, `replies`, `probe`: requests, and a check as a
    state machine from one result to the next call
  - `subscription`: a feed as a state machine over what happens on a connection
  - `results`: verdicts, the summary and the exit code
  - `diff`, `diff_laws`: comparison, and what holds of every comparison
- `app/` is the command line: arguments, HTTP, WebSockets, files, and the types
  that go over the wire.
- `tests/` runs the library.

## What is taken on trust

All of it stands in `json`, `hex` and `text`, and concerns `serde_json` and the
standard library:

- `serde_json::Value` and `serde_json::Number` are declared and carried without
  looking inside; `value_tree` and `number_view` name what they hold.
- `parsed_json`, `compact_text`, `pretty_text`, `lowercase` and `hex_error_text`
  name what a call returns, without saying how it is found.
- Functions marked `external_body`, and the `assume_specification` for the clone
  of a number, make the calls and say what is believed of them.
