# grok_build_proxy

A local proxy that lets Grok Build use Codex and Kimi models. Grok Build speaks
the Responses protocol; the proxy decides which model serves a request, brings
the request into the form that the provider takes, and repairs or translates the
stream that comes back.

`src/` is the library, written in Verus: every rule of the proxy is a function
with a contract, and what holds across functions is proved beside it, mostly in
files named `laws.rs`. `app/` is the program around it: the command line, files,
sockets, the clock and the terminal. `tests/` runs the library.

| Modules | What they hold |
|---|---|
| `json`, `toml`, `text`, `numbers`, `urls`, `clock`, `order`, `table`, `names` | values and texts, and the calls into the crates that parse and write them |
| `catalog`, `modelmap` | the models that are served, aliases, and the `-fast` routes |
| `proxy` | routes, headers, request identity, prompt caches, the request for Codex, and the answer |
| `sse` | the repair of a Responses stream: frames, the assembler, the terminal response |
| `provider` | Kimi: endpoints, credentials, the request, and the translated stream |
| `auth`, `codexcli`, `kimi_cli`, `cli` | credentials, sign-in and the settings of commands |
| `grokconfig`, `doctor`, `report` | Grok Build's configuration, findings about a setup, and reports |
| `events`, `store`, `monitor` | what is observed of requests, and how the monitor keeps and shows it |

What the library takes from other crates stands behind items marked
`#[verifier::external_body]` or `assume_specification`; the comment above each
says which function it calls and what is claimed of it.
