# load_balancer

An HTTP load balancer with a terminal dashboard. The library (`src/`) holds
the worker pool with its port pool, the three balancing strategies (round
robin, least connections, least load), the strategy registry and the
rule-based decision engines, the request routing and strategy requests, and
the dashboard's state machine. Its functions carry contracts that Verus
proves, except for a few trusted wrappers around calls into other code:
hyper's URI parser, serde_json's parser, `rand`'s random byte, and std's
`char::is_numeric`, `String::push` and `String::pop`. Verus takes the
contracts of these wrappers on trust; each one's doc comment says what is
claimed. The program in `app/` serves HTTP with hyper, draws the dashboard
with ratatui, and starts, forwards to and stops the worker processes. The
same program runs as a worker when started under the name `lb_worker`
(options `--port`, `--num-threads`) or `worker` (port and thread count as
plain arguments); the balancer starts its workers that way.

Layout:

| Path | Contents |
| --- | --- |
| `src/load_balancer/strategy/` | policies, strategies, registry |
| `src/load_balancer/load_balancer.rs` | worker pool and port pool |
| `src/load_balancer/decision_engine/` | rules and engines |
| `src/load_balancer/http.rs` | routing, strategy requests, worker addresses |
| `src/load_balancer/worker.rs` | worker records and process arguments |
| `src/strategy/` | the first strategy interface (snake-case names) |
| `src/tui/` | dashboard state, components, table selection, layout helpers |
| `src/text.rs` | string equality, decimal digits, port parsing |
| `app/` | the program: server, drawing, processes, worker mode |
