# agentx

The core of the AgentX agent platform, verified with Verus: cluster
management (nodes, service discovery, load balancing, cluster state, health
checking), error recovery with circuit breakers, distributed tracing, the
plugin marketplace and developer ecosystem, protocol adapters (MCP, OpenAI
Assistants) and the generators of deployment and CI/CD files.

## Layout

- `src/` is the verified library. Each module states what its functions do
  in `requires`/`ensures` over spec functions and views; the public proof
  functions named `lemma_*` state the properties that hold across calls
  (for example that round robin reaches every target, that uninstalling
  undoes an installation, or that a circuit breaker opens at its threshold).
  Calls into `dashmap`, `chrono`, `uuid`, `rand`, `serde_json`, `tonic` and a
  few std functions stand behind small trusted wrappers whose doc comments
  say what is assumed of them.
- `app/` is the asynchronous runtime around the library: tokio tasks and
  locks, HTTP probes, configuration files, the marketplace's files, JSON
  messages, and the parts computed in floating point (sampling, alert
  thresholds, autoscaling decisions, benchmark statistics).
- `tests/` runs the library on concrete values.
