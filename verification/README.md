# Hyperspace service

How a Hyperspace node is put together and started.

A node is a few dozen parts (client, backend, import queue, network, voter, ...)
that are made one after the other, each from earlier ones. Which parts a node has,
what each is made from, and which background tasks it runs depend on its
configuration. `src/` decides all of that and proves it right; `app/` takes the
decided steps on a substrate node.

- `service` lays out full nodes, light nodes and chain operations: it turns a
  configuration into the sequence of steps to take.
- `action`, `component` and `rpc` say what a step is and what it works on.
- `config`, `metrics`, `keystore` and `error` hold the configuration, the metrics
  registry, remote keystores and errors.
- `event` picks the network events that authority discovery follows.
- `runtime` gives the shape of what a runtime and a client must offer.
- `startup` takes the steps one by one and stops at the first failure.
- `wiring` and `laws` prove what holds of every node: steps find the parts they
  work on and use none twice that can be used once; the network starts last, and
  never after a failure; only authorities sign; optional tasks run exactly when
  asked for.

Of the dependencies, `substrate-prometheus-endpoint` and `sc-keystore` serve
`src/`, and `futures` serves `app/`, which filters the stream of network events
with it.
