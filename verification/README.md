# leaf

The decision-making core of the leaf proxy, written in Verus: every function
under `src/` carries a `requires`/`ensures` contract that Verus proves.

## Layout

- `src/wire.rs`: the IP, TCP and UDP header checks and field reads of
  `smoltcp::wire`, stated over octets.
- `src/classify.rs`, `src/stack.rs`: what a packet is (its connection tuple,
  transport ports, whether it opens a TCP socket or a UDP flow) and the
  socket tables of the user-space stack.
- `src/inbound.rs`: the packet inbound's framing, Fake DNS mode and the
  destination of each session and datagram.
- `src/endpoint.rs`: the packet queues under the stack (FIFO, proved).
- `src/netsh.rs`, `src/text.rs`: reading `netsh` tables and building its
  command lines.
- `src/config.rs`: rewriting a Shadowsocks proxy into its outbound chain.
- `src/outbound.rs`: chain, failover, try-all and multiplexer decisions.
- `src/runtime.rs`: the runtime registry, reload/shutdown routing and the
  start sequence as a state machine.
- `src/stats.rs`, `src/console.rs`, `src/services.rs`: traffic counting,
  line buffering for the debug console, and the service types.
- `app/`: the unverified shell around the library: smoltcp devices and
  interface, tokio socket loops, `netsh` processes, the C callback table and
  the global runtime registry.
- `tests/`: tests of the library on concrete values.

Laws of the library are public proof functions named `lemma_*`.
