# ya-net-gateway

A gateway that accepts connections on a local socket and forwards each into a
virtual network, where a service listens. The logic is a library verified with
Verus; sockets, tasks and timers are left to the program around it.

## Layout

- `src/network/virt.rs` keeps the connections of a virtual network: how one is
  registered, overwritten, established, closed and found again for a packet that came in.
- `src/network/net.rs` answers the network's messages and keeps the routes.
- `src/network/stack.rs` says what the network stack is asked for.
- `src/network/channel.rs` hands out the channels of a network.
- `src/network/laws.rs` states what holds of the connections from call to call.
- `src/gateway.rs` decides on accepted connections and forwards them.
- `src/pump.rs` moves bytes between sockets and channels.
- `src/probe.rs` gives a token to whoever connects.
- `src/api.rs`, `src/model.rs` and `src/control.rs` are the management and the
  control interface.
- `src/addr.rs`, `src/error.rs`, `src/table.rs` and `src/text.rs` are what the
  rest is written in.
- `app/` is the program: it performs the steps that the library asks for and
  hands their outcomes back.

A loop that waits is a function from an event to the next step in the library.
What only the program can make (the halves of a channel, a future, a socket) goes
through the library in type parameters.

## What is trusted

- `String::push` and `String::from_utf8_lossy` of the standard library.
- The texts by which `ya-relay-stack` shows a socket description and the error for
  an endpoint that is no IP endpoint.
