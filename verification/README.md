# nosv

A futures-based runtime for nOS-V whose decisions are verified with Verus.

`src/` is the verified library. It holds the runtime's rules as state machines on
plain values: which descriptor a wake submits, how a task ends, which timers are
due, where a completion is routed, what a driver does after a pass, how a failed
construction is rolled back. Every function states what it returns and changes, and
the laws that span several functions are stated as public proof functions next to
the machines they speak of.

`app/` is the runtime around the library. It owns what the machines cannot hold:
native descriptors, threads, locks, wakers, the kernel ring, sockets and the futures
themselves. It performs each operation that a machine asks for and hands the outcome
back. Where a machine reports a violated protocol, it stops the process, because the
ownership of native state is then uncertain.

## Modules

| Module | Content |
| --- | --- |
| `task` | Wakes, cooperative abort, polling, joining and retirement of a task |
| `runtime` | Lifecycle, task registry, spawning, `block_on`, construction, shutdown |
| `time`, `clock` | Timers and deadlines on a monotonic clock |
| `io_uring` | Contexts, admission, completion routing, cancellation, draining and owned operations |
| `park` | Parking and waking of the driver tasks |
| `io`, `fs`, `net` | Owned operations, positioned files, numeric TCP addresses |
| `framing` | Length-prefixed frames on a byte stream |
| `topology`, `affinity`, `memory` | Checked native queries and placements |
| `error`, `errno`, `text` | Errors, status codes and their texts |
| `waker`, `table` | Waker slots and the map that the machines share |

## What is trusted

Seven small functions stand for constants and one function of outside crates:
`eintr`, `eagain` and `ebusy` (`errno`), `open_abi` (`fs`), `pollin` and `pollout`
(`net`) for `libc`, and `more_completions` (`io_uring::driver`) for `io-uring`. Each
says in its comment what it claims.

## Building

The verified library needs `libc` and `io-uring`. The runtime in `app/` also needs
`nosv-sys`, which finds an installed nOS-V with `pkg-config`, and `socket2` and
`tokio`. The platform is Linux.
