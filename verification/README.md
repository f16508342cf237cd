# libos

The verified core of a library OS for enclaves, in Verus.

- `src/events/`: event primitives. A `Waiter` sleeps on its thread's host
  event fd until a `Waker` sets its woken flag and writes to the fd; a
  `WaiterQueue` holds wakers first come first served; a `Notifier` tells the
  subscribers of an event of it, in order of subscription, through their
  filters. The host calls are not made here: the functions say which call
  to make next (`WaitStep`, `PollRequest`, `EventFdWrite`) and what its
  answer means.
- `src/vm/`: memory areas, their address ranges (`VMRange::subtract`) and
  their permissions (`VMPerms`).
- `src/interrupt.rs`: which threads an interrupt broadcast signals, and how
  many it reached.
- `src/prelude.rs`: address alignment.
- `app/`: the host side: event fd calls, the wait loops, locks around the
  shared queues and notifiers, and interrupt delivery.
