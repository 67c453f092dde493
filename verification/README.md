# libtock_apis

Userspace drivers for the system call interface of the Tock operating
system, with their behaviour proved by Verus.

A driver does three things: it asks the kernel for something (a command, a
buffer or upcall to share), it waits for the kernel to answer, and it reads
what the answer means. The library in `src/` holds the first and the last
as plain values with contracts:

- `command_return` and `error_code` read the registers of a kernel reply;
- `syscall` describes a synchronous operation as a `Transaction` (shares in
  order, at most one command, then a wait for the upcall) and steps through
  it one event at a time, with laws on every run of events;
- each driver module builds the commands and transactions of its driver
  and reads the replies and upcalls into the driver's own results;
- `net::ieee802154::rx` is the frame ring buffer shared with the radio;
- `build_scripts` and `codegen` choose application layouts and read build
  settings.

`app/` performs the system calls through `libtock_platform` and feeds what
the kernel answers back to the library; `tests/` run the library against
simulated kernels.
