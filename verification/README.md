# capos

Capability-based access control for a small kernel, verified with Verus.

- `src/` is the verified library: permission sets (`flags`), capabilities
  (`capability`), capability spaces (`cspace`), naming objects and the naming
  service (`naming_object`, `naming_api`, `path`), the system calls that move
  capabilities between threads and use them (`sys_caps`, `sys_naming`), the
  file server protocol (`file_protocol`) and the application side of the
  capability system calls (`user_capability`). Calls into the spin lock
  crate stand behind the trusted items in `lock`.
- `app/` holds what talks to the machine: system call entry points that read
  the caller's memory through raw pointers, the loops of the file server and
  its client, and the services (scheduler, file system, pipes, system call
  instruction) these reach through traits.
- `tests/` runs the library on concrete values.
