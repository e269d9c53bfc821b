# async_fuser

The decisions of an asynchronous FUSE library, verified with Verus, and a crate around them that
runs sessions on Tokio.

A FUSE filesystem is a process that answers the kernel. `src/` holds what such a process decides:

| module | decides |
| --- | --- |
| `acl`, `dispatch`, `operation` | who may use the filesystem, and which call a request becomes |
| `handshake` | how a session opens, and with which protocol version |
| `event_loop`, `channel` | what an event loop does with what it receives, and what the ends of all loops amount to |
| `mounting`, `mount_options`, `fusermount` | the steps of a mount, and what the kernel and the mount helpers are told |
| `unmount` | the steps of an unmount, and what becomes of a mount whose unmount failed |
| `session`, `runtime` | how a session is set up and ended, and what runs it |
| `open_flags`, `errno`, `error`, `text`, `platform` | what the others need |

Where outside work and decisions alternate, a module holds a state machine: it says what to do next
and takes what came of it. Every executable function carries a contract that says what it returns,
and the properties that span several functions are public proof functions named `lemma_..`.

`app/` performs the actions: it opens the device, makes the system calls, runs the helper and spawns
the tasks. The wire format of requests and replies, the names of options and the search for an error
code by its text come to it through traits.

Systems number their error codes and open flags differently, so the decisions take the numbers as
values (`Errnos`, `OpenFlagTable`); `app/` and the tests have them from `libc`. Constants stand only
for numbers that are the same wherever they are used; the tests hold those of Linux against `libc`
too.
