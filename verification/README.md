# sandbox-server

The decisions of a server that executes untrusted Python and Node.js code in a seccomp
sandbox, verified with [Verus](https://github.com/verus-lang/verus).

`src/` is the library. It holds what the server computes and decides, with contracts:

| Module | What it decides |
|--------|-----------------|
| `config`, `environ` | Settings: the file's, the defaults, the environment's |
| `middleware` | Whether a request has the API key |
| `handlers`, `models` | How a request is carried out, and what it is answered |
| `queue`, `channel` | Which job a worker begins next |
| `runners`, `services` | The script and the process that execute code, and their result |
| `protocol`, `pending`, `session` | The wire protocol of the zygote worker and the requests in flight |
| `services::zygote`, `pool` | The zygote manager, with and without limits |
| `lifecycle` | Startup, and restarts of the zygote |
| `setup` | Packages, and the files of the chroot jail |
| `sandbox_seccomp`, `seccomp_redbear` | The steps into the sandbox and the rules of its filter |
| `crypto`, `json`, `text`, `command` | What the others build on |

The library touches no files, processes or sockets. `app/` does: it reads files, starts
processes, serves HTTP, and performs what the library returns. Functions that alternate with the outside
world are split there: one starts (`run`), another takes in what happened (`finish`,
`read_loop`, `report`).

Properties that relate several functions are proof functions of their own, next to what
they speak of: that what a worker sends is what the caller gets
(`session::answer_reaches_caller`), that base64 cannot break out of the script it is
spliced into (`services::nodejs::eval_call_is_closed`), or that no rule of the filter lets
files be created (`sandbox_seccomp::openat_cannot_create`).
