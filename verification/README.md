# subprocess_communicate

Talking to a child process the way Python's `Popen.communicate` does: send it
all of an input, and get back what it wrote to its standard output and standard
error. Each output can be limited, so that a child such as `yes` cannot use up
the memory of its parent.

`src/` decides what to do and is verified. It does no input or output: a
conversation (`communicate::Communication`) names an action, is told what came
of it, and names the next.

- `capture`: one output pipe, what is kept of it and how much more may be.
- `client`: the handlers for readable and writable pipes, suspended wherever a
  pipe has to be read, written to or closed.
- `client_laws`: what each handler does from start to end.
- `communicate`: the conversation, from taking the pipes to returning the output.
- `communicate_laws`: what is returned and what is sent, for every course that a
  conversation can take.

`app/` performs the actions with non-blocking pipes and a poll.

```rust
let (stdout, stderr, result) =
    subprocess_communicate(&mut process, input, Some(130000), None, true);
```

When standard output has been read up to its bound, the last argument decides:
if it is `true`, the call returns and the rest of standard error is not waited
for; if it is `false`, standard error is waited for until it ends or reaches its
own bound. What the child writes beyond a bound in the meantime is thrown away.
