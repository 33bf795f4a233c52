# jg_launcher

A launcher that starts a JVM on a signed JAR. It refuses a JAR whose
Ed25519 signature (kept in the archive comment) does not verify, keeps
debugging, agent and attach options away from the JVM, defines a bundle of
runtime classes, decrypts protected resources and rewrites
`java.net.URL::openConnection` so that its result passes through a hook.

The library in `src/` holds the logic, verified with Verus:

- `args_parser`: the command line as a state machine (`ArgsParser`), the
  classification of each argument, the launch options and the JVM options,
  with the laws that no debugging, agent or class path option reaches the JVM
  over any run of the parser, that attaching is switched off, and that
  `--disable-@files` stays in force.
- `cfg_parser`: the tokenizer of `@argument` files.
- `jar_info`: the signature trailer of the JAR comment, the main class of the
  manifest, and the signed region of the file.
- `aes_util`, `crypto`, `codec`: AES-256-GCM opening, Ed25519 checking, hex
  and base64, each outside call behind a small trusted wrapper.
- `class_util`, `class_file`: the rewrite of `java.net.URL`'s class file —
  reading and writing it with `jclass` behind trusted wrappers, adding the
  hook's constants, wrapping the return of `openConnection` and stretching
  its local variable tables.
- `runtime_classes`: the format of the runtime class bundle.
- `jvm_util`, `launcher_helper`, `text`, `error`: the version report, class
  names, string helpers and the error type.

`app/` is the program around it: reading files and the JAR archive, JNI and
JVMTI, and the process entry point. `tests/` runs the library on concrete
values.
