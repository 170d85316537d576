# learnopengl_utils

Helpers for small OpenGL programs, split in two:

- `src/` — the library proper, with contracts and proofs. It holds the decisions taken between
  OpenGL calls, as plain data with contracts:
  - `status`: reading a compile/link status and the NUL-terminated info log
    (`get_status_and_output`, `info_log_text`);
  - `data`: vertex buffers, element buffers and vertex arrays, and the
    commands that bind and fill them;
  - `shader`: the steps that build a program from two shader sources
    (`Shader::new` starts a `ShaderBuild`), with proved properties of every
    run, and the commands a linked program issues (activation, integer
    uniforms, deletion);
  - `command`: the OpenGL commands the library plans.
- `app/` — ordinary Rust: context creation with glutin, the calls into the
  `gl` crate that carry out the planned commands, and the floating-point
  helpers (float uniforms, matrices, triangles).
