# df_displmgr

Display topology management: the outputs of a desktop, their modes,
positions, rotations, scale and HDR state, and the staging of changes to
them across several platform backends.

## Layout

- `src/` — the library, written in Verus and verified.
  - `types.rs`, `traits.rs`, `error.rs`, `text.rs` — the data model, the
    edits an output editor stages, the error type and its messages, and the
    number formatting and parsing the backends use.
  - `backends/overlap.rs` — the geometric overlap check every backend
    validates with.
  - `backends/wake.rs` — waking inactive outputs and restoring them.
  - `backends/linux/` — the wlroots, DRM/KMS, KDE and udev backends, and
    the runtime selector `LinuxTopology`.
  - `backends/windows/` — the CCD and GDI backends, modelled on the records
    the Win32 display configuration calls read and write, and the manager
    that routes between them. A CCD commit is a sequence of steps
    (`commit_start`, `after_validate`, `after_apply`, `after_device_info`):
    each takes the system's answer to the previous call and names the next
    call or the result.
  - `backends/unsupported.rs` — the backend of platforms without display
    support.
  - `activation.rs` — saving a layout, restoring it and placing a monitor
    that is switched on.
- `tests/` — the test suite.
- `app/` — the command-line tool and the live session around the library:
  environment detection, the Wayland connection, the DRM device, the
  asynchronous topology interface, serialization and the activation
  sequence.
