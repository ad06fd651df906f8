# plows-gpu

Multi-vendor GPU telemetry and control (NVIDIA NVML, AMD SMI, Intel Level Zero).

- `src/` is the verified library: the decisions and formatting behind device
  identity, process lists, cached readings, the AMD SMI session, the collector's
  vendor filter and collection plan, and the control commands. Every public
  function carries a contract proved by Verus; the laws that span functions are
  public proof functions named `law_*`.
- `app/` is the program around it: dynamic loading of the vendor libraries and
  the calls into them, floating-point metrics, and the command-line front end.
- `tests/` runs the library on concrete values.
