# netchecker

A cross-platform internet reachability checker: it probes the local network
standpoint (interface, gateway, raw IP routing), DNS resolution, and a set of
domestic / global / filtered websites in parallel, and reports each as
`PASS` / `FAIL` / `INFO`.

The decisions are a library verified with Verus; a thin program performs the
system calls and network I/O around it.

## Layout

- `src/` — the verified library.
  - `lib.rs` — mode selection, the infrastructure and DNS results, which hosts
    to resolve, pinning resolved addresses onto direct probes, the header.
  - `proxy.rs` — proxy detection from the environment and `scutil --proxy`.
  - `wifi.rs` — reading the SSID out of `ipconfig`/`networksetup`, `nmcli`/`iwgetid`
    and `netsh` output.
  - `sites.rs` — the probe lists and URL hosts.
  - `probe.rs` — the route of each site probe and the verdict on its HTTP outcome.
  - `reach.rs` — the verdict on raced TCP connect attempts.
  - `dns.rs`, `sysinfo.rs`, `net.rs` — resolver bookkeeping, the network
    standpoint, IPv4 addresses.
  - `ui.rs`, `text.rs` — status lines, and the character-level text handling
    that everything above is built on.
- `app/` — the `netchecker` program: command line, system queries, DNS
  lookups, TCP and HTTP probes, printing.
- `tests/` — tests of the library on concrete inputs.
