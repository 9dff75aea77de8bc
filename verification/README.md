# corplink

The configuration model and DNS management decisions of a corplink VPN client, verified
with Verus.

- `src/config.rs`: the configuration (`Config`, `BoolOr`, routing and WireGuard settings),
  and how the values a configuration file leaves out are filled in.
- `src/digest.rs`: the device identifier, the MD5 digest of the device name in hexadecimal.
- `src/dns/`: DNS modes and managers. A manager does no I/O: it returns the steps
  (`DnsAction`) that set or restore the DNS settings, and takes back what reading steps read.
- `src/text.rs`: whitespace, trimming, lines, words and fields of command output.
- `app/`: JSON (de)serialisation of the configuration, loading and saving the file, and
  carrying out DNS steps.
