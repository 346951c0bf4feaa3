# patina_components

Verified building blocks of UEFI firmware components, written in Verus:

- `smbios`: SMBIOS record management (handle allocation, string pools,
  string updates, lookup), the typed record structures and their
  serialization, the decisions of the EFI SMBIOS protocol, and the
  definitions of the SMBIOS specification (structure layouts, enumerations
  with their numbers, bit fields).
- `acpi`: ACPI table layouts, XSDT entry reads, RSDP validation and the
  sizing of AML nodes.
- `performance`: performance record buffers, the records that HOBs hand
  over, the performance timer's frequency and calibration arithmetic, the
  configuration HOB and the FPDT headers.
- `status_code`: the report status code handler (registration, reports,
  buffering for callbacks at or below TPL_HIGH_LEVEL) and the status code
  data layout.
- `boot`: boot options and the boot sequence (connecting devices,
  signalling End of DXE and Ready to Boot, writing the console variables
  as multi-instance device paths, booting each option under a watchdog,
  the failure handler).
- `variable` and `hid`: reading a variable or a HID report descriptor with
  at most one retry into a larger buffer. A report descriptor is handed to
  `hidparser` only when the bits of each of its reports add up to at most
  `u32::MAX`, so that the parser's `u32` sums cannot overflow.
- `esrt` and a few component types, and the decisions of the Advanced
  Logger and performance components' entry points as step functions.

The boot services, runtime services and hardware accesses that the
components use are outside the library: where an operation needs them, the
library takes their results as values or calls closures handed in by the
caller.

`tests/` holds the tests, run against the compiled library.
