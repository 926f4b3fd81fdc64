# embedded_services

Services of an embedded controller, specified and proved with Verus.

- `src/` is the verified library: the HID descriptor and command encodings, the HID report
  descriptor parser and combiner with its report-ID remapping, the EC memory map and its messages,
  type-C port events and port lookups, power policy data and the device- and policy-side state
  machines of a power device, the debug and ACPI battery message
  serializations, and the transport routing table. Every public function carries a contract;
  the laws that relate functions (round trips, inverse lookups, read-after-write) are public proof
  functions beside them.
- `app/` holds what runs around the library: service contexts in statics, channels between tasks,
  the traits that device drivers implement, and the serde forms of the routing identifiers.
- `tests/` exercises the library on concrete values.
