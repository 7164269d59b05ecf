# laundry_monitor

Firmware logic for an ESP32 that watches an SW-420 vibration sensor on a
washing machine or dryer and posts a notification to a local ntfy server
once the machine has been still for its idle timeout.

- `src/` is the verified library: the per-appliance state machine
  (`appliance`), the HTTP request and the decisions of the exchange with the
  server (`notify`), time arithmetic on the microsecond system timer
  (`time`), decimal parsing (`utils`) and the network adapter's decisions
  (`wifi_adapter`).
- `app/` is the firmware around it: hardware and radio setup, the socket and
  timer calls, logging, and the trait impls that bridge the WiFi driver to the
  network stack.
- `tests/` exercises the library on concrete values.
