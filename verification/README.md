# amber_sensor

Verified core of the Amber sensor board and the host tools that drive it.

`src/` holds the logic, each function with a contract proved by Verus:

- `layout`, `fpga_flash`, `board_flash`: the partition of the FPGA image flash,
  SPI NOR command framing, bounds and alignment checks, erase planning.
- `page`, `flash_file`, `programmer`, `session`: checksummed pages, the host's
  image of a segment, the sensor's page-by-page programming and read-out, and
  the host's side of that protocol (acknowledgement, read-back comparison,
  and the phases of a flashing session).
- `flash_task`: the flash tasks' operations as state machines (erase, then
  program page by page; read back on request), with the state they report.
- `framing`: COBS framing and USB packetisation of serial messages, and the
  receiving end that reassembles frames from packets.
- `calibration`, `sensors`: ADC resolution conversion, reference voltage,
  temperature and current-sense arithmetic.
- `camera`, `fpga`, `nvm`, `state_machine`, `flash_control`, `power`, `flow`,
  `debug_led`, `comms`: the firmware's subsystems as state plus the decisions
  their tasks take (commands, capture plans, parameter storage, LED patterns).
- `user_params`, `console`, `mock`: the host tools' parameter editing (hex
  text), terminal decisions, and the dashboard's simulated firmware cycle.

`app/` is the host-side glue: files, JSON, PNG output, the connection to a
sensor, the tools' loops, and the dashboard's web socket and real-valued
battery model.
