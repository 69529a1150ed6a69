# app_builder

A verified library for FerroWasp RTIC applications on STM32F4 boards. It
validates a declared application (board hardware, platform configuration,
components, tasks and their bindings, shared resources, safety channels),
resolves a composition into an application (`application::resolve`:
standalone tasks, components expanded into their tasks and resources with
generated names, task-local state, safety channels, collision and interrupt
checks, software-task dispatchers), and lowers a resolved application to the
Rust source fragments of the generated STM32F405 RTIC application. Every
function in `src/` is checked by Verus against its `requires`/`ensures`
contract.

Resolution takes the name that the boot-time SPI service gives its IMU sample
as an argument: that name comes from the board's I/O service crate.

Layout:

- `src/` – the library. Declarations (`board`, `gpio`, `pins`, `dma_route`,
  `timing`, `platform_config`, `task`, `state`, `safety_channel`, component
  declarations), validation (`composition`, `component`, `task_graph`,
  `bindings`, `state_rules`, `input_catalog`), resolution and expansion
  (`application`, `resolve`, `endpoint_resolution`, `component_expansion`,
  `expand`, `task_state`, `serial_endpoint`), STM32F405 lowering and source
  rendering (`hardware_lowering`, `lower`, `serial_lowering`,
  `resource_lowering`, `initialization`, `service_initialization`,
  `dshot_initialization`, `init_source`, `imports`), the schema-era backend
  (`legacy`, `legacy_interrupts`), the MSP OSD helpers (`serial_osd`,
  `osd_overlay`), and the command-line operation state machine
  (`operations`, `runner`, `rendered`). Properties that relate several
  functions are stated as public `lemma_*` proof functions next to the
  functions they are about.
- `tests/` – executable tests of the library on concrete values.
- `app/` – the command-line program: argument parsing, process execution and
  file I/O around the library's operation state machine.
