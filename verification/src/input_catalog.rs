//! Explicit registry of repository-owned Rust inputs and of the selectable
//! applications, with the structural checks that keep both complete,
//! unique, and confined.

use vstd::prelude::*;

use crate::text::{concat3, concat5, str_eq};

verus! {

/// Ownership class of one compiled Rust input.
#[derive(Clone, Copy, Debug, PartialEq, Eq, Structural)]
pub enum InputKind {
    /// Physical board facts outside the builder workspace.
    Board,
    /// App composition, configuration, component, or verification input.
    App,
    /// HAL-independent task input under top-level `tasks/`.
    PortableTask,
    /// App-specific task input under the selected app.
    AppTask,
    /// Host-side STM32F4 task declaration owned by the builder backend.
    BackendTask,
}

/// One explicitly registered repository Rust input.
#[derive(Clone, Copy, Debug)]
pub struct RustInput {
    /// Stable catalog identity.
    pub id: &'static str,
    /// Physical ownership class.
    pub kind: InputKind,
    /// Repository-relative source path.
    pub path: &'static str,
}

/// Registers one input.
pub fn input(id: &'static str, kind: InputKind, path: &'static str) -> (r: RustInput)
    ensures
        r == (RustInput { id, kind, path }),
{
    RustInput { id, kind, path }
}

/// The complete explicit input inventory.
pub open spec fn registered_inputs() -> Seq<RustInput> {
    seq![
        RustInput { id: "foxeer_f405_v2_board", kind: InputKind::Board, path: "boards/foxeer-f405-v2/board.rs" },
        RustInput { id: "foxeer_f405_v2_composition", kind: InputKind::App, path: "apps/foxeer-f405-v2/app_composition.rs" },
        RustInput { id: "foxeer_f405_v2_golden_services", kind: InputKind::App, path: "apps/foxeer-f405-v2/components/golden_services.rs" },
        RustInput { id: "foxeer_f405_v2_live_config", kind: InputKind::App, path: "apps/foxeer-f405-v2/live_config.rs" },
        RustInput { id: "foxeer_f405_v2_platform_config", kind: InputKind::App, path: "apps/foxeer-f405-v2/platform_config.rs" },
        RustInput { id: "foxeer_f405_v2_reconciliation", kind: InputKind::App, path: "apps/foxeer-f405-v2/verification/golden_reconciliation.rs" },
        RustInput { id: "actuator_fault_reporter", kind: InputKind::PortableTask, path: "tasks/actuator_fault_reporter.rs" },
        RustInput { id: "imu_control_bridge", kind: InputKind::PortableTask, path: "tasks/imu_control_bridge.rs" },
        RustInput { id: "inhibited_actuator", kind: InputKind::PortableTask, path: "tasks/inhibited_actuator.rs" },
        RustInput { id: "observe_button_change", kind: InputKind::PortableTask, path: "tasks/observe_button_change.rs" },
        RustInput { id: "foxeer_control", kind: InputKind::AppTask, path: "apps/foxeer-f405-v2/tasks/foxeer_control.rs" },
        RustInput { id: "foxeer_safety_master", kind: InputKind::AppTask, path: "apps/foxeer-f405-v2/tasks/foxeer_safety_master.rs" },
        RustInput { id: "golden_flash", kind: InputKind::AppTask, path: "apps/foxeer-f405-v2/tasks/golden_flash.rs" },
        RustInput { id: "heartbeat", kind: InputKind::AppTask, path: "apps/foxeer-f405-v2/tasks/heartbeat.rs" },
        RustInput { id: "usb_cdc", kind: InputKind::AppTask, path: "apps/foxeer-f405-v2/tasks/usb_cdc.rs" },
        RustInput { id: "adc_observation", kind: InputKind::BackendTask, path: "tools/app-builder/src/backends/stm32f4/tasks/adc_observation.rs" },
        RustInput { id: "blink_led", kind: InputKind::BackendTask, path: "tools/app-builder/src/backends/stm32f4/tasks/blink_led.rs" },
        RustInput { id: "button_exti", kind: InputKind::BackendTask, path: "tools/app-builder/src/backends/stm32f4/tasks/button_exti.rs" },
        RustInput { id: "dshot_dma", kind: InputKind::BackendTask, path: "tools/app-builder/src/backends/stm32f4/tasks/dshot_dma.rs" },
        RustInput { id: "dshot_service", kind: InputKind::BackendTask, path: "tools/app-builder/src/backends/stm32f4/tasks/dshot_service.rs" },
        RustInput { id: "esc_manager", kind: InputKind::BackendTask, path: "tools/app-builder/src/backends/stm32f4/tasks/esc_manager.rs" },
        RustInput { id: "esc_uart_irq", kind: InputKind::BackendTask, path: "tools/app-builder/src/backends/stm32f4/tasks/esc_uart_irq.rs" },
        RustInput { id: "imu_data_ready", kind: InputKind::BackendTask, path: "tools/app-builder/src/backends/stm32f4/tasks/imu_data_ready.rs" },
        RustInput { id: "io_watchdog", kind: InputKind::BackendTask, path: "tools/app-builder/src/backends/stm32f4/tasks/io_watchdog.rs" },
        RustInput { id: "msp_osd", kind: InputKind::BackendTask, path: "tools/app-builder/src/backends/stm32f4/tasks/msp_osd.rs" },
        RustInput { id: "periodic_control_tick", kind: InputKind::BackendTask, path: "tools/app-builder/src/backends/stm32f4/tasks/periodic_control_tick.rs" },
        RustInput { id: "physical_actuator", kind: InputKind::BackendTask, path: "tools/app-builder/src/backends/stm32f4/tasks/physical_actuator.rs" },
        RustInput { id: "serial_discard", kind: InputKind::BackendTask, path: "tools/app-builder/src/backends/stm32f4/tasks/serial_discard.rs" },
        RustInput { id: "serial_rx_bridge", kind: InputKind::BackendTask, path: "tools/app-builder/src/backends/stm32f4/tasks/serial_rx_bridge.rs" },
        RustInput { id: "serial_rx_dma_irq", kind: InputKind::BackendTask, path: "tools/app-builder/src/backends/stm32f4/tasks/serial_rx_dma_irq.rs" },
        RustInput { id: "serial_rx_idle_irq", kind: InputKind::BackendTask, path: "tools/app-builder/src/backends/stm32f4/tasks/serial_rx_idle_irq.rs" },
        RustInput { id: "serial_tx_dma_irq", kind: InputKind::BackendTask, path: "tools/app-builder/src/backends/stm32f4/tasks/serial_tx_dma_irq.rs" },
        RustInput { id: "serial_tx_worker", kind: InputKind::BackendTask, path: "tools/app-builder/src/backends/stm32f4/tasks/serial_tx_worker.rs" },
        RustInput { id: "simple_osd", kind: InputKind::BackendTask, path: "tools/app-builder/src/backends/stm32f4/tasks/simple_osd.rs" },
        RustInput { id: "spi_imu_owner_service", kind: InputKind::BackendTask, path: "tools/app-builder/src/backends/stm32f4/tasks/spi_imu_owner_service.rs" },
        RustInput { id: "spi_imu_parser", kind: InputKind::BackendTask, path: "tools/app-builder/src/backends/stm32f4/tasks/spi_imu_parser.rs" },
        RustInput { id: "spi_imu_poll", kind: InputKind::BackendTask, path: "tools/app-builder/src/backends/stm32f4/tasks/spi_imu_poll.rs" },
        RustInput { id: "spi_imu_rx_dma_irq", kind: InputKind::BackendTask, path: "tools/app-builder/src/backends/stm32f4/tasks/spi_imu_rx_dma_irq.rs" },
        RustInput { id: "spi_imu_timeout", kind: InputKind::BackendTask, path: "tools/app-builder/src/backends/stm32f4/tasks/spi_imu_timeout.rs" },
    ]
}

/// The complete explicit input inventory, in registration order.
pub fn rust_inputs() -> (r: Vec<RustInput>)
    ensures
        r@ == registered_inputs(),
{
    let mut out: Vec<RustInput> = Vec::new();
    out.push(input("foxeer_f405_v2_board", InputKind::Board, "boards/foxeer-f405-v2/board.rs"));
    out.push(input("foxeer_f405_v2_composition", InputKind::App, "apps/foxeer-f405-v2/app_composition.rs"));
    out.push(input("foxeer_f405_v2_golden_services", InputKind::App, "apps/foxeer-f405-v2/components/golden_services.rs"));
    out.push(input("foxeer_f405_v2_live_config", InputKind::App, "apps/foxeer-f405-v2/live_config.rs"));
    out.push(input("foxeer_f405_v2_platform_config", InputKind::App, "apps/foxeer-f405-v2/platform_config.rs"));
    out.push(input("foxeer_f405_v2_reconciliation", InputKind::App, "apps/foxeer-f405-v2/verification/golden_reconciliation.rs"));
    out.push(input("actuator_fault_reporter", InputKind::PortableTask, "tasks/actuator_fault_reporter.rs"));
    out.push(input("imu_control_bridge", InputKind::PortableTask, "tasks/imu_control_bridge.rs"));
    out.push(input("inhibited_actuator", InputKind::PortableTask, "tasks/inhibited_actuator.rs"));
    out.push(input("observe_button_change", InputKind::PortableTask, "tasks/observe_button_change.rs"));
    out.push(input("foxeer_control", InputKind::AppTask, "apps/foxeer-f405-v2/tasks/foxeer_control.rs"));
    out.push(input("foxeer_safety_master", InputKind::AppTask, "apps/foxeer-f405-v2/tasks/foxeer_safety_master.rs"));
    out.push(input("golden_flash", InputKind::AppTask, "apps/foxeer-f405-v2/tasks/golden_flash.rs"));
    out.push(input("heartbeat", InputKind::AppTask, "apps/foxeer-f405-v2/tasks/heartbeat.rs"));
    out.push(input("usb_cdc", InputKind::AppTask, "apps/foxeer-f405-v2/tasks/usb_cdc.rs"));
    out.push(input("adc_observation", InputKind::BackendTask, "tools/app-builder/src/backends/stm32f4/tasks/adc_observation.rs"));
    out.push(input("blink_led", InputKind::BackendTask, "tools/app-builder/src/backends/stm32f4/tasks/blink_led.rs"));
    out.push(input("button_exti", InputKind::BackendTask, "tools/app-builder/src/backends/stm32f4/tasks/button_exti.rs"));
    out.push(input("dshot_dma", InputKind::BackendTask, "tools/app-builder/src/backends/stm32f4/tasks/dshot_dma.rs"));
    out.push(input("dshot_service", InputKind::BackendTask, "tools/app-builder/src/backends/stm32f4/tasks/dshot_service.rs"));
    out.push(input("esc_manager", InputKind::BackendTask, "tools/app-builder/src/backends/stm32f4/tasks/esc_manager.rs"));
    out.push(input("esc_uart_irq", InputKind::BackendTask, "tools/app-builder/src/backends/stm32f4/tasks/esc_uart_irq.rs"));
    out.push(input("imu_data_ready", InputKind::BackendTask, "tools/app-builder/src/backends/stm32f4/tasks/imu_data_ready.rs"));
    out.push(input("io_watchdog", InputKind::BackendTask, "tools/app-builder/src/backends/stm32f4/tasks/io_watchdog.rs"));
    out.push(input("msp_osd", InputKind::BackendTask, "tools/app-builder/src/backends/stm32f4/tasks/msp_osd.rs"));
    out.push(input("periodic_control_tick", InputKind::BackendTask, "tools/app-builder/src/backends/stm32f4/tasks/periodic_control_tick.rs"));
    out.push(input("physical_actuator", InputKind::BackendTask, "tools/app-builder/src/backends/stm32f4/tasks/physical_actuator.rs"));
    out.push(input("serial_discard", InputKind::BackendTask, "tools/app-builder/src/backends/stm32f4/tasks/serial_discard.rs"));
    out.push(input("serial_rx_bridge", InputKind::BackendTask, "tools/app-builder/src/backends/stm32f4/tasks/serial_rx_bridge.rs"));
    out.push(input("serial_rx_dma_irq", InputKind::BackendTask, "tools/app-builder/src/backends/stm32f4/tasks/serial_rx_dma_irq.rs"));
    out.push(input("serial_rx_idle_irq", InputKind::BackendTask, "tools/app-builder/src/backends/stm32f4/tasks/serial_rx_idle_irq.rs"));
    out.push(input("serial_tx_dma_irq", InputKind::BackendTask, "tools/app-builder/src/backends/stm32f4/tasks/serial_tx_dma_irq.rs"));
    out.push(input("serial_tx_worker", InputKind::BackendTask, "tools/app-builder/src/backends/stm32f4/tasks/serial_tx_worker.rs"));
    out.push(input("simple_osd", InputKind::BackendTask, "tools/app-builder/src/backends/stm32f4/tasks/simple_osd.rs"));
    out.push(input("spi_imu_owner_service", InputKind::BackendTask, "tools/app-builder/src/backends/stm32f4/tasks/spi_imu_owner_service.rs"));
    out.push(input("spi_imu_parser", InputKind::BackendTask, "tools/app-builder/src/backends/stm32f4/tasks/spi_imu_parser.rs"));
    out.push(input("spi_imu_poll", InputKind::BackendTask, "tools/app-builder/src/backends/stm32f4/tasks/spi_imu_poll.rs"));
    out.push(input("spi_imu_rx_dma_irq", InputKind::BackendTask, "tools/app-builder/src/backends/stm32f4/tasks/spi_imu_rx_dma_irq.rs"));
    out.push(input("spi_imu_timeout", InputKind::BackendTask, "tools/app-builder/src/backends/stm32f4/tasks/spi_imu_timeout.rs"));
    proof {
        assert(out@ =~= registered_inputs());
    }
    out
}

/// Number of inputs of the given kind.
pub open spec fn kind_count(s: Seq<RustInput>, kind: InputKind) -> nat
    decreases s.len(),
{
    if s.len() == 0 {
        0
    } else {
        kind_count(s.drop_last(), kind) + if s.last().kind == kind {
            1nat
        } else {
            0nat
        }
    }
}

/// The inventory holds one board input, five app inputs, four portable
/// tasks, five app tasks, and twenty-four backend tasks.
pub proof fn lemma_inventory_partition()
    ensures
        registered_inputs().len() == 39,
        kind_count(registered_inputs(), InputKind::Board) == 1,
        kind_count(registered_inputs(), InputKind::App) == 5,
        kind_count(registered_inputs(), InputKind::PortableTask) == 4,
        kind_count(registered_inputs(), InputKind::AppTask) == 5,
        kind_count(registered_inputs(), InputKind::BackendTask) == 24,
{
    reveal_with_fuel(kind_count, 40);
}

/// First rule input `i` breaks against the inputs before it, given whether
/// its path names an existing file.
pub open spec fn entry_error(entries: Seq<RustInput>, present: Seq<bool>, i: int) -> Option<Seq<char>> {
    let e = entries[i];
    if exists|j: int| 0 <= j < i && #[trigger] entries[j].id@ == e.id@ {
        Some("Rust input ID `"@ + e.id@ + "` is registered more than once"@)
    } else if exists|j: int| 0 <= j < i && #[trigger] entries[j].path@ == e.path@ {
        Some("Rust input path `"@ + e.path@ + "` is registered more than once"@)
    } else if !present[i] {
        Some("registered Rust input `"@ + e.id@ + "` is missing at `"@ + e.path@ + "`"@)
    } else {
        None
    }
}

/// First error among the first `n` inputs.
pub open spec fn entries_error_upto(entries: Seq<RustInput>, present: Seq<bool>, n: int) -> Option<
    Seq<char>,
>
    decreases n,
{
    if n <= 0 {
        None
    } else if entries_error_upto(entries, present, n - 1) is Some {
        entries_error_upto(entries, present, n - 1)
    } else {
        entry_error(entries, present, n - 1)
    }
}

proof fn lemma_entries_error_stable(entries: Seq<RustInput>, present: Seq<bool>, a: int, b: int)
    requires
        0 <= a <= b,
        entries_error_upto(entries, present, a) is Some,
    ensures
        entries_error_upto(entries, present, b) == entries_error_upto(entries, present, a),
    decreases b - a,
{
    if b > a {
        lemma_entries_error_stable(entries, present, a, b - 1);
    }
}

/// Checks that input IDs and paths are unique and that every registered
/// path names an existing file (`present[i]` tells whether input `i` does).
pub fn validate_entries(entries: &Vec<RustInput>, present: &Vec<bool>) -> (r: Result<(), String>)
    requires
        present@.len() == entries@.len(),
    ensures
        r is Ok <==> entries_error_upto(entries@, present@, entries@.len() as int) is None,
        r matches Err(e) ==> entries_error_upto(entries@, present@, entries@.len() as int) == Some(
            e@,
        ),
{
    let mut i: usize = 0;
    while i < entries.len()
        invariant
            i <= entries@.len(),
            present@.len() == entries@.len(),
            entries_error_upto(entries@, present@, i as int) is None,
        decreases entries@.len() - i,
    {
        let entry = entries[i];
        let mut j: usize = 0;
        while j < i
            invariant
                i < entries@.len(),
                j <= i,
                entry == entries@[i as int],
                present@.len() == entries@.len(),
                entries_error_upto(entries@, present@, i as int) is None,
                forall|q: int| 0 <= q < j ==> #[trigger] entries@[q].id@ != entry.id@,
            decreases i - j,
        {
            if str_eq(entries[j].id, entry.id) {
                proof {
                    assert(entries@[j as int].id@ == entry.id@);
                    assert(entries_error_upto(entries@, present@, i + 1) is Some);
                    lemma_entries_error_stable(entries@, present@, i + 1, entries@.len() as int);
                }
                return Err(concat3("Rust input ID `", entry.id, "` is registered more than once"));
            }
            j = j + 1;
        }
        let mut j: usize = 0;
        while j < i
            invariant
                i < entries@.len(),
                j <= i,
                entry == entries@[i as int],
                present@.len() == entries@.len(),
                entries_error_upto(entries@, present@, i as int) is None,
                forall|q: int| 0 <= q < i ==> #[trigger] entries@[q].id@ != entry.id@,
                forall|q: int| 0 <= q < j ==> #[trigger] entries@[q].path@ != entry.path@,
            decreases i - j,
        {
            if str_eq(entries[j].path, entry.path) {
                proof {
                    assert(entries@[j as int].path@ == entry.path@);
                    assert(entries_error_upto(entries@, present@, i + 1) is Some);
                    lemma_entries_error_stable(entries@, present@, i + 1, entries@.len() as int);
                }
                return Err(
                    concat3("Rust input path `", entry.path, "` is registered more than once"),
                );
            }
            j = j + 1;
        }
        if !present[i] {
            proof {
                assert(entries_error_upto(entries@, present@, i + 1) is Some);
                lemma_entries_error_stable(entries@, present@, i + 1, entries@.len() as int);
            }
            return Err(
                concat5("registered Rust input `", entry.id, "` is missing at `", entry.path, "`"),
            );
        }
        i = i + 1;
    }
    Ok(())
}

/// Source form selected for one complete catalog application.
#[derive(Clone, Copy, Debug)]
pub enum ApplicationInput {
    /// Repository-owned Rust composition compiled through this catalog.
    RustComposition,
    /// Checked strict manifests confined to this builder workspace.
    ValidationManifest {
        /// Builder-relative application manifest path.
        application_path: &'static str,
        /// Builder-relative BSP manifest path.
        bsp_path: &'static str,
    },
}

/// One selectable complete application and its build-facing identity.
#[derive(Clone, Copy, Debug)]
pub struct ApplicationEntry {
    /// Stable CLI and output-directory identifier.
    pub id: &'static str,
    /// Reviewed input form used to resolve the application.
    pub input: ApplicationInput,
    /// Rust embedded compilation target.
    pub rust_target: &'static str,
    /// Exact probe-rs chip selector used only by explicit hardware commands.
    pub probe_chip: &'static str,
    /// Generated Cargo binary name.
    pub binary_name: &'static str,
}

/// Validates the registered Rust input inventory: unique IDs and paths,
/// and every registered path present (`present[i]` tells whether input
/// `i` exists).
pub fn validate(present: &Vec<bool>) -> (r: Result<(), String>)
    requires
        present@.len() == registered_inputs().len(),
    ensures
        r is Ok <==> entries_error_upto(
            registered_inputs(),
            present@,
            registered_inputs().len() as int,
        ) is None,
        r matches Err(e) ==> entries_error_upto(
            registered_inputs(),
            present@,
            registered_inputs().len() as int,
        ) == Some(e@),
{
    validate_entries(&rust_inputs(), present)
}

/// The complete allowlisted application catalog.
pub open spec fn application_catalog() -> Seq<ApplicationEntry> {
    seq![
        ApplicationEntry {
            id: "foxeer-f405-v2",
            input: ApplicationInput::RustComposition,
            rust_target: "thumbv7em-none-eabihf",
            probe_chip: "STM32F405RG",
            binary_name: "app-builder-v3-generated",
        },
        ApplicationEntry {
            id: "nucleo-f401re-blinky",
            input: ApplicationInput::ValidationManifest {
                application_path: "applications/nucleo-f401re-blinky.toml",
                bsp_path: "bsp/nucleo-f401re.toml",
            },
            rust_target: "thumbv7em-none-eabihf",
            probe_chip: "STM32F401RE",
            binary_name: "rtic-generated-app",
        },
        ApplicationEntry {
            id: "nucleo-f401re-osd",
            input: ApplicationInput::ValidationManifest {
                application_path: "applications/nucleo-f401re-osd.toml",
                bsp_path: "bsp/nucleo-f401re.toml",
            },
            rust_target: "thumbv7em-none-eabihf",
            probe_chip: "STM32F401RE",
            binary_name: "rtic-generated-app",
        },
    ]
}

/// The complete allowlisted application catalog, in catalog order.
pub fn applications() -> (r: Vec<ApplicationEntry>)
    ensures
        r@ == application_catalog(),
{
    let r = vec![
        ApplicationEntry {
            id: "foxeer-f405-v2",
            input: ApplicationInput::RustComposition,
            rust_target: "thumbv7em-none-eabihf",
            probe_chip: "STM32F405RG",
            binary_name: "app-builder-v3-generated",
        },
        ApplicationEntry {
            id: "nucleo-f401re-blinky",
            input: ApplicationInput::ValidationManifest {
                application_path: "applications/nucleo-f401re-blinky.toml",
                bsp_path: "bsp/nucleo-f401re.toml",
            },
            rust_target: "thumbv7em-none-eabihf",
            probe_chip: "STM32F401RE",
            binary_name: "rtic-generated-app",
        },
        ApplicationEntry {
            id: "nucleo-f401re-osd",
            input: ApplicationInput::ValidationManifest {
                application_path: "applications/nucleo-f401re-osd.toml",
                bsp_path: "bsp/nucleo-f401re.toml",
            },
            rust_target: "thumbv7em-none-eabihf",
            probe_chip: "STM32F401RE",
            binary_name: "rtic-generated-app",
        },
    ];
    proof {
        assert(r@ =~= application_catalog());
    }
    r
}

/// Selectable application IDs in deterministic catalog order.
pub fn application_names() -> (r: Vec<&'static str>)
    ensures
        r@.len() == application_catalog().len(),
        forall|k: int| 0 <= k < r@.len() ==> #[trigger] r@[k] == application_catalog()[k].id,
{
    let catalog = applications();
    let mut names: Vec<&'static str> = Vec::new();
    let mut k: usize = 0;
    while k < catalog.len()
        invariant
            catalog@ == application_catalog(),
            k <= catalog@.len(),
            names@.len() == k,
            forall|q: int| 0 <= q < k ==> #[trigger] names@[q] == catalog@[q].id,
        decreases catalog@.len() - k,
    {
        names.push(catalog[k].id);
        k = k + 1;
    }
    names
}

/// Index of the first catalog application, from `j` on, with identifier `id`.
pub open spec fn application_index_from(id: Seq<char>, j: int) -> Option<int>
    decreases 3 - j,
{
    if j < 0 || j >= application_catalog().len() {
        None
    } else if application_catalog()[j].id@ == id {
        Some(j)
    } else {
        application_index_from(id, j + 1)
    }
}

/// Resolves an exact allowlisted application ID.
pub fn application(id: &str) -> (r: Result<ApplicationEntry, String>)
    ensures
        match (r, application_index_from(id@, 0)) {
            (Ok(entry), Some(j)) => entry == application_catalog()[j],
            (Err(e), None) => e@ == "unknown application `"@ + id@
                + "`; expected one of: foxeer-f405-v2, nucleo-f401re-blinky, nucleo-f401re-osd"@,
            _ => false,
        },
{
    let catalog = applications();
    let mut k: usize = 0;
    while k < catalog.len()
        invariant
            catalog@ == application_catalog(),
            k <= catalog@.len(),
            application_index_from(id@, 0) == application_index_from(id@, k as int),
        decreases catalog@.len() - k,
    {
        if str_eq(catalog[k].id, id) {
            return Ok(catalog[k]);
        }
        k = k + 1;
    }
    Err(
        concat3(
            "unknown application `",
            id,
            "`; expected one of: foxeer-f405-v2, nucleo-f401re-blinky, nucleo-f401re-osd",
        ),
    )
}

/// A path is absolute when it starts at the root directory.
pub open spec fn is_absolute(p: Seq<char>) -> bool {
    p.len() > 0 && p[0] == '/'
}

/// Some `/`-separated component of the path is `..`.
pub open spec fn has_parent_component(p: Seq<char>) -> bool {
    exists|k: int|
        0 <= k && k + 2 <= p.len() && #[trigger] p[k] == '.' && p[k + 1] == '.' && (k == 0 || p[k
            - 1] == '/') && (k + 2 == p.len() || p[k + 2] == '/')
}

fn has_parent_component_exec(p: &str) -> (r: bool)
    ensures
        r == has_parent_component(p@),
{
    let n = p.unicode_len();
    let mut k: usize = 0;
    while n >= 2 && k <= n - 2
        invariant
            n == p@.len(),
            k <= n,
            forall|q: int|
                0 <= q < k && q + 2 <= p@.len() ==> !(#[trigger] p@[q] == '.' && p@[q + 1] == '.' && (q
                    == 0 || p@[q - 1] == '/') && (q + 2 == p@.len() || p@[q + 2] == '/')),
        decreases n - k,
    {
        if p.get_char(k) == '.' && p.get_char(k + 1) == '.' && (k == 0 || p.get_char(k - 1) == '/')
            && (k + 2 == n || p.get_char(k + 2) == '/') {
            return true;
        }
        k = k + 1;
    }
    false
}

fn is_absolute_exec(p: &str) -> (r: bool)
    ensures
        r == is_absolute(p@),
{
    p.unicode_len() > 0 && p.get_char(0) == '/'
}

/// First rule the manifests of application `i` break: a repeated ID, then,
/// for its application manifest and then its BSP manifest, a path that is
/// not confined to the builder workspace or that names no file
/// (`present[i]` tells whether each manifest exists).
pub open spec fn application_entry_error(
    entries: Seq<ApplicationEntry>,
    present: Seq<(bool, bool)>,
    i: int,
) -> Option<Seq<char>> {
    let e = entries[i];
    if exists|j: int| 0 <= j < i && #[trigger] entries[j].id@ == e.id@ {
        Some("application ID `"@ + e.id@ + "` is registered more than once"@)
    } else {
        match e.input {
            ApplicationInput::RustComposition => None,
            ApplicationInput::ValidationManifest { application_path, bsp_path } => {
                let unconfined = |kind: Seq<char>, path: Seq<char>|
                    kind + " input for `"@ + e.id@ + "` is not confined: `"@ + path + "`"@;
                let missing = |kind: Seq<char>, path: Seq<char>|
                    kind + " input for `"@ + e.id@ + "` is missing at `"@ + path + "`"@;
                if is_absolute(application_path@) || has_parent_component(application_path@) {
                    Some(unconfined("application"@, application_path@))
                } else if !present[i].0 {
                    Some(missing("application"@, application_path@))
                } else if is_absolute(bsp_path@) || has_parent_component(bsp_path@) {
                    Some(unconfined("BSP"@, bsp_path@))
                } else if !present[i].1 {
                    Some(missing("BSP"@, bsp_path@))
                } else {
                    None
                }
            },
        }
    }
}

/// First error among the first `n` applications.
pub open spec fn applications_error_upto(
    entries: Seq<ApplicationEntry>,
    present: Seq<(bool, bool)>,
    n: int,
) -> Option<Seq<char>>
    decreases n,
{
    if n <= 0 {
        None
    } else if applications_error_upto(entries, present, n - 1) is Some {
        applications_error_upto(entries, present, n - 1)
    } else {
        application_entry_error(entries, present, n - 1)
    }
}

proof fn lemma_applications_error_stable(
    entries: Seq<ApplicationEntry>,
    present: Seq<(bool, bool)>,
    a: int,
    b: int,
)
    requires
        0 <= a <= b,
        applications_error_upto(entries, present, a) is Some,
    ensures
        applications_error_upto(entries, present, b) == applications_error_upto(entries, present, a),
    decreases b - a,
{
    if b > a {
        lemma_applications_error_stable(entries, present, a, b - 1);
    }
}

fn manifest_message(kind: &str, id: &str, problem: &str, path: &str) -> (r: String)
    ensures
        r@ == kind@ + " input for `"@ + id@ + problem@ + path@ + "`"@,
{
    let mut out = concat5(kind, " input for `", id, problem, path);
    out.append("`");
    out
}

fn check_application_entry(entries: &Vec<ApplicationEntry>, present: &Vec<(bool, bool)>, i: usize) -> (r:
    Result<(), String>)
    requires
        i < entries@.len(),
        present@.len() == entries@.len(),
    ensures
        r is Ok <==> application_entry_error(entries@, present@, i as int) is None,
        r matches Err(e) ==> application_entry_error(entries@, present@, i as int) == Some(e@),
{
    let entry = entries[i];
    let mut j: usize = 0;
    while j < i
        invariant
            i < entries@.len(),
            j <= i,
            entry == entries@[i as int],
            forall|q: int| 0 <= q < j ==> #[trigger] entries@[q].id@ != entry.id@,
        decreases i - j,
    {
        if str_eq(entries[j].id, entry.id) {
            proof {
                assert(entries@[j as int].id@ == entry.id@);
            }
            return Err(concat3("application ID `", entry.id, "` is registered more than once"));
        }
        j = j + 1;
    }
    match entry.input {
        ApplicationInput::RustComposition => Ok(()),
        ApplicationInput::ValidationManifest { application_path, bsp_path } => {
            let (application_present, bsp_present) = present[i];
            if is_absolute_exec(application_path) || has_parent_component_exec(application_path) {
                return Err(
                    manifest_message("application", entry.id, "` is not confined: `", application_path),
                );
            }
            if !application_present {
                return Err(
                    manifest_message("application", entry.id, "` is missing at `", application_path),
                );
            }
            if is_absolute_exec(bsp_path) || has_parent_component_exec(bsp_path) {
                return Err(manifest_message("BSP", entry.id, "` is not confined: `", bsp_path));
            }
            if !bsp_present {
                return Err(manifest_message("BSP", entry.id, "` is missing at `", bsp_path));
            }
            Ok(())
        },
    }
}

/// Checks that application IDs are unique and that every validation
/// manifest is confined to the builder workspace and exists
/// (`present[i]` tells whether application `i`'s manifests exist).
pub fn validate_application_entries(entries: &Vec<ApplicationEntry>, present: &Vec<(bool, bool)>) -> (r:
    Result<(), String>)
    requires
        present@.len() == entries@.len(),
    ensures
        r is Ok <==> applications_error_upto(entries@, present@, entries@.len() as int) is None,
        r matches Err(e) ==> applications_error_upto(entries@, present@, entries@.len() as int)
            == Some(e@),
{
    let mut i: usize = 0;
    while i < entries.len()
        invariant
            i <= entries@.len(),
            present@.len() == entries@.len(),
            applications_error_upto(entries@, present@, i as int) is None,
        decreases entries@.len() - i,
    {
        if let Err(e) = check_application_entry(entries, present, i) {
            proof {
                lemma_applications_error_stable(entries@, present@, i + 1, entries@.len() as int);
            }
            return Err(e);
        }
        i = i + 1;
    }
    Ok(())
}

/// Validates the application catalog: unique IDs, and every validation
/// manifest confined and present (`present[i]` tells whether application
/// `i`'s manifests exist).
pub fn validate_applications(present: &Vec<(bool, bool)>) -> (r: Result<(), String>)
    requires
        present@.len() == application_catalog().len(),
    ensures
        r is Ok <==> applications_error_upto(
            application_catalog(),
            present@,
            application_catalog().len() as int,
        ) is None,
        r matches Err(e) ==> applications_error_upto(
            application_catalog(),
            present@,
            application_catalog().len() as int,
        ) == Some(e@),
{
    validate_application_entries(&applications(), present)
}

/// An application ID is a safe output-directory component: nonempty, and
/// made of lower-case ASCII letters, digits, and `-` only.
pub open spec fn safe_output_component(id: Seq<char>) -> bool {
    id.len() > 0 && forall|k: int|
        0 <= k < id.len() ==> ('a' <= #[trigger] id[k] && id[k] <= 'z') || ('0' <= id[k] && id[k]
            <= '9') || id[k] == '-'
}

/// Builder-relative working directory of an application's generated crate,
/// `generated/<id>/working`; unsafe IDs are rejected.
pub fn working_directory(application_id: &str) -> (r: Result<String, String>)
    ensures
        safe_output_component(application_id@) <==> r is Ok,
        r matches Ok(p) ==> p@ == "generated/"@ + application_id@ + "/working"@,
        r matches Err(e) ==> e@ == "application ID is not a safe output component: `"@
            + application_id@ + "`"@,
{
    let n = application_id.unicode_len();
    let mut safe = n > 0;
    let mut k: usize = 0;
    while k < n
        invariant
            n == application_id@.len(),
            k <= n,
            safe == (n > 0 && forall|q: int|
                0 <= q < k ==> ('a' <= #[trigger] application_id@[q] && application_id@[q] <= 'z')
                    || ('0' <= application_id@[q] && application_id@[q] <= '9')
                    || application_id@[q] == '-'),
        decreases n - k,
    {
        let c = application_id.get_char(k);
        if !(('a' <= c && c <= 'z') || ('0' <= c && c <= '9') || c == '-') {
            safe = false;
        }
        k = k + 1;
    }
    if !safe {
        return Err(
            concat3("application ID is not a safe output component: `", application_id, "`"),
        );
    }
    Ok(concat3("generated/", application_id, "/working"))
}

/// A generated output path is safe when it is relative and every component
/// is a plain name: it does not start at the root, does not start with a
/// `.` component, and has no `..` component.
pub open spec fn safe_relative_output(p: Seq<char>) -> bool {
    &&& !is_absolute(p)
    &&& !(p == "."@ || (p.len() >= 2 && p[0] == '.' && p[1] == '/'))
    &&& !has_parent_component(p)
}

/// Rejects a generated output path that could escape the output directory.
pub fn validate_relative_output(path: &str) -> (r: Result<(), String>)
    ensures
        safe_relative_output(path@) <==> r is Ok,
        r matches Err(e) ==> e@ == "renderer produced unsafe output path `"@ + path@ + "`"@,
{
    proof {
        reveal_strlit(".");
    }
    let n = path.unicode_len();
    let leading_current = (n == 1 && path.get_char(0) == '.') || (n >= 2 && path.get_char(0) == '.'
        && path.get_char(1) == '/');
    proof {
        if path@ == "."@ {
            assert(path@.len() == 1 && path@[0] == '.');
        }
        if n == 1 && path@[0] == '.' {
            assert(path@ =~= "."@);
        }
    }
    if is_absolute_exec(path) || leading_current || has_parent_component_exec(path) {
        return Err(concat3("renderer produced unsafe output path `", path, "`"));
    }
    Ok(())
}

} // verus!
