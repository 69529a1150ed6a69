//! Deterministic resolution of composed tasks and components: generated
//! resource names, interrupt vectors, safety-channel owners, and RTIC
//! software dispatchers.

use vstd::prelude::*;

use crate::board::{
    board_gpio, board_timer, BoardDeclaration, ImuInstallationDeclaration, SpiHardwareDeclaration,
    TimerHardwareDeclaration,
};
use crate::imu_endpoint::{
    ImuEndpointDeclaration, ImuEndpointResourceOwnership, ImuEndpointResourceRole,
    ImuEndpointResourceVisibility,
};
use crate::lower::{imu_role_name, imu_role_str};
use crate::composition::{TaskDeclaration, TaskTrigger};
use crate::dma_route::{controller_number, stream_number, DmaRoute};
use crate::gpio::{GpioHardwareDeclaration, GpioMode};
use crate::periodic_control::{
    resource_suffix, spec_resource_suffix, PeriodicControlDeclaration,
    PeriodicControlResourceRole,
};
use crate::pins::{port_name, PinId};
use crate::safety_channel::{SafetyChannelDeclaration, SafetyMessage};
use crate::serial::{is_uart, serial_number, SerialPeripheral};
use crate::task::{copy_all, same_contract, ConfigBinding, ConfigValue, ResourceBinding, SpawnBinding, TaskContract, TaskSafetyClass};
use crate::text::{concat3, concat5, decimal, push_decimal, push_decimal_usize, str_eq, strs};
use crate::serial_endpoint::{ResolvedEndpointResource, ResolvedSerialEndpoint};
use crate::state::ResolvedTaskState;

verus! {

/// One logical-to-concrete task resource binding.
#[derive(Clone, Debug)]
pub struct ResolvedResourceBinding {
    /// Field name used by the reusable body.
    pub logical: &'static str,
    /// Generated RTIC resource field.
    pub target: String,
}

/// One resolved task configuration value.
#[derive(Clone, Copy, Debug)]
pub struct ResolvedConfigBinding {
    /// Field name used below `cx.config`.
    pub logical: &'static str,
    /// Concrete value substituted into the generated body.
    pub value: ConfigValue,
}

/// One resolved logical spawn operation.
#[derive(Clone, Debug)]
pub struct ResolvedSpawnBinding {
    /// Logical module used by the reusable task body.
    pub logical: &'static str,
    /// Concrete generated task destination.
    pub target: String,
    /// Rust types of the spawn arguments, in order.
    pub arguments: Vec<&'static str>,
}

/// Entry mechanism for one resolved task.
#[derive(Clone, Debug)]
pub enum ResolvedTaskTrigger {
    /// Hardware task bound to this PAC interrupt identifier.
    Interrupt(String),
    /// Software task entered through RTIC spawn.
    Software,
}

/// One standalone or component-expanded concrete RTIC task.
#[derive(Clone, Debug)]
pub struct ResolvedTask {
    /// Generated RTIC task identifier.
    pub id: String,
    /// Reusable task contract and source location.
    pub contract: TaskContract,
    /// Interrupt or software-spawn entry mechanism.
    pub trigger: ResolvedTaskTrigger,
    /// RTIC scheduling priority.
    pub priority: u8,
    /// Safety authority retained from concrete application composition.
    pub safety_class: TaskSafetyClass,
    /// Resolved task-local resource bindings.
    pub local: Vec<ResolvedResourceBinding>,
    /// Resolved task-shared resource bindings.
    pub shared: Vec<ResolvedResourceBinding>,
    /// Values substituted for `cx.config` accesses.
    pub config: Vec<ResolvedConfigBinding>,
    /// Concrete destinations substituted for logical spawn modules.
    pub spawns: Vec<ResolvedSpawnBinding>,
    /// Component instance that created the task, when applicable.
    pub owner_component: Option<&'static str>,
}

/// One board GPIO selected by a task-local binding.
#[derive(Clone, Copy, Debug)]
pub struct ResolvedGpioResource {
    /// Board declaration for the selected GPIO.
    pub hardware: GpioHardwareDeclaration,
    /// Concrete task that owns this local resource.
    pub owner_task: &'static str,
}

/// EXTI vector that serves a GPIO line.
pub open spec fn spec_exti_binding(pin: PinId) -> Seq<char> {
    if pin.pin == 0 {
        "EXTI0"@
    } else if pin.pin == 1 {
        "EXTI1"@
    } else if pin.pin == 2 {
        "EXTI2"@
    } else if pin.pin == 3 {
        "EXTI3"@
    } else if pin.pin == 4 {
        "EXTI4"@
    } else if pin.pin <= 9 {
        "EXTI9_5"@
    } else {
        "EXTI15_10"@
    }
}

/// EXTI vector that serves a GPIO line.
pub fn exti_binding(pin: PinId) -> (r: &'static str)
    requires
        pin.pin < 16,
    ensures
        r@ == spec_exti_binding(pin),
{
    if pin.pin == 0 {
        "EXTI0"
    } else if pin.pin == 1 {
        "EXTI1"
    } else if pin.pin == 2 {
        "EXTI2"
    } else if pin.pin == 3 {
        "EXTI3"
    } else if pin.pin == 4 {
        "EXTI4"
    } else if pin.pin <= 9 {
        "EXTI9_5"
    } else {
        "EXTI15_10"
    }
}

/// The EXTI vector serving a GPIO line names the lines it serves: each of
/// lines 0 through 4 has a vector of its own, `EXTI` followed by the line
/// number; lines 5 through 9 share `EXTI9_5` and lines 10 through 15 share
/// `EXTI15_10`, named by the highest and then the lowest line they serve.
pub proof fn lemma_exti_vector_names_its_line(pin: PinId)
    requires
        pin.pin < 16,
    ensures
        pin.pin <= 4 ==> spec_exti_binding(pin) == "EXTI"@ + decimal(pin.pin as nat),
        5 <= pin.pin <= 9 ==> spec_exti_binding(pin) == "EXTI"@ + decimal(9) + "_"@ + decimal(5),
        10 <= pin.pin ==> spec_exti_binding(pin) == "EXTI"@ + decimal(15) + "_"@ + decimal(10),
{
    reveal_strlit("EXTI");
    reveal_strlit("_");
    reveal_strlit("EXTI0");
    reveal_strlit("EXTI1");
    reveal_strlit("EXTI2");
    reveal_strlit("EXTI3");
    reveal_strlit("EXTI4");
    reveal_strlit("EXTI9_5");
    reveal_strlit("EXTI15_10");
    reveal_with_fuel(decimal, 2);
    let v = spec_exti_binding(pin);
    if pin.pin <= 4 {
        assert(v =~= "EXTI"@ + decimal(pin.pin as nat));
    } else if pin.pin <= 9 {
        assert(v =~= "EXTI"@ + decimal(9) + "_"@ + decimal(5));
    } else {
        assert(decimal(15) =~= seq!['1', '5']);
        assert(decimal(10) =~= seq!['1', '0']);
        assert(v =~= "EXTI"@ + decimal(15) + "_"@ + decimal(10));
    }
}

/// Every GPIO of the board lies on an STM32 line (pin number below 16).
pub open spec fn board_pins_valid(board: BoardDeclaration) -> bool {
    forall|k: int| 0 <= k < board.gpio@.len() ==> #[trigger] board.gpio@[k].pin.pin < 16
}

/// A pin written as its `Debug` form, `PinId { port: C, pin: 13 }`.
pub open spec fn pin_debug(pin: PinId) -> Seq<char> {
    "PinId { port: "@ + port_name(pin.port) + ", pin: "@ + decimal(pin.pin as nat) + " }"@
}

pub(crate) fn push_pin_debug(out: &mut String, pin: PinId)
    ensures
        final(out)@ == old(out)@ + pin_debug(pin),
{
    out.append("PinId { port: ");
    out.append(pin.port.name());
    out.append(", pin: ");
    push_decimal(out, pin.pin as u32);
    out.append(" }");
}

/// An interrupt binding names an EXTI vector (it starts with `EXTI`).
pub open spec fn is_exti(binding: Seq<char>) -> bool {
    binding.len() >= 4 && binding.take(4) == "EXTI"@
}

fn starts_with_exti(binding: &str) -> (r: bool)
    ensures
        r == is_exti(binding@),
{
    proof {
        reveal_strlit("EXTI");
    }
    if binding.unicode_len() < 4 {
        return false;
    }
    let r = binding.get_char(0) == 'E' && binding.get_char(1) == 'X' && binding.get_char(2) == 'T'
        && binding.get_char(3) == 'I';
    proof {
        if r {
            assert(binding@.take(4) =~= "EXTI"@);
        } else {
            assert(binding@.take(4) != "EXTI"@ || binding@.take(4)[0] != 'E' || true);
            if binding@.take(4) == "EXTI"@ {
                assert(binding@[0] == binding@.take(4)[0]);
                assert(binding@[1] == binding@.take(4)[1]);
                assert(binding@[2] == binding@.take(4)[2]);
                assert(binding@[3] == binding@.take(4)[3]);
            }
        }
    }
    r
}

/// An interrupt-enabled input.
pub open spec fn interrupt_enabled(g: GpioHardwareDeclaration) -> bool {
    g.mode matches GpioMode::Input { interrupt: Some(_) }
}

/// First board GPIO, among the targets of `locals` from `k` on, that is an
/// interrupt-enabled input.
pub open spec fn interrupt_gpio_from(board: BoardDeclaration, locals: Seq<ResourceBinding>, k: int) -> Option<
    GpioHardwareDeclaration,
>
    decreases locals.len() - k,
{
    if k < 0 || k >= locals.len() {
        None
    } else {
        match board_gpio(board, locals[k].target@) {
            Some(g) => if interrupt_enabled(g) {
                Some(g)
            } else {
                interrupt_gpio_from(board, locals, k + 1)
            },
            None => interrupt_gpio_from(board, locals, k + 1),
        }
    }
}

/// Rule an interrupt binding breaks: an EXTI vector must be the one that
/// serves the task's interrupt-enabled GPIO.
pub open spec fn exti_binding_error(
    task_id: Seq<char>,
    binding: Seq<char>,
    board: BoardDeclaration,
    task: TaskDeclaration,
) -> Option<Seq<char>> {
    if !is_exti(binding) {
        None
    } else {
        match interrupt_gpio_from(board, task.local@, 0) {
            None => Some("EXTI task `"@ + task_id + "` has no interrupt-enabled GPIO"@),
            Some(g) => if binding != spec_exti_binding(g.pin) {
                Some(
                    "EXTI task `"@ + task_id + "` binds `"@ + binding + "`, but GPIO `"@ + g.id@
                        + "` on "@ + pin_debug(g.pin) + " resolves to `"@ + spec_exti_binding(
                        g.pin,
                    ) + "`"@,
                )
            } else {
                None
            },
        }
    }
}

proof fn lemma_board_gpio_valid(board: BoardDeclaration, id: Seq<char>, i: int)
    requires
        board_pins_valid(board),
        0 <= i,
    ensures
        crate::board::gpio_from(board.gpio@, id, i) matches Some(g) ==> g.pin.pin < 16,
    decreases board.gpio@.len() - i,
{
    if i < board.gpio@.len() {
        assert(board.gpio@[i].pin.pin < 16);
        lemma_board_gpio_valid(board, id, i + 1);
    }
}

/// Checks that an EXTI interrupt binding matches the line of the task's
/// interrupt-enabled GPIO; other bindings pass unchanged.
pub fn validate_exti_binding(
    task_id: &str,
    binding: &str,
    board: &BoardDeclaration,
    task: &TaskDeclaration,
) -> (r: Result<(), String>)
    requires
        board_pins_valid(*board),
    ensures
        r is Ok <==> exti_binding_error(task_id@, binding@, *board, *task) is None,
        r matches Err(e) ==> exti_binding_error(task_id@, binding@, *board, *task) == Some(e@),
{
    if !starts_with_exti(binding) {
        return Ok(());
    }
    let mut k: usize = 0;
    while k < task.local.len()
        invariant
            k <= task.local@.len(),
            board_pins_valid(*board),
            is_exti(binding@),
            interrupt_gpio_from(*board, task.local@, 0) == interrupt_gpio_from(
                *board,
                task.local@,
                k as int,
            ),
        decreases task.local@.len() - k,
    {
        if let Some(gpio) = board.gpio(task.local[k].target) {
            if let GpioMode::Input { interrupt: Some(_) } = gpio.mode {
                proof {
                    lemma_board_gpio_valid(*board, task.local@[k as int].target@, 0);
                }
                let expected = exti_binding(gpio.pin);
                if !str_eq(binding, expected) {
                    let mut message = concat5("EXTI task `", task_id, "` binds `", binding, "`, but GPIO `");
                    message.append(gpio.id);
                    message.append("` on ");
                    push_pin_debug(&mut message, gpio.pin);
                    message.append(" resolves to `");
                    message.append(expected);
                    message.append("`");
                    return Err(message);
                }
                return Ok(());
            }
        }
        k = k + 1;
    }
    Err(concat3("EXTI task `", task_id, "` has no interrupt-enabled GPIO"))
}

/// GPIO resources a task claims: one entry, in binding order, for every
/// local binding that targets a board GPIO.
pub open spec fn gpio_claims(board: BoardDeclaration, task: TaskDeclaration, k: int) -> Seq<
    ResolvedGpioResource,
>
    decreases k,
{
    if k <= 0 || k > task.local@.len() {
        Seq::empty()
    } else {
        let rest = gpio_claims(board, task, k - 1);
        match board_gpio(board, task.local@[k - 1].target@) {
            Some(g) => rest.push(ResolvedGpioResource { hardware: g, owner_task: task.id }),
            None => rest,
        }
    }
}

/// Resolved bindings carry the logical names and targets of the declared ones.
pub open spec fn resolves_bindings(r: Seq<ResolvedResourceBinding>, b: Seq<ResourceBinding>) -> bool {
    &&& r.len() == b.len()
    &&& forall|k: int|
        0 <= k < b.len() ==> #[trigger] r[k].logical == b[k].logical && r[k].target@ == b[k].target@
}

/// Resolved configuration carries the declared slot names and values.
pub open spec fn resolves_config(r: Seq<ResolvedConfigBinding>, b: Seq<ConfigBinding>) -> bool {
    &&& r.len() == b.len()
    &&& forall|k: int|
        0 <= k < b.len() ==> #[trigger] r[k].logical == b[k].logical && r[k].value == b[k].value
}

/// Resolved spawns carry the declared slot names, destinations, and
/// argument types.
pub open spec fn resolves_spawns(r: Seq<ResolvedSpawnBinding>, b: Seq<SpawnBinding>) -> bool {
    &&& r.len() == b.len()
    &&& forall|k: int|
        0 <= k < b.len() ==> #[trigger] r[k].logical == b[k].logical && r[k].target@ == b[k].target@
            && r[k].arguments@ == b[k].arguments@
}

/// Interrupt binding of a resolved trigger, if any.
pub open spec fn resolved_interrupt(t: ResolvedTaskTrigger) -> Option<Seq<char>> {
    match t {
        ResolvedTaskTrigger::Interrupt(name) => Some(name@),
        ResolvedTaskTrigger::Software => None,
    }
}

/// `r` is the resolution of a standalone declaration `t`.
pub open spec fn resolves_task(r: ResolvedTask, t: TaskDeclaration) -> bool {
    &&& r.id@ == t.id@
    &&& same_contract(r.contract, t.contract)
    &&& resolved_interrupt(r.trigger) == match t.trigger {
        TaskTrigger::Interrupt(name) => Some(name@),
        TaskTrigger::Software => None,
    }
    &&& r.priority == t.priority
    &&& r.safety_class == t.safety_class
    &&& resolves_bindings(r.local@, t.local@)
    &&& resolves_bindings(r.shared@, t.shared@)
    &&& resolves_config(r.config@, t.config@)
    &&& resolves_spawns(r.spawns@, t.spawns@)
    &&& r.owner_component is None
}

/// Rule a standalone task breaks during resolution.
pub open spec fn standalone_task_error(board: BoardDeclaration, task: TaskDeclaration) -> Option<Seq<char>> {
    match task.trigger {
        TaskTrigger::Interrupt(name) => exti_binding_error(task.id@, name@, board, task),
        TaskTrigger::Software => None,
    }
}

fn resolve_bindings(bindings: &Vec<ResourceBinding>) -> (r: Vec<ResolvedResourceBinding>)
    ensures
        resolves_bindings(r@, bindings@),
{
    let mut out: Vec<ResolvedResourceBinding> = Vec::new();
    let mut k: usize = 0;
    while k < bindings.len()
        invariant
            k <= bindings@.len(),
            out@.len() == k,
            forall|j: int|
                0 <= j < k ==> #[trigger] out@[j].logical == bindings@[j].logical && out@[j].target@
                    == bindings@[j].target@,
        decreases bindings@.len() - k,
    {
        let target = String::from_str(bindings[k].target);
        let ghost before = out@;
        out.push(ResolvedResourceBinding { logical: bindings[k].logical, target });
        proof {
            assert(out@[k as int].target@ == bindings@[k as int].target@);
            assert forall|j: int| 0 <= j < k implies out@[j] == before[j] by {}
        }
        k = k + 1;
    }
    out
}

/// Resolves one standalone task: records the board GPIOs it claims, checks
/// its EXTI binding, and carries its contract, trigger, priority, safety
/// class, and every binding into the resolved task.
pub fn resolve_standalone_task(
    board: &BoardDeclaration,
    task: &TaskDeclaration,
    gpio_resources: &mut Vec<ResolvedGpioResource>,
) -> (r: Result<ResolvedTask, String>)
    requires
        board_pins_valid(*board),
    ensures
        final(gpio_resources)@ == old(gpio_resources)@ + gpio_claims(
            *board,
            *task,
            task.local@.len() as int,
        ),
        r is Ok <==> standalone_task_error(*board, *task) is None,
        r matches Err(e) ==> standalone_task_error(*board, *task) == Some(e@),
        r matches Ok(t) ==> resolves_task(t, *task),
{
    let mut k: usize = 0;
    while k < task.local.len()
        invariant
            k <= task.local@.len(),
            gpio_resources@ == old(gpio_resources)@ + gpio_claims(*board, *task, k as int),
        decreases task.local@.len() - k,
    {
        if let Some(hardware) = board.gpio(task.local[k].target) {
            gpio_resources.push(ResolvedGpioResource { hardware, owner_task: task.id });
        }
        k = k + 1;
        proof {
            assert(gpio_resources@ =~= old(gpio_resources)@ + gpio_claims(*board, *task, k as int));
        }
    }
    let trigger = match task.trigger {
        TaskTrigger::Software => ResolvedTaskTrigger::Software,
        TaskTrigger::Interrupt(interrupt) => {
            validate_exti_binding(task.id, interrupt, board, task)?;
            ResolvedTaskTrigger::Interrupt(String::from_str(interrupt))
        },
    };
    let mut config: Vec<ResolvedConfigBinding> = Vec::new();
    let mut k: usize = 0;
    while k < task.config.len()
        invariant
            k <= task.config@.len(),
            config@.len() == k,
            forall|j: int|
                0 <= j < k ==> #[trigger] config@[j].logical == task.config@[j].logical && config@[j].value
                    == task.config@[j].value,
        decreases task.config@.len() - k,
    {
        config.push(
            ResolvedConfigBinding { logical: task.config[k].logical, value: task.config[k].value },
        );
        k = k + 1;
    }
    let mut spawns: Vec<ResolvedSpawnBinding> = Vec::new();
    let mut k: usize = 0;
    while k < task.spawns.len()
        invariant
            k <= task.spawns@.len(),
            spawns@.len() == k,
            forall|j: int|
                0 <= j < k ==> #[trigger] spawns@[j].logical == task.spawns@[j].logical
                    && spawns@[j].target@ == task.spawns@[j].target@ && spawns@[j].arguments@
                    == task.spawns@[j].arguments@,
        decreases task.spawns@.len() - k,
    {
        let binding = &task.spawns[k];
        spawns.push(
            ResolvedSpawnBinding {
                logical: binding.logical,
                target: String::from_str(binding.target),
                arguments: copy_all(&binding.arguments),
            },
        );
        k = k + 1;
    }
    Ok(
        ResolvedTask {
            id: String::from_str(task.id),
            contract: task.contract.duplicate(),
            trigger,
            priority: task.priority,
            safety_class: task.safety_class,
            local: resolve_bindings(&task.local),
            shared: resolve_bindings(&task.shared),
            config,
            spawns,
            owner_component: None,
        },
    )
}

/// Interrupt vector of a serial peripheral.
pub open spec fn spec_serial_interrupt(p: SerialPeripheral) -> Seq<char> {
    match p {
        SerialPeripheral::Usart1 => "USART1"@,
        SerialPeripheral::Usart2 => "USART2"@,
        SerialPeripheral::Usart3 => "USART3"@,
        SerialPeripheral::Uart4 => "UART4"@,
        SerialPeripheral::Uart5 => "UART5"@,
        SerialPeripheral::Usart6 => "USART6"@,
        SerialPeripheral::Uart7 => "UART7"@,
        SerialPeripheral::Uart8 => "UART8"@,
    }
}

/// Interrupt vector of a serial peripheral.
pub fn serial_interrupt(peripheral: SerialPeripheral) -> (r: String)
    ensures
        r@ == spec_serial_interrupt(peripheral),
{
    let name = match peripheral {
        SerialPeripheral::Usart1 => "USART1",
        SerialPeripheral::Usart2 => "USART2",
        SerialPeripheral::Usart3 => "USART3",
        SerialPeripheral::Uart4 => "UART4",
        SerialPeripheral::Uart5 => "UART5",
        SerialPeripheral::Usart6 => "USART6",
        SerialPeripheral::Uart7 => "UART7",
        SerialPeripheral::Uart8 => "UART8",
    };
    String::from_str(name)
}

/// The interrupt vector of a serial peripheral is the peripheral's own name:
/// `UART` or `USART`, as the peripheral is one, followed by its number.
pub proof fn lemma_serial_vector_is_peripheral_name(p: SerialPeripheral)
    ensures
        spec_serial_interrupt(p) == (if is_uart(p) {
            "UART"@
        } else {
            "USART"@
        }) + decimal(serial_number(p)),
{
    reveal_strlit("UART");
    reveal_strlit("USART");
    reveal_strlit("USART1");
    reveal_strlit("USART2");
    reveal_strlit("USART3");
    reveal_strlit("UART4");
    reveal_strlit("UART5");
    reveal_strlit("USART6");
    reveal_strlit("UART7");
    reveal_strlit("UART8");
    let prefix = if is_uart(p) {
        "UART"@
    } else {
        "USART"@
    };
    assert(spec_serial_interrupt(p) =~= prefix + decimal(serial_number(p)));
}

/// Distinct serial peripherals have distinct interrupt vectors.
pub proof fn lemma_serial_vectors_are_distinct(a: SerialPeripheral, b: SerialPeripheral)
    requires
        a != b,
    ensures
        spec_serial_interrupt(a) != spec_serial_interrupt(b),
{
    lemma_serial_vector_is_peripheral_name(a);
    lemma_serial_vector_is_peripheral_name(b);
    let va = spec_serial_interrupt(a);
    let vb = spec_serial_interrupt(b);
    assert(va.last() == decimal(serial_number(a)).last());
    assert(vb.last() == decimal(serial_number(b)).last());
    assert(va.last() != vb.last());
}

/// Interrupt vector of a DMA stream, `DMA<controller>_STREAM<stream>`.
pub open spec fn spec_dma_interrupt(route: DmaRoute) -> Seq<char> {
    "DMA"@ + decimal(controller_number(route.controller)) + "_STREAM"@ + decimal(
        stream_number(route.stream),
    )
}

/// Interrupt vector of a DMA stream.
pub fn dma_interrupt(route: DmaRoute) -> (r: String)
    ensures
        r@ == spec_dma_interrupt(route),
{
    let mut out = String::from_str("DMA");
    push_decimal(&mut out, route.controller.number());
    out.append("_STREAM");
    push_decimal(&mut out, route.stream.number());
    out
}

/// Index of the first task before `i` bound to interrupt `name`.
pub open spec fn first_interrupt_owner(tasks: Seq<ResolvedTask>, name: Seq<char>, i: int) -> Option<int>
    decreases i,
{
    if i <= 0 {
        None
    } else if first_interrupt_owner(tasks, name, i - 1) is Some {
        first_interrupt_owner(tasks, name, i - 1)
    } else if resolved_interrupt(tasks[i - 1].trigger) == Some(name) {
        Some(i - 1)
    } else {
        None
    }
}

/// First interrupt claimed twice among the first `n` resolved tasks, as its
/// diagnostic.
pub open spec fn interrupt_ownership_error_upto(tasks: Seq<ResolvedTask>, n: int) -> Option<Seq<char>>
    decreases n,
{
    if n <= 0 {
        None
    } else if interrupt_ownership_error_upto(tasks, n - 1) is Some {
        interrupt_ownership_error_upto(tasks, n - 1)
    } else {
        match resolved_interrupt(tasks[n - 1].trigger) {
            None => None,
            Some(name) => match first_interrupt_owner(tasks, name, n - 1) {
                None => None,
                Some(j) => Some(
                    "resolved tasks `"@ + tasks[j].id@ + "` and `"@ + tasks[n - 1].id@
                        + "` both bind interrupt `"@ + name + "`"@,
                ),
            },
        }
    }
}

proof fn lemma_ownership_error_stable(tasks: Seq<ResolvedTask>, a: int, b: int)
    requires
        0 <= a <= b,
        interrupt_ownership_error_upto(tasks, a) is Some,
    ensures
        interrupt_ownership_error_upto(tasks, b) == interrupt_ownership_error_upto(tasks, a),
    decreases b - a,
{
    if b > a {
        lemma_ownership_error_stable(tasks, a, b - 1);
    }
}

/// Checks that no interrupt vector is bound by two resolved tasks.
pub fn validate_interrupt_ownership(tasks: &Vec<ResolvedTask>) -> (r: Result<(), String>)
    ensures
        r is Ok <==> interrupt_ownership_error_upto(tasks@, tasks@.len() as int) is None,
        r matches Err(e) ==> interrupt_ownership_error_upto(tasks@, tasks@.len() as int) == Some(e@),
{
    let mut i: usize = 0;
    while i < tasks.len()
        invariant
            i <= tasks@.len(),
            interrupt_ownership_error_upto(tasks@, i as int) is None,
        decreases tasks@.len() - i,
    {
        if let ResolvedTaskTrigger::Interrupt(binding) = &tasks[i].trigger {
            let mut j: usize = 0;
            while j < i
                invariant
                    i < tasks@.len(),
                    j <= i,
                    resolved_interrupt(tasks@[i as int].trigger) == Some(binding@),
                    first_interrupt_owner(tasks@, binding@, j as int) is None,
                    interrupt_ownership_error_upto(tasks@, i as int) is None,
                decreases i - j,
            {
                if let ResolvedTaskTrigger::Interrupt(other) = &tasks[j].trigger {
                    if str_eq(other.as_str(), binding.as_str()) {
                        proof {
                            assert(first_interrupt_owner(tasks@, binding@, j + 1) == Some(j as int));
                            lemma_first_owner_stable(tasks@, binding@, j + 1, i as int);
                            assert(interrupt_ownership_error_upto(tasks@, i + 1) is Some);
                            lemma_ownership_error_stable(tasks@, i + 1, tasks@.len() as int);
                        }
                        let mut message = concat3("resolved tasks `", tasks[j].id.as_str(), "` and `");
                        message.append(tasks[i].id.as_str());
                        message.append("` both bind interrupt `");
                        message.append(binding.as_str());
                        message.append("`");
                        return Err(message);
                    }
                }
                j = j + 1;
            }
        }
        i = i + 1;
    }
    Ok(())
}

proof fn lemma_first_owner_stable(tasks: Seq<ResolvedTask>, name: Seq<char>, a: int, b: int)
    requires
        0 <= a <= b,
        first_interrupt_owner(tasks, name, a) is Some,
    ensures
        first_interrupt_owner(tasks, name, b) == first_interrupt_owner(tasks, name, a),
    decreases b - a,
{
    if b > a {
        lemma_first_owner_stable(tasks, name, a, b - 1);
    }
}

/// Reviewed STM32F4 vectors that RTIC may take over as software dispatchers,
/// in order of preference.
pub open spec fn dispatcher_pool() -> Seq<Seq<char>> {
    seq![
        "EXTI0"@,
        "EXTI1"@,
        "EXTI2"@,
        "EXTI3"@,
        "EXTI4"@,
        "CAN1_TX"@,
        "CAN2_TX"@,
        "CAN1_RX0"@,
        "CAN1_RX1"@,
        "CAN1_SCE"@,
        "CAN2_RX0"@,
        "CAN2_RX1"@,
    ]
}

/// Some resolved task is bound to interrupt `name`.
pub open spec fn interrupt_used(tasks: Seq<ResolvedTask>, name: Seq<char>) -> bool {
    exists|i: int| 0 <= i < tasks.len() && #[trigger] resolved_interrupt(tasks[i].trigger) == Some(name)
}

/// The vectors of `pool`, in order, that no task binds.
pub open spec fn free_vectors(tasks: Seq<ResolvedTask>, pool: Seq<Seq<char>>) -> Seq<Seq<char>>
    decreases pool.len(),
{
    if pool.len() == 0 {
        Seq::empty()
    } else {
        let rest = free_vectors(tasks, pool.drop_last());
        if interrupt_used(tasks, pool.last()) {
            rest
        } else {
            rest.push(pool.last())
        }
    }
}

/// The distinct priorities of the software tasks.
pub open spec fn software_priorities(tasks: Seq<ResolvedTask>) -> Set<u8> {
    Set::new(
        |p: u8|
            exists|i: int|
                0 <= i < tasks.len() && tasks[i].trigger is Software && #[trigger] tasks[i].priority
                    == p,
    )
}

/// Number of dispatchers RTIC needs: one per distinct software priority,
/// and at least one.
pub open spec fn dispatcher_count(tasks: Seq<ResolvedTask>) -> nat {
    if software_priorities(tasks).len() == 0 {
        1
    } else {
        software_priorities(tasks).len()
    }
}

/// The character sequences of a list of owned strings.
pub open spec fn string_views(v: Seq<String>) -> Seq<Seq<char>> {
    v.map_values(|s: String| s@)
}

fn interrupt_used_exec(tasks: &Vec<ResolvedTask>, name: &str) -> (r: bool)
    ensures
        r == interrupt_used(tasks@, name@),
{
    let mut i: usize = 0;
    while i < tasks.len()
        invariant
            i <= tasks@.len(),
            forall|j: int| 0 <= j < i ==> #[trigger] resolved_interrupt(tasks@[j].trigger) != Some(name@),
        decreases tasks@.len() - i,
    {
        if let ResolvedTaskTrigger::Interrupt(binding) = &tasks[i].trigger {
            if str_eq(binding.as_str(), name) {
                proof {
                    assert(resolved_interrupt(tasks@[i as int].trigger) == Some(name@));
                }
                return true;
            }
        }
        i = i + 1;
    }
    false
}

fn software_priority_list(tasks: &Vec<ResolvedTask>) -> (r: Vec<u8>)
    ensures
        r@.no_duplicates(),
        r@.to_set() == software_priorities(tasks@),
{
    let mut prios: Vec<u8> = Vec::new();
    let mut i: usize = 0;
    while i < tasks.len()
        invariant
            i <= tasks@.len(),
            prios@.no_duplicates(),
            prios@.to_set() == software_priorities(tasks@.take(i as int)),
        decreases tasks@.len() - i,
    {
        let ghost before = prios@;
        if let ResolvedTaskTrigger::Software = tasks[i].trigger {
            let p = tasks[i].priority;
            let mut k: usize = 0;
            let mut seen = false;
            while k < prios.len()
                invariant
                    k <= prios@.len(),
                    seen == exists|q: int| 0 <= q < k && prios@[q] == p,
                decreases prios@.len() - k,
            {
                if prios[k] == p {
                    seen = true;
                }
                k = k + 1;
            }
            if !seen {
                proof {
                    assert(!prios@.contains(p));
                }
                prios.push(p);
                proof {
                    assert(prios@[prios@.len() - 1] == p);
                    assert forall|a: int, b: int| 0 <= a < b < prios@.len() implies prios@[a] != prios@[b] by {
                        if b == prios@.len() - 1 {
                            assert(before[a] == prios@[a]);
                        } else {
                            assert(before[a] == prios@[a] && before[b] == prios@[b]);
                        }
                    }
                }
            }
            proof {
                assert(prios@.contains(p));
            }
        }
        proof {
            let next = tasks@.take(i + 1);
            let cur = tasks@.take(i as int);
            assert(next.drop_last() =~= cur);
            assert(prios@ == before || prios@ == before.push(tasks@[i as int].priority));
            assert(tasks@[i as int].trigger is Software ==> prios@.contains(tasks@[i as int].priority));
            assert(prios@ != before ==> tasks@[i as int].trigger is Software);
            assert forall|q: u8| #[trigger] prios@.to_set().contains(q) == software_priorities(next).contains(q) by {
                if software_priorities(cur).contains(q) {
                    let w = choose|w: int|
                        0 <= w < cur.len() && cur[w].trigger is Software && #[trigger] cur[w].priority == q;
                    assert(next[w] == cur[w]);
                    assert(next[w].priority == q);
                }
                if software_priorities(next).contains(q) {
                    let w = choose|w: int|
                        0 <= w < next.len() && next[w].trigger is Software && #[trigger] next[w].priority == q;
                    if w < i {
                        assert(cur[w] == next[w]);
                        assert(cur[w].priority == q);
                        assert(software_priorities(cur).contains(q));
                        assert(before.to_set().contains(q));
                        assert(before.contains(q));
                        let z = choose|z: int| 0 <= z < before.len() && before[z] == q;
                        if prios@ != before {
                            assert(prios@[z] == before[z]);
                        }
                        assert(prios@.contains(q));
                    } else {
                        assert(next[w] == tasks@[i as int]);
                        assert(prios@.contains(q));
                    }
                }
                if prios@.to_set().contains(q) {
                    assert(prios@.contains(q));
                    let z = choose|z: int| 0 <= z < prios@.len() && prios@[z] == q;
                    if z < before.len() {
                        assert(before[z] == q);
                        assert(before.contains(q));
                        assert(before.to_set().contains(q));
                        assert(software_priorities(cur).contains(q));
                        let w = choose|w: int|
                            0 <= w < cur.len() && cur[w].trigger is Software && #[trigger] cur[w].priority == q;
                        assert(next[w] == cur[w]);
                        assert(next[w].priority == q);
                    } else {
                        assert(prios@ == before.push(tasks@[i as int].priority));
                        assert(next[i as int] == tasks@[i as int]);
                        assert(next[i as int].priority == q);
                    }
                }
            }
            assert(prios@.to_set() =~= software_priorities(next));
        }
        i = i + 1;
    }
    proof {
        assert(tasks@.take(tasks@.len() as int) =~= tasks@);
    }
    prios
}

/// Reserves free reviewed vectors as RTIC software dispatchers: one per
/// distinct software-task priority (at least one), taken from the reviewed
/// pool in order, skipping every vector a task binds.
pub fn select_dispatchers(tasks: &Vec<ResolvedTask>) -> (r: Result<Vec<String>, String>)
    ensures
        r is Ok <==> free_vectors(tasks@, dispatcher_pool()).len() >= dispatcher_count(tasks@),
        r matches Ok(v) ==> string_views(v@) == free_vectors(tasks@, dispatcher_pool()).take(
            dispatcher_count(tasks@) as int,
        ),
        r matches Err(e) ==> e@ == "STM32F4 target needs "@ + decimal(dispatcher_count(tasks@))
            + " RTIC dispatchers but its reviewed dispatcher pool is exhausted"@,
{
    let prios = software_priority_list(tasks);
    proof {
        prios@.unique_seq_to_set();
    }
    let count: usize = if prios.len() == 0 {
        1
    } else {
        prios.len()
    };
    let pool: [&'static str; 12] = [
        "EXTI0",
        "EXTI1",
        "EXTI2",
        "EXTI3",
        "EXTI4",
        "CAN1_TX",
        "CAN2_TX",
        "CAN1_RX0",
        "CAN1_RX1",
        "CAN1_SCE",
        "CAN2_RX0",
        "CAN2_RX1",
    ];
    proof {
        reveal_strlit("EXTI0");
        reveal_strlit("EXTI1");
        reveal_strlit("EXTI2");
        reveal_strlit("EXTI3");
        reveal_strlit("EXTI4");
        reveal_strlit("CAN1_TX");
        reveal_strlit("CAN2_TX");
        reveal_strlit("CAN1_RX0");
        reveal_strlit("CAN1_RX1");
        reveal_strlit("CAN1_SCE");
        reveal_strlit("CAN2_RX0");
        reveal_strlit("CAN2_RX1");
        assert(strs(pool@) =~= dispatcher_pool());
    }
    let mut free: Vec<String> = Vec::new();
    let mut k: usize = 0;
    while k < 12
        invariant
            k <= 12,
            strs(pool@) == dispatcher_pool(),
            string_views(free@) == free_vectors(tasks@, dispatcher_pool().take(k as int)),
        decreases 12 - k,
    {
        proof {
            assert(dispatcher_pool().take(k + 1).drop_last() =~= dispatcher_pool().take(k as int));
            assert(dispatcher_pool().take(k + 1).last() == pool@[k as int]@);
        }
        if !interrupt_used_exec(tasks, pool[k]) {
            free.push(String::from_str(pool[k]));
        }
        k = k + 1;
        proof {
            assert(string_views(free@) =~= free_vectors(tasks@, dispatcher_pool().take(k as int)));
        }
    }
    proof {
        assert(dispatcher_pool().take(12) =~= dispatcher_pool());
    }
    if free.len() < count {
        let mut message = String::from_str("STM32F4 target needs ");
        push_decimal_usize(&mut message, count);
        message.append(" RTIC dispatchers but its reviewed dispatcher pool is exhausted");
        return Err(message);
    }
    free.truncate(count);
    proof {
        assert(string_views(free@) =~= free_vectors(tasks@, dispatcher_pool()).take(count as int));
    }
    Ok(free)
}

/// Sole task-local endpoint of an authoritative safety channel.
#[derive(Clone, Debug)]
pub struct ResolvedSafetyHandle {
    /// Generated RTIC local-resource identifier.
    pub id: &'static str,
    /// Concrete task that exclusively owns this handle.
    pub owner_task: String,
}

/// One validated authoritative SPSC channel and its exclusive owners.
#[derive(Clone, Debug)]
pub struct ResolvedSafetyChannel {
    /// Private storage identifier used only during RTIC initialization.
    pub id: &'static str,
    /// Authoritative message family carried by the channel.
    pub message: SafetyMessage,
    /// Number of messages accepted without an intervening receive.
    pub usable_capacity: usize,
    /// Sole producer handle and owner.
    pub producer: ResolvedSafetyHandle,
    /// Sole consumer handle and owner.
    pub consumer: ResolvedSafetyHandle,
}

/// Resolved task `t` binds resource `x` through a local slot.
pub open spec fn resolved_binds_local(t: ResolvedTask, x: Seq<char>) -> bool {
    exists|m: int| 0 <= m < t.local@.len() && #[trigger] t.local@[m].target@ == x
}

/// Index of the first resolved task, from `j` on, that binds `x` locally.
pub open spec fn first_local_owner(tasks: Seq<ResolvedTask>, x: Seq<char>, j: int) -> Option<int>
    decreases tasks.len() - j,
{
    if j < 0 || j >= tasks.len() {
        None
    } else if resolved_binds_local(tasks[j], x) {
        Some(j)
    } else {
        first_local_owner(tasks, x, j + 1)
    }
}

fn find_local_owner(tasks: &Vec<ResolvedTask>, resource: &str) -> (r: Option<usize>)
    ensures
        match (r, first_local_owner(tasks@, resource@, 0)) {
            (None, None) => true,
            (Some(a), Some(b)) => a == b && a < tasks@.len(),
            _ => false,
        },
{
    let mut j: usize = 0;
    while j < tasks.len()
        invariant
            j <= tasks@.len(),
            first_local_owner(tasks@, resource@, 0) == first_local_owner(tasks@, resource@, j as int),
        decreases tasks@.len() - j,
    {
        let mut m: usize = 0;
        while m < tasks[j].local.len()
            invariant
                j < tasks@.len(),
                first_local_owner(tasks@, resource@, 0) == first_local_owner(tasks@, resource@, j as int),
                m <= tasks@[j as int].local@.len(),
                forall|q: int| 0 <= q < m ==> #[trigger] tasks@[j as int].local@[q].target@ != resource@,
            decreases tasks@[j as int].local@.len() - m,
        {
            if str_eq(tasks[j].local[m].target.as_str(), resource) {
                proof {
                    assert(resolved_binds_local(tasks@[j as int], resource@));
                }
                return Some(j);
            }
            m = m + 1;
        }
        j = j + 1;
    }
    None
}

/// Diagnostic for a safety handle whose owner cannot be found.
pub open spec fn lost_owner_message(channel: SafetyChannelDeclaration, x: Seq<char>) -> Seq<char> {
    "safety channel `"@ + channel.id@ + "` resource `"@ + x + "` lost its validated owner"@
}

/// Rule a safety channel breaks during resolution: each handle needs an
/// owning resolved task.
pub open spec fn safety_channel_resolution_error(
    tasks: Seq<ResolvedTask>,
    channel: SafetyChannelDeclaration,
) -> Option<Seq<char>> {
    if first_local_owner(tasks, channel.producer@, 0) is None {
        Some(lost_owner_message(channel, channel.producer@))
    } else if first_local_owner(tasks, channel.consumer@, 0) is None {
        Some(lost_owner_message(channel, channel.consumer@))
    } else {
        None
    }
}

fn handle_owner(
    tasks: &Vec<ResolvedTask>,
    channel: &SafetyChannelDeclaration,
    resource: &'static str,
) -> (r: Result<ResolvedSafetyHandle, String>)
    ensures
        match (r, first_local_owner(tasks@, resource@, 0)) {
            (Ok(h), Some(j)) => h.id == resource && h.owner_task@ == tasks@[j].id@,
            (Err(e), None) => e@ == lost_owner_message(*channel, resource@),
            _ => false,
        },
{
    match find_local_owner(tasks, resource) {
        Some(j) => Ok(
            ResolvedSafetyHandle { id: resource, owner_task: String::from_str(tasks[j].id.as_str()) },
        ),
        None => Err(
            concat5("safety channel `", channel.id, "` resource `", resource, "` lost its validated owner"),
        ),
    }
}

/// Resolves a safety channel to the first resolved task owning each of its
/// handles.
pub fn resolve_safety_channel(tasks: &Vec<ResolvedTask>, channel: SafetyChannelDeclaration) -> (r:
    Result<ResolvedSafetyChannel, String>)
    ensures
        r is Ok <==> safety_channel_resolution_error(tasks@, channel) is None,
        r matches Err(e) ==> safety_channel_resolution_error(tasks@, channel) == Some(e@),
        r matches Ok(c) ==> {
            &&& c.id == channel.id
            &&& c.message == channel.message
            &&& c.usable_capacity == channel.usable_capacity
            &&& c.producer.id == channel.producer
            &&& c.consumer.id == channel.consumer
            &&& c.producer.owner_task@ == tasks@[first_local_owner(
                tasks@,
                channel.producer@,
                0,
            ).unwrap()].id@
            &&& c.consumer.owner_task@ == tasks@[first_local_owner(
                tasks@,
                channel.consumer@,
                0,
            ).unwrap()].id@
        },
{
    let producer = handle_owner(tasks, &channel, channel.producer)?;
    let consumer = handle_owner(tasks, &channel, channel.consumer)?;
    Ok(
        ResolvedSafetyChannel {
            id: channel.id,
            message: channel.message,
            usable_capacity: channel.usable_capacity,
            producer,
            consumer,
        },
    )
}

/// One periodic-control resource with its generated, instance-qualified ID.
#[derive(Clone, Debug)]
pub struct ResolvedPeriodicControlResource {
    /// Generated RTIC local-resource identifier.
    pub id: String,
    /// Semantic role from the reusable periodic-control definition.
    pub role: PeriodicControlResourceRole,
}

/// One expanded timer-backed periodic control scheduler.
#[derive(Clone, Debug)]
pub struct ResolvedPeriodicControl {
    /// Application periodic-control declaration.
    pub declaration: PeriodicControlDeclaration,
    /// Explicit board timer consumed by the component.
    pub hardware: TimerHardwareDeclaration,
    /// Instance-qualified private task resources.
    pub resources: Vec<ResolvedPeriodicControlResource>,
}

/// Name of a periodic-control role as diagnostics print it.
pub open spec fn periodic_role_name(role: PeriodicControlResourceRole) -> Seq<char> {
    match role {
        PeriodicControlResourceRole::Scheduler => "Scheduler"@,
        PeriodicControlResourceRole::Phase => "Phase"@,
    }
}

fn periodic_role_str(role: PeriodicControlResourceRole) -> (r: &'static str)
    ensures
        r@ == periodic_role_name(role),
{
    match role {
        PeriodicControlResourceRole::Scheduler => "Scheduler",
        PeriodicControlResourceRole::Phase => "Phase",
    }
}

/// Index of the first resource, from `j` on, with the given role.
pub open spec fn periodic_role_index_from(
    resources: Seq<ResolvedPeriodicControlResource>,
    role: PeriodicControlResourceRole,
    j: int,
) -> Option<int>
    decreases resources.len() - j,
{
    if j < 0 || j >= resources.len() {
        None
    } else if resources[j].role == role {
        Some(j)
    } else {
        periodic_role_index_from(resources, role, j + 1)
    }
}

impl ResolvedPeriodicControl {
    /// Returns the generated ID of the first resource with the given role.
    pub fn resource_id(&self, role: PeriodicControlResourceRole) -> (r: Result<&str, String>)
        ensures
            match (r, periodic_role_index_from(self.resources@, role, 0)) {
                (Ok(id), Some(j)) => id@ == self.resources@[j].id@,
                (Err(e), None) => e@ == "periodic control `"@ + self.declaration.id@ + "` has no "@
                    + periodic_role_name(role) + " resource"@,
                _ => false,
            },
    {
        let mut j: usize = 0;
        while j < self.resources.len()
            invariant
                j <= self.resources@.len(),
                periodic_role_index_from(self.resources@, role, 0) == periodic_role_index_from(
                    self.resources@,
                    role,
                    j as int,
                ),
            decreases self.resources@.len() - j,
        {
            if self.resources[j].role == role {
                return Ok(self.resources[j].id.as_str());
            }
            j = j + 1;
        }
        Err(concat5("periodic control `", self.declaration.id, "` has no ", periodic_role_str(role), " resource"))
    }
}

/// Generated ID of a periodic-control resource: the instance ID, `_`, and
/// the role's suffix.
pub open spec fn periodic_resource_id(id: Seq<char>, role: PeriodicControlResourceRole) -> Seq<char> {
    id + "_"@ + spec_resource_suffix(role)
}

/// Index of the first resource of the definition, from `j` on, whose role a
/// resource before it already has.
pub open spec fn repeated_role_from(d: PeriodicControlDeclaration, j: int) -> Option<int>
    decreases d.definition.resources@.len() - j,
{
    let rs = d.definition.resources@;
    if j < 0 || j >= rs.len() {
        None
    } else if exists|k: int| 0 <= k < j && #[trigger] rs[k].role == rs[j].role {
        Some(j)
    } else {
        repeated_role_from(d, j + 1)
    }
}

/// Rule a periodic-control declaration breaks during resolution.
pub open spec fn periodic_control_resolution_error(
    board: BoardDeclaration,
    d: PeriodicControlDeclaration,
) -> Option<Seq<char>> {
    if board_timer(board, d.hardware_id@) is None {
        Some(
            "periodic control `"@ + d.id@ + "` hardware `"@ + d.hardware_id@
                + "` disappeared after validation"@,
        )
    } else if let Some(j) = repeated_role_from(d, 0) {
        Some(
            "periodic control definition `"@ + d.definition.id@ + "` repeats resource role `"@
                + periodic_role_name(d.definition.resources@[j].role) + "`"@,
        )
    } else {
        None
    }
}

/// Resolves a periodic control to its board timer and its resources, each
/// named after the instance and its role.
pub fn resolve_periodic_control(board: &BoardDeclaration, declaration: PeriodicControlDeclaration) -> (r:
    Result<ResolvedPeriodicControl, String>)
    ensures
        r is Ok <==> periodic_control_resolution_error(*board, declaration) is None,
        r matches Err(e) ==> periodic_control_resolution_error(*board, declaration) == Some(e@),
        r matches Ok(c) ==> {
            &&& c.declaration == declaration
            &&& board_timer(*board, declaration.hardware_id@) == Some(c.hardware)
            &&& c.resources@.len() == declaration.definition.resources@.len()
            &&& forall|k: int|
                0 <= k < c.resources@.len() ==> #[trigger] c.resources@[k].role
                    == declaration.definition.resources@[k].role && c.resources@[k].id@
                    == periodic_resource_id(declaration.id@, c.resources@[k].role)
        },
{
    let hardware = match board.timer(declaration.hardware_id) {
        Some(hardware) => hardware,
        None => {
            return Err(
                concat5(
                    "periodic control `",
                    declaration.id,
                    "` hardware `",
                    declaration.hardware_id,
                    "` disappeared after validation",
                ),
            );
        },
    };
    let mut resources: Vec<ResolvedPeriodicControlResource> = Vec::new();
    let mut j: usize = 0;
    while j < declaration.definition.resources.len()
        invariant
            j <= declaration.definition.resources@.len(),
            resources@.len() == j,
            forall|k: int|
                0 <= k < j ==> #[trigger] resources@[k].role == declaration.definition.resources@[k].role
                    && resources@[k].id@ == periodic_resource_id(declaration.id@, resources@[k].role),
            repeated_role_from(declaration, 0) == repeated_role_from(declaration, j as int),
            board_timer(*board, declaration.hardware_id@) == Some(hardware),
        decreases declaration.definition.resources@.len() - j,
    {
        let role = declaration.definition.resources[j].role;
        let mut k: usize = 0;
        while k < j
            invariant
                j < declaration.definition.resources@.len(),
                k <= j,
                role == declaration.definition.resources@[j as int].role,
                repeated_role_from(declaration, 0) == repeated_role_from(declaration, j as int),
                board_timer(*board, declaration.hardware_id@) == Some(hardware),
                forall|q: int| 0 <= q < k ==> #[trigger] declaration.definition.resources@[q].role != role,
            decreases j - k,
        {
            if declaration.definition.resources[k].role == role {
                proof {
                    assert(declaration.definition.resources@[k as int].role == role);
                    assert(repeated_role_from(declaration, j as int) == Some(j as int));
                }
                return Err(
                    concat5(
                        "periodic control definition `",
                        declaration.definition.id,
                        "` repeats resource role `",
                        periodic_role_str(role),
                        "`",
                    ),
                );
            }
            k = k + 1;
        }
        let id = concat3(declaration.id, "_", resource_suffix(role));
        resources.push(ResolvedPeriodicControlResource { id, role });
        proof {
            reveal_strlit("_");
            assert(resources@[j as int].id@ == periodic_resource_id(declaration.id@, role));
        }
        j = j + 1;
    }
    Ok(ResolvedPeriodicControl { declaration, hardware, resources })
}

/// Index of the first entry, from `j` on, whose identifier is `id`.
pub open spec fn id_index_from(ids: Seq<(&str, &'static str)>, id: Seq<char>, j: int) -> Option<int>
    decreases ids.len() - j,
{
    if j < 0 || j >= ids.len() {
        None
    } else if ids[j].0@ == id {
        Some(j)
    } else {
        id_index_from(ids, id, j + 1)
    }
}

/// No identifier occurs twice among the entries.
pub open spec fn ids_distinct(ids: Seq<(&str, &'static str)>) -> bool {
    forall|a: int, b: int| 0 <= a < b < ids.len() ==> #[trigger] ids[a].0@ != #[trigger] ids[b].0@
}

/// Diagnostic for an identifier claimed by two kinds of generated item.
pub open spec fn collision_message(id: Seq<char>, existing: Seq<char>, kind: Seq<char>) -> Seq<char> {
    "generated ID `"@ + id + "` is used by both "@ + existing + " and "@ + kind
}

/// Records that `kind` claims generated identifier `id`, unless an earlier
/// entry already claims it; the entries then stay as they were.
pub fn insert_unique<'a>(ids: &mut Vec<(&'a str, &'static str)>, id: &'a str, kind: &'static str) -> (r:
    Result<(), String>)
    ensures
        match id_index_from(old(ids)@, id@, 0) {
            Some(j) => r matches Err(e) && e@ == collision_message(id@, old(ids)@[j].1@, kind@)
                && final(ids)@ == old(ids)@,
            None => r is Ok && final(ids)@ == old(ids)@.push((id, kind)),
        },
        ids_distinct(old(ids)@) && r is Ok ==> ids_distinct(final(ids)@),
{
    let mut j: usize = 0;
    while j < ids.len()
        invariant
            j <= ids@.len(),
            id_index_from(ids@, id@, 0) == id_index_from(ids@, id@, j as int),
            forall|q: int| 0 <= q < j ==> #[trigger] ids@[q].0@ != id@,
        decreases ids@.len() - j,
    {
        if str_eq(ids[j].0, id) {
            let mut message = concat5("generated ID `", id, "` is used by both ", ids[j].1, " and ");
            message.append(kind);
            return Err(message);
        }
        j = j + 1;
    }
    ids.push((id, kind));
    proof {
        let n = ids@.len() - 1;
        assert forall|a: int, b: int| 0 <= a < b < ids@.len() && ids_distinct(old(ids)@) implies #[trigger] ids@[a].0@
            != #[trigger] ids@[b].0@ by {
            if b == n {
                assert(ids@[a] == old(ids)@[a]);
            } else {
                assert(ids@[a] == old(ids)@[a]);
                assert(ids@[b] == old(ids)@[b]);
            }
        }
    }
    Ok(())
}

/// Identifiers and kinds of claims, as character sequences.
pub open spec fn claim_views(v: Seq<(&str, &'static str)>) -> Seq<(Seq<char>, Seq<char>)> {
    v.map_values(|c: (&str, &'static str)| (c.0@, c.1@))
}

proof fn lemma_claim_views(v: Seq<(&str, &'static str)>)
    ensures
        claim_views(v).len() == v.len(),
        forall|i: int| 0 <= i < v.len() ==> #[trigger] claim_views(v)[i] == (v[i].0@, v[i].1@),
{
}

proof fn lemma_claims_push(before: Seq<(&str, &'static str)>, x: (&str, &'static str))
    ensures
        claim_views(before.push(x)) == claim_views(before).push((x.0@, x.1@)),
{
    lemma_claim_views(before);
    lemma_claim_views(before.push(x));
    assert(claim_views(before.push(x)) =~= claim_views(before).push((x.0@, x.1@)));
}

proof fn lemma_map_take_push<A, B>(s: Seq<A>, k: int, f: spec_fn(A) -> B)
    requires
        0 <= k < s.len(),
    ensures
        s.take(k + 1).map_values(f) == s.take(k).map_values(f).push(f(s[k])),
{
    assert(s.take(k + 1).map_values(f) =~= s.take(k).map_values(f).push(f(s[k])));
}

/// Index of the first claim in `[j, n)` whose identifier is `x`.
pub open spec fn first_claim(cs: Seq<(Seq<char>, Seq<char>)>, x: Seq<char>, j: int, n: int) -> Option<int>
    decreases n - j,
{
    if j < 0 || j >= n || j >= cs.len() {
        None
    } else if cs[j].0 == x {
        Some(j)
    } else {
        first_claim(cs, x, j + 1, n)
    }
}

/// First identifier collision among the first `n` claims, as its
/// diagnostic naming the earlier claim's kind and the later one's.
pub open spec fn claims_error_upto(cs: Seq<(Seq<char>, Seq<char>)>, n: int) -> Option<Seq<char>>
    decreases n,
{
    if n <= 0 {
        None
    } else if claims_error_upto(cs, n - 1) is Some {
        claims_error_upto(cs, n - 1)
    } else {
        match first_claim(cs, cs[n - 1].0, 0, n - 1) {
            Some(k) => Some(collision_message(cs[n - 1].0, cs[k].1, cs[n - 1].1)),
            None => None,
        }
    }
}

proof fn lemma_claims_error_stable(cs: Seq<(Seq<char>, Seq<char>)>, a: int, b: int)
    requires
        0 <= a <= b,
        claims_error_upto(cs, a) is Some,
    ensures
        claims_error_upto(cs, b) == claims_error_upto(cs, a),
    decreases b - a,
{
    if b > a {
        lemma_claims_error_stable(cs, a, b - 1);
    }
}

proof fn lemma_id_index_range(ids: Seq<(&str, &'static str)>, x: Seq<char>, j: int)
    requires
        0 <= j,
    ensures
        id_index_from(ids, x, j) matches Some(k) ==> j <= k < ids.len(),
    decreases ids.len() - j,
{
    if j < ids.len() {
        lemma_id_index_range(ids, x, j + 1);
    }
}

proof fn lemma_id_index_matches(
    ids: Seq<(&str, &'static str)>,
    cs: Seq<(Seq<char>, Seq<char>)>,
    x: Seq<char>,
    j: int,
    n: int,
)
    requires
        0 <= j,
        ids.len() == n,
        n <= cs.len(),
        claim_views(ids) == cs.take(n),
    ensures
        id_index_from(ids, x, j) == first_claim(cs, x, j, n),
    decreases n - j,
{
    if j < n {
        assert(claim_views(ids)[j] == cs[j]);
        lemma_id_index_matches(ids, cs, x, j + 1, n);
    }
}

/// Claims each identifier in order and rejects the first one an earlier
/// claim already holds.
pub fn validate_unique_ids(claims: &Vec<(&str, &'static str)>) -> (r: Result<(), String>)
    ensures
        r is Ok <==> claims_error_upto(claim_views(claims@), claims@.len() as int) is None,
        r matches Err(e) ==> claims_error_upto(claim_views(claims@), claims@.len() as int) == Some(
            e@,
        ),
{
    let ghost cs = claim_views(claims@);
    let mut ids: Vec<(&str, &'static str)> = Vec::new();
    let mut i: usize = 0;
    while i < claims.len()
        invariant
            i <= claims@.len(),
            cs == claim_views(claims@),
            ids@.len() == i,
            claim_views(ids@) == cs.take(i as int),
            claims_error_upto(cs, i as int) is None,
        decreases claims@.len() - i,
    {
        let (id, kind) = claims[i];
        proof {
            lemma_claim_views(claims@);
            lemma_claim_views(ids@);
            lemma_id_index_matches(ids@, cs, id@, 0, i as int);
            assert(cs[i as int] == (id@, kind@));
            if id_index_from(ids@, id@, 0) is Some {
                let j = id_index_from(ids@, id@, 0).unwrap();
                assert(0 <= j < i) by {
                    lemma_id_index_range(ids@, id@, 0);
                }
                assert(claim_views(ids@)[j] == cs[j]);
            }
        }
        let result = insert_unique(&mut ids, id, kind);
        if let Err(e) = result {
            proof {
                assert(claims_error_upto(cs, i + 1) is Some);
                lemma_claims_error_stable(cs, i + 1, claims@.len() as int);
            }
            return Err(e);
        }
        i = i + 1;
        proof {
            lemma_claim_views(ids@);
            assert(claim_views(ids@) =~= cs.take(i as int));
        }
    }
    Ok(())
}

/// One application-owned RTIC shared resource.
#[derive(Clone, Copy, Debug)]
pub struct ResolvedSharedResource {
    /// Generated RTIC field identifier.
    pub id: &'static str,
    /// Initial value returned by `init`.
    pub initial: crate::composition::SharedValue,
}

/// Identifier claims of generated resources, in order: shared resources,
/// then each safety channel's storage, producer, and consumer, then board
/// GPIOs, task-local state, serial-endpoint resources, IMU-endpoint
/// resources, and periodic-control resources.
pub open spec fn resource_claims(
    shared: Seq<ResolvedSharedResource>,
    channels: Seq<ResolvedSafetyChannel>,
    gpio: Seq<ResolvedGpioResource>,
    states: Seq<ResolvedTaskState>,
    endpoints: Seq<ResolvedSerialEndpoint>,
    imus: Seq<ResolvedImuEndpoint>,
    controls: Seq<ResolvedPeriodicControl>,
) -> Seq<(Seq<char>, Seq<char>)> {
    shared.map_values(|r: ResolvedSharedResource| (r.id@, "application shared resource"@)) + channel_claims(
        channels,
    ) + gpio.map_values(|g: ResolvedGpioResource| (g.hardware.id@, "board GPIO"@)) + states.map_values(
        |t: ResolvedTaskState| (t.id@, "application task-local state"@),
    ) + serial_claims(endpoints) + imu_claims(imus) + control_claims(controls)
}

/// Resource claims of each serial endpoint.
pub open spec fn serial_claims(endpoints: Seq<ResolvedSerialEndpoint>) -> Seq<(Seq<char>, Seq<char>)>
    decreases endpoints.len(),
{
    if endpoints.len() == 0 {
        Seq::empty()
    } else {
        serial_claims(endpoints.drop_last()) + endpoints.last().resources@.map_values(
            |r: ResolvedEndpointResource| (r.id@, "serial endpoint resource"@),
        )
    }
}

/// Resource claims of each IMU endpoint.
pub open spec fn imu_claims(endpoints: Seq<ResolvedImuEndpoint>) -> Seq<(Seq<char>, Seq<char>)>
    decreases endpoints.len(),
{
    if endpoints.len() == 0 {
        Seq::empty()
    } else {
        imu_claims(endpoints.drop_last()) + endpoints.last().resources@.map_values(
            |r: ResolvedImuEndpointResource| (r.id@, "IMU endpoint resource"@),
        )
    }
}

/// Storage, producer, and consumer claims of each safety channel.
pub open spec fn channel_claims(channels: Seq<ResolvedSafetyChannel>) -> Seq<(Seq<char>, Seq<char>)>
    decreases channels.len(),
{
    if channels.len() == 0 {
        Seq::empty()
    } else {
        let c = channels.last();
        channel_claims(channels.drop_last()) + seq![
            (c.id@, "safety-channel storage"@),
            (c.producer.id@, "safety-channel producer"@),
            (c.consumer.id@, "safety-channel consumer"@),
        ]
    }
}

/// Resource claims of each periodic control.
pub open spec fn control_claims(controls: Seq<ResolvedPeriodicControl>) -> Seq<(Seq<char>, Seq<char>)>
    decreases controls.len(),
{
    if controls.len() == 0 {
        Seq::empty()
    } else {
        control_claims(controls.drop_last()) + controls.last().resources@.map_values(
            |r: ResolvedPeriodicControlResource| (r.id@, "periodic control resource"@),
        )
    }
}

/// Identifier claims of resolved tasks.
pub open spec fn task_claims(tasks: Seq<ResolvedTask>) -> Seq<(Seq<char>, Seq<char>)> {
    tasks.map_values(|t: ResolvedTask| (t.id@, "resolved task"@))
}

/// Rejects the first generated resource identifier claimed twice, then the
/// first resolved task identifier claimed twice.
pub fn validate_unique_generated_ids(
    shared: &Vec<ResolvedSharedResource>,
    safety_channels: &Vec<ResolvedSafetyChannel>,
    gpio: &Vec<ResolvedGpioResource>,
    task_state: &Vec<ResolvedTaskState>,
    endpoints: &Vec<ResolvedSerialEndpoint>,
    imu_endpoints: &Vec<ResolvedImuEndpoint>,
    periodic_controls: &Vec<ResolvedPeriodicControl>,
    tasks: &Vec<ResolvedTask>,
) -> (r: Result<(), String>)
    ensures
        ({
            let rc = resource_claims(
                shared@,
                safety_channels@,
                gpio@,
                task_state@,
                endpoints@,
                imu_endpoints@,
                periodic_controls@,
            );
            let tc = task_claims(tasks@);
            match claims_error_upto(rc, rc.len() as int) {
                Some(m) => r matches Err(e) && e@ == m,
                None => match claims_error_upto(tc, tc.len() as int) {
                    Some(m) => r matches Err(e) && e@ == m,
                    None => r is Ok,
                },
            }
        }),
{
    proof {
        reveal_strlit("application shared resource");
        reveal_strlit("safety-channel storage");
        reveal_strlit("safety-channel producer");
        reveal_strlit("safety-channel consumer");
        reveal_strlit("board GPIO");
        reveal_strlit("periodic control resource");
        reveal_strlit("resolved task");
        reveal_strlit("application task-local state");
        reveal_strlit("serial endpoint resource");
        reveal_strlit("IMU endpoint resource");
    }
    let mut claims: Vec<(&str, &'static str)> = Vec::new();
    let mut k: usize = 0;
    while k < shared.len()
        invariant
            k <= shared@.len(),
            claims@.len() == k,
            claim_views(claims@) == shared@.take(k as int).map_values(
                |r: ResolvedSharedResource| (r.id@, "application shared resource"@),
            ),
        decreases shared@.len() - k,
    {
        let ghost before = claims@;
        claims.push((shared[k].id, "application shared resource"));
        proof {
            lemma_claims_push(before, (shared[k as int].id, "application shared resource"));
            lemma_map_take_push(
                shared@,
                k as int,
                |r: ResolvedSharedResource| (r.id@, "application shared resource"@),
            );
        }
        k = k + 1;
        proof {
            lemma_claim_views(claims@);
            assert(claim_views(claims@) =~= shared@.take(k as int).map_values(
                |r: ResolvedSharedResource| (r.id@, "application shared resource"@),
            ));
        }
    }
    let ghost base0 = claim_views(claims@);
    let ghost n0 = claims@.len();
    proof {
        lemma_claim_views(claims@);
    }
    proof {
        assert(shared@.take(shared@.len() as int) =~= shared@);
    }
    let mut k: usize = 0;
    while k < safety_channels.len()
        invariant
            k <= safety_channels@.len(),
            base0.len() == n0,
            claims@.len() == n0 + 3 * k,
            claim_views(claims@) == base0 + channel_claims(safety_channels@.take(k as int)),
        decreases safety_channels@.len() - k,
    {
        let ghost before = claims@;
        let c = &safety_channels[k];
        claims.push((c.id, "safety-channel storage"));
        proof {
            lemma_claims_push(before, (c.id, "safety-channel storage"));
        }
        let ghost mid1 = claims@;
        claims.push((c.producer.id, "safety-channel producer"));
        proof {
            lemma_claims_push(mid1, (c.producer.id, "safety-channel producer"));
        }
        let ghost mid2 = claims@;
        claims.push((c.consumer.id, "safety-channel consumer"));
        proof {
            lemma_claims_push(mid2, (c.consumer.id, "safety-channel consumer"));
        }
        k = k + 1;
        proof {
            lemma_claim_views(claims@);
            lemma_claim_views(before);
            assert(safety_channels@.take(k as int).drop_last() =~= safety_channels@.take(k - 1));
            assert(safety_channels@.take(k as int).last() == *c);
            assert(claim_views(claims@) =~= base0 + channel_claims(safety_channels@.take(k as int)));
        }
    }
    let ghost base1 = claim_views(claims@);
    let ghost n1 = claims@.len();
    proof {
        lemma_claim_views(claims@);
    }
    proof {
        assert(safety_channels@.take(safety_channels@.len() as int) =~= safety_channels@);
    }
    let mut k: usize = 0;
    while k < gpio.len()
        invariant
            k <= gpio@.len(),
            base1.len() == n1,
            claims@.len() == n1 + k,
            claim_views(claims@) == base1 + gpio@.take(k as int).map_values(
                |g: ResolvedGpioResource| (g.hardware.id@, "board GPIO"@),
            ),
        decreases gpio@.len() - k,
    {
        let ghost before = claims@;
        claims.push((gpio[k].hardware.id, "board GPIO"));
        proof {
            lemma_claims_push(before, (gpio[k as int].hardware.id, "board GPIO"));
            lemma_map_take_push(gpio@, k as int, |g: ResolvedGpioResource| (g.hardware.id@, "board GPIO"@));
        }
        k = k + 1;
        proof {
            lemma_claim_views(claims@);
            assert(claim_views(claims@) =~= base1 + gpio@.take(k as int).map_values(
                |g: ResolvedGpioResource| (g.hardware.id@, "board GPIO"@),
            ));
        }
    }
    let ghost base2 = claim_views(claims@);
    let ghost n2 = claims@.len();
    proof {
        lemma_claim_views(claims@);
    }
    proof {
        assert(gpio@.take(gpio@.len() as int) =~= gpio@);
    }
    let mut k: usize = 0;
    while k < task_state.len()
        invariant
            k <= task_state@.len(),
            base2.len() == n2,
            claims@.len() == n2 + k,
            claim_views(claims@) == base2 + task_state@.take(k as int).map_values(
                |t: ResolvedTaskState| (t.id@, "application task-local state"@),
            ),
        decreases task_state@.len() - k,
    {
        let ghost before = claims@;
        claims.push((task_state[k].id, "application task-local state"));
        proof {
            lemma_claims_push(before, (task_state[k as int].id, "application task-local state"));
            lemma_map_take_push(
                task_state@,
                k as int,
                |t: ResolvedTaskState| (t.id@, "application task-local state"@),
            );
        }
        k = k + 1;
        proof {
            lemma_claim_views(claims@);
            assert(claim_views(claims@) =~= base2 + task_state@.take(k as int).map_values(
                |t: ResolvedTaskState| (t.id@, "application task-local state"@),
            ));
        }
    }
    let ghost base3 = claim_views(claims@);
    let ghost n3 = claims@.len();
    proof {
        lemma_claim_views(claims@);
        assert(task_state@.take(task_state@.len() as int) =~= task_state@);
    }
    let mut k: usize = 0;
    while k < endpoints.len()
        invariant
            k <= endpoints@.len(),
            base3.len() == n3,
            claims@.len() == base3.len() + serial_claims(endpoints@.take(k as int)).len(),
            claim_views(claims@) == base3 + serial_claims(endpoints@.take(k as int)),
        decreases endpoints@.len() - k,
    {
        let endpoint = &endpoints[k];
        let ghost start = claim_views(claims@);
        let ghost ns = claims@.len();
        proof {
            lemma_claim_views(claims@);
        }
        let mut m: usize = 0;
        while m < endpoint.resources.len()
            invariant
                m <= endpoint.resources@.len(),
                start.len() == ns,
                claims@.len() == ns + m,
                claim_views(claims@) == start + endpoint.resources@.take(m as int).map_values(
                    |r: ResolvedEndpointResource| (r.id@, "serial endpoint resource"@),
                ),
            decreases endpoint.resources@.len() - m,
        {
            let ghost before = claims@;
            let id = endpoint.resources[m].id.as_str();
            claims.push((id, "serial endpoint resource"));
            proof {
                lemma_claims_push(before, (id, "serial endpoint resource"));
                lemma_map_take_push(
                    endpoint.resources@,
                    m as int,
                    |r: ResolvedEndpointResource| (r.id@, "serial endpoint resource"@),
                );
            }
            m = m + 1;
            proof {
                lemma_claim_views(claims@);
                assert(claim_views(claims@) =~= start + endpoint.resources@.take(m as int).map_values(
                    |r: ResolvedEndpointResource| (r.id@, "serial endpoint resource"@),
                ));
            }
        }
        k = k + 1;
        proof {
            lemma_claim_views(claims@);
            assert(endpoint.resources@.take(endpoint.resources@.len() as int) =~= endpoint.resources@);
            assert(endpoints@.take(k as int).last() == *endpoint);
            assert(endpoints@.take(k as int).drop_last() =~= endpoints@.take(k - 1));
            assert(claim_views(claims@) =~= base3 + serial_claims(endpoints@.take(k as int)));
        }
    }
    let ghost base4 = claim_views(claims@);
    let ghost n4 = claims@.len();
    proof {
        lemma_claim_views(claims@);
        assert(endpoints@.take(endpoints@.len() as int) =~= endpoints@);
    }
    let mut k: usize = 0;
    while k < imu_endpoints.len()
        invariant
            k <= imu_endpoints@.len(),
            base4.len() == n4,
            claims@.len() == base4.len() + imu_claims(imu_endpoints@.take(k as int)).len(),
            claim_views(claims@) == base4 + imu_claims(imu_endpoints@.take(k as int)),
        decreases imu_endpoints@.len() - k,
    {
        let endpoint = &imu_endpoints[k];
        let ghost start = claim_views(claims@);
        let ghost ns = claims@.len();
        proof {
            lemma_claim_views(claims@);
        }
        let mut m: usize = 0;
        while m < endpoint.resources.len()
            invariant
                m <= endpoint.resources@.len(),
                start.len() == ns,
                claims@.len() == ns + m,
                claim_views(claims@) == start + endpoint.resources@.take(m as int).map_values(
                    |r: ResolvedImuEndpointResource| (r.id@, "IMU endpoint resource"@),
                ),
            decreases endpoint.resources@.len() - m,
        {
            let ghost before = claims@;
            let id = endpoint.resources[m].id.as_str();
            claims.push((id, "IMU endpoint resource"));
            proof {
                lemma_claims_push(before, (id, "IMU endpoint resource"));
                lemma_map_take_push(
                    endpoint.resources@,
                    m as int,
                    |r: ResolvedImuEndpointResource| (r.id@, "IMU endpoint resource"@),
                );
            }
            m = m + 1;
            proof {
                lemma_claim_views(claims@);
                assert(claim_views(claims@) =~= start + endpoint.resources@.take(m as int).map_values(
                    |r: ResolvedImuEndpointResource| (r.id@, "IMU endpoint resource"@),
                ));
            }
        }
        k = k + 1;
        proof {
            lemma_claim_views(claims@);
            assert(endpoint.resources@.take(endpoint.resources@.len() as int) =~= endpoint.resources@);
            assert(imu_endpoints@.take(k as int).last() == *endpoint);
            assert(imu_endpoints@.take(k as int).drop_last() =~= imu_endpoints@.take(k - 1));
            assert(claim_views(claims@) =~= base4 + imu_claims(imu_endpoints@.take(k as int)));
        }
    }
    let ghost base5 = claim_views(claims@);
    let ghost n5 = claims@.len();
    proof {
        lemma_claim_views(claims@);
        assert(imu_endpoints@.take(imu_endpoints@.len() as int) =~= imu_endpoints@);
    }
    let mut k: usize = 0;
    while k < periodic_controls.len()
        invariant
            k <= periodic_controls@.len(),
            base5.len() == n5,
            claims@.len() == base5.len() + control_claims(periodic_controls@.take(k as int)).len(),
            claim_views(claims@) == base5 + control_claims(periodic_controls@.take(k as int)),
        decreases periodic_controls@.len() - k,
    {
        let control = &periodic_controls[k];
        let ghost start = claim_views(claims@);
        let ghost ns = claims@.len();
        proof {
            lemma_claim_views(claims@);
        }
        let mut m: usize = 0;
        while m < control.resources.len()
            invariant
                m <= control.resources@.len(),
                start.len() == ns,
                claims@.len() == ns + m,
                claim_views(claims@) == start + control.resources@.take(m as int).map_values(
                    |r: ResolvedPeriodicControlResource| (r.id@, "periodic control resource"@),
                ),
            decreases control.resources@.len() - m,
        {
            let ghost before = claims@;
            let id = control.resources[m].id.as_str();
            claims.push((id, "periodic control resource"));
            proof {
                lemma_claims_push(before, (id, "periodic control resource"));
                lemma_map_take_push(
                    control.resources@,
                    m as int,
                    |r: ResolvedPeriodicControlResource| (r.id@, "periodic control resource"@),
                );
            }
            m = m + 1;
            proof {
                lemma_claim_views(claims@);
                assert(claim_views(claims@) =~= start + control.resources@.take(m as int).map_values(
                    |r: ResolvedPeriodicControlResource| (r.id@, "periodic control resource"@),
                ));
            }
        }
        k = k + 1;
        proof {
            lemma_claim_views(claims@);
            assert(control.resources@.take(control.resources@.len() as int) =~= control.resources@);
            assert(periodic_controls@.take(k as int).last() == *control);
            assert(periodic_controls@.take(k as int).drop_last() =~= periodic_controls@.take(k - 1));
            assert(claim_views(claims@) =~= base5 + control_claims(periodic_controls@.take(k as int)));
        }
    }
    proof {
        assert(periodic_controls@.take(periodic_controls@.len() as int) =~= periodic_controls@);
        assert(claim_views(claims@) =~= resource_claims(
            shared@,
            safety_channels@,
            gpio@,
            task_state@,
            endpoints@,
            imu_endpoints@,
            periodic_controls@,
        ));
    }
    validate_unique_ids(&claims)?;
    let mut task_ids: Vec<(&str, &'static str)> = Vec::new();
    let mut k: usize = 0;
    while k < tasks.len()
        invariant
            k <= tasks@.len(),
            task_ids@.len() == k,
            claim_views(task_ids@) == task_claims(tasks@.take(k as int)),
        decreases tasks@.len() - k,
    {
        let ghost before = task_ids@;
        let id = tasks[k].id.as_str();
        task_ids.push((id, "resolved task"));
        proof {
            assert(id@ == tasks@[k as int].id@);
            assert(task_ids@ == before.push((id, "resolved task")));
            assert(task_ids@.len() == k + 1);
            assert(claim_views(task_ids@)[k as int] == (tasks@[k as int].id@, "resolved task"@));
            assert(task_claims(tasks@.take(k + 1))[k as int] == (tasks@[k as int].id@, "resolved task"@));
            assert forall|j: int| 0 <= j < k implies claim_views(task_ids@)[j] == task_claims(tasks@.take(k + 1))[j] by {
                assert(task_ids@[j] == before[j]);
                assert(claim_views(before)[j] == task_claims(tasks@.take(k as int))[j]);
                assert(tasks@.take(k as int)[j] == tasks@.take(k + 1)[j]);
            }
        }
        k = k + 1;
        proof {
            assert(claim_views(task_ids@) =~= task_claims(tasks@.take(k as int)));
        }
    }
    proof {
        assert(tasks@.take(tasks@.len() as int) =~= tasks@);
    }
    validate_unique_ids(&task_ids)
}

proof fn lemma_free_vectors_unused(tasks: Seq<ResolvedTask>, pool: Seq<Seq<char>>)
    ensures
        forall|k: int|
            0 <= k < free_vectors(tasks, pool).len() ==> !interrupt_used(
                tasks,
                #[trigger] free_vectors(tasks, pool)[k],
            ) && pool.contains(free_vectors(tasks, pool)[k]),
    decreases pool.len(),
{
    if pool.len() > 0 {
        lemma_free_vectors_unused(tasks, pool.drop_last());
        let rest = free_vectors(tasks, pool.drop_last());
        assert forall|k: int| 0 <= k < rest.len() implies pool.contains(#[trigger] rest[k]) by {
            let w = choose|w: int| 0 <= w < pool.drop_last().len() && pool.drop_last()[w] == rest[k];
            assert(pool[w] == rest[k]);
        }
        assert(pool[pool.len() - 1] == pool.last());
    }
}

/// Every dispatcher RTIC is given is a reviewed pool vector that no resolved
/// task binds, and there is at least one.
pub proof fn lemma_dispatchers_are_free_vectors(tasks: Seq<ResolvedTask>)
    ensures
        dispatcher_count(tasks) >= 1,
        forall|k: int|
            0 <= k < free_vectors(tasks, dispatcher_pool()).len() ==> !interrupt_used(
                tasks,
                #[trigger] free_vectors(tasks, dispatcher_pool())[k],
            ) && dispatcher_pool().contains(free_vectors(tasks, dispatcher_pool())[k]),
{
    lemma_free_vectors_unused(tasks, dispatcher_pool());
}

proof fn lemma_first_owner_none(tasks: Seq<ResolvedTask>, name: Seq<char>, i: int)
    requires
        first_interrupt_owner(tasks, name, i) is None,
    ensures
        forall|j: int| 0 <= j < i ==> #[trigger] resolved_interrupt(tasks[j].trigger) != Some(name),
    decreases i,
{
    if i > 0 {
        lemma_first_owner_none(tasks, name, i - 1);
    }
}

/// When interrupt ownership validates, no two resolved tasks bind the same
/// interrupt vector.
pub proof fn lemma_validated_interrupts_are_exclusive(tasks: Seq<ResolvedTask>, n: int)
    requires
        0 <= n <= tasks.len(),
        interrupt_ownership_error_upto(tasks, n) is None,
    ensures
        forall|i: int, j: int|
            0 <= i < j < n && resolved_interrupt(tasks[j].trigger) is Some ==> resolved_interrupt(
                #[trigger] tasks[i].trigger,
            ) != resolved_interrupt(#[trigger] tasks[j].trigger),
    decreases n,
{
    if n > 0 {
        lemma_validated_interrupts_are_exclusive(tasks, n - 1);
        if let Some(name) = resolved_interrupt(tasks[n - 1].trigger) {
            lemma_first_owner_none(tasks, name, n - 1);
        }
    }
}

proof fn lemma_first_claim_none(cs: Seq<(Seq<char>, Seq<char>)>, x: Seq<char>, j: int, n: int)
    requires
        0 <= j,
        n <= cs.len(),
        first_claim(cs, x, j, n) is None,
    ensures
        forall|a: int| j <= a < n ==> #[trigger] cs[a].0 != x,
    decreases n - j,
{
    if j < n {
        lemma_first_claim_none(cs, x, j + 1, n);
    }
}

/// When claims validate, every claimed identifier is distinct.
pub proof fn lemma_validated_claims_are_distinct(cs: Seq<(Seq<char>, Seq<char>)>, n: int)
    requires
        0 <= n <= cs.len(),
        claims_error_upto(cs, n) is None,
    ensures
        forall|a: int, b: int| 0 <= a < b < n ==> #[trigger] cs[a].0 != #[trigger] cs[b].0,
    decreases n,
{
    if n > 0 {
        lemma_validated_claims_are_distinct(cs, n - 1);
        lemma_first_claim_none(cs, cs[n - 1].0, 0, n - 1);
    }
}

/// One IMU endpoint resource with its generated, instance-qualified ID.
#[derive(Clone, Debug)]
pub struct ResolvedImuEndpointResource {
    /// Generated RTIC or initialization-local identifier.
    pub id: String,
    /// Semantic role from the reusable endpoint definition.
    pub role: ImuEndpointResourceRole,
    /// RTIC ownership class selected by the endpoint definition.
    pub ownership: ImuEndpointResourceOwnership,
    /// Whether application consumers may bind the resource.
    pub visibility: ImuEndpointResourceVisibility,
}

/// One expanded DMA-backed SPI IMU endpoint.
#[derive(Clone, Debug)]
pub struct ResolvedImuEndpoint {
    /// Application endpoint declaration.
    pub declaration: ImuEndpointDeclaration,
    /// Board IMU installation selected at boot.
    pub hardware: ImuInstallationDeclaration,
    /// SPI endpoint that owns the selected IMU installation.
    pub spi: SpiHardwareDeclaration,
    /// Instance-qualified endpoint resources.
    pub resources: Vec<ResolvedImuEndpointResource>,
}

/// Index of the first IMU endpoint resource, from `j` on, with the given role.
pub open spec fn imu_role_index_from(
    resources: Seq<ResolvedImuEndpointResource>,
    role: ImuEndpointResourceRole,
    j: int,
) -> Option<int>
    decreases resources.len() - j,
{
    if j < 0 || j >= resources.len() {
        None
    } else if resources[j].role == role {
        Some(j)
    } else {
        imu_role_index_from(resources, role, j + 1)
    }
}

impl ResolvedImuEndpoint {
    /// Returns the generated ID of the first resource with the given role.
    pub fn resource_id(&self, role: ImuEndpointResourceRole) -> (r: Result<&str, String>)
        ensures
            match (r, imu_role_index_from(self.resources@, role, 0)) {
                (Ok(id), Some(j)) => id@ == self.resources@[j].id@,
                (Err(e), None) => e@ == "IMU endpoint `"@ + self.declaration.id@ + "` has no "@
                    + imu_role_name(role) + " resource"@,
                _ => false,
            },
    {
        let mut j: usize = 0;
        while j < self.resources.len()
            invariant
                j <= self.resources@.len(),
                imu_role_index_from(self.resources@, role, 0) == imu_role_index_from(
                    self.resources@,
                    role,
                    j as int,
                ),
            decreases self.resources@.len() - j,
        {
            if self.resources[j].role == role {
                return Ok(self.resources[j].id.as_str());
            }
            j = j + 1;
        }
        Err(concat5("IMU endpoint `", self.declaration.id, "` has no ", imu_role_str(role), " resource"))
    }
}

} // verus!
