//! Board validation of the schema-era STM32F4 backend: clock, monotonic,
//! package-pin, DMA receive-route, and pin-ownership facts.

use vstd::prelude::*;

use crate::gpio::{GpioMode, Pull};
use crate::text::{concat3, decimal, push_decimal, str_eq};

verus! {

/// Supported MCU parts.
#[derive(Clone, Copy, Debug, PartialEq, Eq, Structural)]
pub enum Mcu {
    /// STM32F401RE.
    Stm32F401,
    /// STM32F405RG.
    Stm32F405,
}

/// System-clock source.
#[derive(Clone, Copy, Debug, PartialEq, Eq, Structural)]
pub enum ClockSource {
    /// Internal high-speed RC oscillator.
    InternalHighSpeed,
    /// External crystal at the given frequency.
    ExternalCrystal {
        /// Crystal frequency in hertz.
        frequency_hz: u32,
    },
    /// Externally generated clock at the given frequency.
    ExternalClock {
        /// Clock frequency in hertz.
        frequency_hz: u32,
    },
}

/// Clock tree selection.
#[derive(Clone, Copy, Debug, PartialEq, Eq, Structural)]
pub struct Clock {
    /// Oscillator feeding the PLL.
    pub source: ClockSource,
    /// System clock in hertz.
    pub sysclk_hz: u32,
    /// Whether USB needs the 48 MHz PLL output.
    pub requires_pll48: bool,
}

/// MCU and clock of a board.
#[derive(Clone, Copy, Debug, PartialEq, Eq, Structural)]
pub struct Target {
    /// MCU part.
    pub mcu: Mcu,
    /// Clock tree.
    pub clock: Clock,
}

impl Target {
    /// A target clocked from the internal oscillator.
    pub fn internal_high_speed(mcu: Mcu, sysclk_hz: u32) -> (r: Self)
        ensures
            r == (Target {
                mcu,
                clock: Clock { source: ClockSource::InternalHighSpeed, sysclk_hz, requires_pll48: false },
            }),
    {
        Target { mcu, clock: Clock { source: ClockSource::InternalHighSpeed, sysclk_hz, requires_pll48: false } }
    }

    /// A target clocked from an external crystal.
    pub fn external_crystal(mcu: Mcu, frequency_hz: u32, sysclk_hz: u32, requires_pll48: bool) -> (r:
        Self)
        ensures
            r == (Target {
                mcu,
                clock: Clock {
                    source: ClockSource::ExternalCrystal { frequency_hz },
                    sysclk_hz,
                    requires_pll48,
                },
            }),
    {
        Target {
            mcu,
            clock: Clock { source: ClockSource::ExternalCrystal { frequency_hz }, sysclk_hz, requires_pll48 },
        }
    }
}

/// Application monotonic of a board.
#[derive(Clone, Copy, Debug)]
pub enum MonotonicDeclaration {
    /// SysTick monotonic.
    SysTick {
        /// Name under which task bodies see the monotonic.
        id: &'static str,
        /// Clock feeding SysTick in hertz.
        clock_hz: u32,
    },
}

/// Pin coordinate with numeric port (0 is port A) and pin numbers.
#[derive(Clone, Copy, Debug, PartialEq, Eq, Structural)]
pub struct PinId {
    /// Port index, 0 for port A.
    pub port: u8,
    /// Pin number within the port.
    pub pin: u8,
}

impl PinId {
    /// Records a pin coordinate; the package check happens during validation.
    pub fn new(port: u8, pin: u8) -> (r: Self)
        ensures
            r.port == port,
            r.pin == pin,
    {
        PinId { port, pin }
    }
}

/// Numeric DMA route: zero-based controller, stream, and request channel.
#[derive(Clone, Copy, Debug, PartialEq, Eq, Structural)]
pub struct DmaChannel {
    /// Zero-based controller index.
    pub controller: u8,
    /// Stream index.
    pub stream: u8,
    /// Request channel.
    pub channel: u8,
}

impl DmaChannel {
    /// Records a DMA route.
    pub fn new(controller: u8, stream: u8, channel: u8) -> (r: Self)
        ensures
            r.controller == controller,
            r.stream == stream,
            r.channel == channel,
    {
        DmaChannel { controller, stream, channel }
    }
}

/// One-based serial port number.
#[derive(Clone, Copy, Debug, PartialEq, Eq, Structural)]
pub struct SerialPortId {
    /// Port number as printed on the reference manual (USART2 is 2).
    pub number: u8,
}

impl SerialPortId {
    /// Names a serial port by number.
    pub fn new(number: u8) -> (r: Self)
        ensures
            r.number == number,
    {
        SerialPortId { number }
    }
}

/// UART receiver served by DMA.
#[derive(Clone, Copy, Debug)]
pub struct UartRxDma {
    /// Board-local identifier.
    pub id: &'static str,
    /// Serial port.
    pub serial_port: SerialPortId,
    /// Receive pin.
    pub rx_pin: PinId,
    /// Receive DMA route.
    pub dma: DmaChannel,
}

impl UartRxDma {
    /// Declares a DMA-backed UART receiver.
    pub fn new(id: &'static str, serial_port: SerialPortId, rx_pin: PinId, dma: DmaChannel) -> (r:
        Self)
        ensures
            r.id == id,
            r.serial_port == serial_port,
            r.rx_pin == rx_pin,
            r.dma == dma,
    {
        UartRxDma { id, serial_port, rx_pin, dma }
    }
}

/// One named GPIO of a board.
#[derive(Clone, Copy, Debug)]
pub struct Gpio {
    /// Board-local identifier.
    pub id: &'static str,
    /// Physical pin.
    pub pin: PinId,
    /// Pull resistor.
    pub pull: Pull,
    /// Input or output configuration.
    pub mode: GpioMode,
}

/// One hardware resource of a board.
#[derive(Clone, Copy, Debug)]
pub enum HardwareResource {
    /// A GPIO line.
    Gpio(Gpio),
    /// A DMA-backed UART receiver.
    UartRxDma(UartRxDma),
}

/// Identifier of a hardware resource.
pub open spec fn resource_id(h: HardwareResource) -> &'static str {
    match h {
        HardwareResource::Gpio(g) => g.id,
        HardwareResource::UartRxDma(u) => u.id,
    }
}

/// Physical pin a hardware resource occupies.
pub open spec fn resource_pin(h: HardwareResource) -> PinId {
    match h {
        HardwareResource::Gpio(g) => g.pin,
        HardwareResource::UartRxDma(u) => u.rx_pin,
    }
}

impl HardwareResource {
    /// Identifier of this resource.
    pub fn id(&self) -> (r: &'static str)
        ensures
            r == resource_id(*self),
    {
        match self {
            HardwareResource::Gpio(g) => g.id,
            HardwareResource::UartRxDma(u) => u.id,
        }
    }

    /// Physical pin this resource occupies.
    pub fn pin(&self) -> (r: PinId)
        ensures
            r == resource_pin(*self),
    {
        match self {
            HardwareResource::Gpio(g) => g.pin,
            HardwareResource::UartRxDma(u) => u.rx_pin,
        }
    }
}

/// Complete board declaration of the schema-era backend.
#[derive(Clone, Debug)]
pub struct BoardDeclaration {
    /// Board identifier.
    pub id: &'static str,
    /// MCU and clock.
    pub target: Target,
    /// Application monotonic.
    pub monotonic: MonotonicDeclaration,
    /// Hardware resources.
    pub hardware: Vec<HardwareResource>,
}

/// Reviewed DMA receive routes.
#[derive(Clone, Copy, Debug, PartialEq, Eq, Structural, PartialOrd, Ord)]
pub enum Stm32SerialRoute {
    /// USART2 RX on PA3 through DMA1 stream 5 channel 4.
    Usart2Rx,
    /// UART4 RX on PA1 through DMA1 stream 2 channel 4.
    Uart4Rx,
}

impl Stm32SerialRoute {
    /// Receive-interrupt service type used by generated code.
    pub fn irq_type(self) -> (r: &'static str)
        ensures
            r@ == (match self {
                Stm32SerialRoute::Usart2Rx => "Uart2RxIrq"@,
                Stm32SerialRoute::Uart4Rx => "Uart4RxIrq"@,
            }),
    {
        match self {
            Stm32SerialRoute::Usart2Rx => "Uart2RxIrq",
            Stm32SerialRoute::Uart4Rx => "Uart4RxIrq",
        }
    }

    /// Peripheral interrupt vector of the route.
    pub fn peripheral_interrupt(self) -> (r: &'static str)
        ensures
            r@ == (match self {
                Stm32SerialRoute::Usart2Rx => "USART2"@,
                Stm32SerialRoute::Uart4Rx => "UART4"@,
            }),
    {
        match self {
            Stm32SerialRoute::Usart2Rx => "USART2",
            Stm32SerialRoute::Uart4Rx => "UART4",
        }
    }
}

/// Board declaration with validated physical-pin and serial-route assignments.
#[derive(Clone, Debug)]
pub struct ValidatedBoard<'a> {
    /// Validated declaration.
    pub declaration: &'a BoardDeclaration,
    /// Pin of each hardware resource, in declaration order.
    pub pins_by_id: Vec<(&'static str, PinId)>,
    /// Validated receive route of each UART resource, in declaration order.
    pub serial_routes_by_id: Vec<(&'static str, Stm32SerialRoute)>,
}

/// Package part number.
pub open spec fn part_name(mcu: Mcu) -> Seq<char> {
    match mcu {
        Mcu::Stm32F401 => "STM32F401RE"@,
        Mcu::Stm32F405 => "STM32F405RG"@,
    }
}

/// System clock the backend expects of an MCU.
pub open spec fn expected_sysclk(mcu: Mcu) -> u32 {
    match mcu {
        Mcu::Stm32F401 => 84_000_000,
        Mcu::Stm32F405 => 168_000_000,
    }
}

/// Letter of a port index below eight.
pub open spec fn port_char(port: u8) -> char {
    seq!['A', 'B', 'C', 'D', 'E', 'F', 'G', 'H'][port as int]
}

/// Reference-manual name of a pin, such as `PA5`.
pub open spec fn spec_pin_name(pin: PinId) -> Seq<char> {
    seq!['P', port_char(pin.port)] + decimal(pin.pin as nat)
}

/// Whether the LQFP64 package of an MCU bonds out a pin.
pub open spec fn lqfp64_exposes(mcu: Mcu, pin: PinId) -> bool {
    match pin.port {
        0 | 2 => true,
        1 => !(mcu == Mcu::Stm32F401 && pin.pin == 11),
        3 => pin.pin == 2,
        7 => pin.pin <= 1,
        _ => false,
    }
}

/// Package check of one pin; `None` when the pin exists on the package.
pub open spec fn pin_error(mcu: Mcu, pin: PinId) -> Option<Seq<char>> {
    if pin.pin > 15 {
        Some("GPIO pin number "@ + decimal(pin.pin as nat) + " must be 0 through 15"@)
    } else if pin.port > 7 {
        Some("GPIO port index "@ + decimal(pin.port as nat) + " must be 0 through 7"@)
    } else if !lqfp64_exposes(mcu, pin) {
        Some(part_name(mcu) + " LQFP64 package does not expose "@ + spec_pin_name(pin))
    } else {
        None
    }
}

/// `DMA<n> Stream <s> Channel <c>` for a zero-based numeric route.
pub open spec fn dma_text(dma: DmaChannel) -> Seq<char> {
    "DMA"@ + decimal(dma.controller as nat + 1) + " Stream "@ + decimal(dma.stream as nat)
        + " Channel "@ + decimal(dma.channel as nat)
}

/// Reviewed route of a serial port on an MCU: its route, expected RX pin,
/// expected DMA route, and peripheral name.
pub open spec fn reviewed_route(mcu: Mcu, number: u8) -> Option<
    (Stm32SerialRoute, PinId, DmaChannel, Seq<char>),
> {
    if number == 2 {
        Some(
            (
                Stm32SerialRoute::Usart2Rx,
                PinId { port: 0, pin: 3 },
                DmaChannel { controller: 0, stream: 5, channel: 4 },
                "USART2"@,
            ),
        )
    } else if number == 4 && mcu == Mcu::Stm32F405 {
        Some(
            (
                Stm32SerialRoute::Uart4Rx,
                PinId { port: 0, pin: 1 },
                DmaChannel { controller: 0, stream: 2, channel: 4 },
                "UART4"@,
            ),
        )
    } else {
        None
    }
}

/// Route check of one DMA receiver whose pin is already known to exist.
pub open spec fn route_result(mcu: Mcu, serial: UartRxDma) -> Result<Stm32SerialRoute, Seq<char>> {
    match reviewed_route(mcu, serial.serial_port.number) {
        None => Err(
            match mcu {
                Mcu::Stm32F401 => "STM32F401RE backend supports DMA receive only on serial port 2; resource `"@,
                Mcu::Stm32F405 => "STM32F405RG backend supports DMA receive only on serial ports 2 and 4; resource `"@,
            } + serial.id@ + "` requests serial port "@ + decimal(serial.serial_port.number as nat),
        ),
        Some((route, pin, dma, name)) => if serial.rx_pin != pin || serial.dma != dma {
            Err(
                part_name(mcu) + " backend requires serial port "@ + decimal(
                    serial.serial_port.number as nat,
                ) + " ("@ + name + ") RX on "@ + spec_pin_name(pin) + " using "@ + dma_text(dma)
                    + "; resource `"@ + serial.id@ + "` requests "@ + spec_pin_name(serial.rx_pin)
                    + ", "@ + dma_text(serial.dma),
            )
        } else {
            Ok(route)
        },
    }
}

/// Clock and monotonic check of a board; `None` when they are supported.
pub open spec fn clock_error(board: BoardDeclaration) -> Option<Seq<char>> {
    let mcu = board.target.mcu;
    let clock = board.target.clock;
    let part = part_name(mcu);
    if clock.sysclk_hz != expected_sysclk(mcu) {
        Some(
            part + " backend requires board `"@ + board.id@ + "` to use a "@ + decimal(
                (expected_sysclk(mcu) / 1_000_000) as nat,
            ) + " MHz system clock"@,
        )
    } else {
        match clock.source {
            ClockSource::InternalHighSpeed => monotonic_error(board),
            ClockSource::ExternalCrystal { frequency_hz } => if mcu == Mcu::Stm32F405
                && frequency_hz == 8_000_000 {
                monotonic_error(board)
            } else if mcu == Mcu::Stm32F405 {
                Some(
                    "STM32F405RG backend supports an external crystal only at 8 MHz; board `"@
                        + board.id@ + "` declares "@ + decimal(frequency_hz as nat) + " Hz"@,
                )
            } else {
                Some(
                    "STM32F401RE backend does not yet support an external crystal; board `"@
                        + board.id@ + "` declares "@ + decimal(frequency_hz as nat) + " Hz"@,
                )
            },
            ClockSource::ExternalClock { frequency_hz } => Some(
                part + " backend does not yet support an externally generated clock; board `"@
                    + board.id@ + "` declares "@ + decimal(frequency_hz as nat) + " Hz"@,
            ),
        }
    }
}

/// Monotonic check: SysTick named `Mono` on the system clock.
pub open spec fn monotonic_error(board: BoardDeclaration) -> Option<Seq<char>> {
    match board.monotonic {
        MonotonicDeclaration::SysTick { id, clock_hz } => if id@ != "Mono"@ || clock_hz
            != board.target.clock.sysclk_hz {
            Some(
                part_name(board.target.mcu) + " backend requires board `"@ + board.id@
                    + "` Mono to use the system clock"@,
            )
        } else {
            None
        },
    }
}

/// Validated receive routes of the DMA receivers among the first `upto`
/// resources, in declaration order.
pub open spec fn routes_upto(board: BoardDeclaration, upto: int) -> Seq<(&'static str, Stm32SerialRoute)>
    decreases upto,
{
    if upto <= 0 {
        Seq::empty()
    } else {
        let h = board.hardware@[upto - 1];
        let earlier = routes_upto(board, upto - 1);
        match h {
            HardwareResource::UartRxDma(u) => earlier.push(
                (u.id, route_result(board.target.mcu, u)->Ok_0),
            ),
            HardwareResource::Gpio(_) => earlier,
        }
    }
}

/// Index of the first resource before `upto` that occupies `pin`.
pub open spec fn first_with_pin(hw: Seq<HardwareResource>, pin: PinId, upto: int) -> Option<int>
    decreases upto,
{
    if upto <= 0 {
        None
    } else {
        match first_with_pin(hw, pin, upto - 1) {
            Some(j) => Some(j),
            None => if resource_pin(hw[upto - 1]) == pin {
                Some(upto - 1)
            } else {
                None
            },
        }
    }
}

/// Check of the resource at index `i`, given that all earlier ones passed.
pub open spec fn resource_error(board: BoardDeclaration, i: int) -> Option<Seq<char>> {
    let hw = board.hardware@;
    let h = hw[i];
    let mcu = board.target.mcu;
    if pin_error(mcu, resource_pin(h)) is Some {
        pin_error(mcu, resource_pin(h))
    } else if h is UartRxDma && route_result(mcu, h->UartRxDma_0) is Err {
        Some(route_result(mcu, h->UartRxDma_0)->Err_0)
    } else {
        match first_with_pin(hw, resource_pin(h), i) {
            Some(j) => Some(
                "board `"@ + board.id@ + "` assigns physical pin `"@ + spec_pin_name(resource_pin(h))
                    + "` to both `"@ + resource_id(hw[j])@ + "` and `"@ + resource_id(h)@ + "`"@,
            ),
            None => None,
        }
    }
}

/// First resource check at or after index `i` that fails.
pub open spec fn hardware_error_from(board: BoardDeclaration, i: int) -> Option<Seq<char>>
    decreases board.hardware@.len() - i,
{
    if i < 0 || i >= board.hardware@.len() {
        None
    } else if resource_error(board, i) is Some {
        resource_error(board, i)
    } else {
        hardware_error_from(board, i + 1)
    }
}

/// First rule a board breaks, as its diagnostic; `None` when it is valid.
pub open spec fn board_error(board: BoardDeclaration) -> Option<Seq<char>> {
    if clock_error(board) is Some {
        clock_error(board)
    } else {
        hardware_error_from(board, 0)
    }
}

proof fn lemma_first_none(hw: Seq<HardwareResource>, pin: PinId, upto: int)
    requires
        upto <= hw.len(),
        forall|k: int| 0 <= k < upto ==> resource_pin(hw[k]) != pin,
    ensures
        first_with_pin(hw, pin, upto) is None,
    decreases upto,
{
    if upto > 0 {
        lemma_first_none(hw, pin, upto - 1);
    }
}

proof fn lemma_first_some(hw: Seq<HardwareResource>, pin: PinId, m: int, upto: int)
    requires
        0 <= m < upto <= hw.len(),
        resource_pin(hw[m]) == pin,
        forall|k: int| 0 <= k < m ==> resource_pin(hw[k]) != pin,
    ensures
        first_with_pin(hw, pin, upto) == Some(m),
    decreases upto,
{
    if upto == m + 1 {
        lemma_first_none(hw, pin, m);
    } else {
        lemma_first_some(hw, pin, m, upto - 1);
    }
}

proof fn lemma_hardware_skip(board: BoardDeclaration, i: int)
    requires
        0 <= i <= board.hardware@.len(),
        forall|k: int| 0 <= k < i ==> resource_error(board, k) is None,
    ensures
        hardware_error_from(board, 0) == hardware_error_from(board, i),
    decreases i,
{
    if i > 0 {
        lemma_hardware_skip(board, i - 1);
    }
}

/// Package part number of an MCU.
pub fn part(mcu: Mcu) -> (r: &'static str)
    ensures
        r@ == part_name(mcu),
{
    match mcu {
        Mcu::Stm32F401 => "STM32F401RE",
        Mcu::Stm32F405 => "STM32F405RG",
    }
}

fn push_pin_name(out: &mut String, pin: PinId)
    requires
        pin.port < 8,
    ensures
        final(out)@ == old(out)@ + spec_pin_name(pin),
{
    proof {
        reveal_strlit("PA");
        reveal_strlit("PB");
        reveal_strlit("PC");
        reveal_strlit("PD");
        reveal_strlit("PE");
        reveal_strlit("PF");
        reveal_strlit("PG");
        reveal_strlit("PH");
    }
    let prefix = match pin.port {
        0 => "PA",
        1 => "PB",
        2 => "PC",
        3 => "PD",
        4 => "PE",
        5 => "PF",
        6 => "PG",
        _ => "PH",
    };
    assert(prefix@ == seq!['P', port_char(pin.port)]);
    out.append(prefix);
    push_decimal(out, pin.pin as u32);
    proof {
        assert(final(out)@ =~= old(out)@ + spec_pin_name(pin));
    }
}

/// Reference-manual name of a pin whose port exists, such as `PA5`.
pub fn pin_name(pin: PinId) -> (r: String)
    requires
        pin.port < 8,
    ensures
        r@ == spec_pin_name(pin),
{
    let mut out = String::new();
    push_pin_name(&mut out, pin);
    proof {
        assert(out@ =~= spec_pin_name(pin));
    }
    out
}

fn push_dma_text(out: &mut String, dma: DmaChannel)
    ensures
        final(out)@ == old(out)@ + dma_text(dma),
{
    out.append("DMA");
    push_decimal(out, dma.controller as u32 + 1);
    out.append(" Stream ");
    push_decimal(out, dma.stream as u32);
    out.append(" Channel ");
    push_decimal(out, dma.channel as u32);
    proof {
        assert(final(out)@ =~= old(out)@ + dma_text(dma));
    }
}

/// Checks that a pin exists on the MCU's LQFP64 package.
pub fn validate_lqfp64(mcu: Mcu, pin: PinId) -> (r: Result<(), String>)
    ensures
        r is Ok <==> pin_error(mcu, pin) is None,
        r matches Err(e) ==> pin_error(mcu, pin) == Some(e@),
{
    if pin.pin > 15 {
        let mut out = String::from_str("GPIO pin number ");
        push_decimal(&mut out, pin.pin as u32);
        out.append(" must be 0 through 15");
        return Err(out);
    }
    if pin.port > 7 {
        let mut out = String::from_str("GPIO port index ");
        push_decimal(&mut out, pin.port as u32);
        out.append(" must be 0 through 7");
        return Err(out);
    }
    let exposed = match pin.port {
        0 | 2 => true,
        1 => !(mcu == Mcu::Stm32F401 && pin.pin == 11),
        3 => pin.pin == 2,
        7 => pin.pin <= 1,
        _ => false,
    };
    if !exposed {
        let mut out = String::from_str(part(mcu));
        out.append(" LQFP64 package does not expose ");
        push_pin_name(&mut out, pin);
        return Err(out);
    }
    Ok(())
}

/// Checks a DMA receiver against the reviewed receive routes of its MCU.
pub fn validate_serial_route(mcu: Mcu, serial: &UartRxDma) -> (r: Result<Stm32SerialRoute, String>)
    requires
        pin_error(mcu, serial.rx_pin) is None,
    ensures
        match (r, route_result(mcu, *serial)) {
            (Ok(a), Ok(b)) => a == b,
            (Err(e), Err(m)) => e@ == m,
            _ => false,
        },
{
    let number = serial.serial_port.number;
    let (route, expected_pin, expected_dma, concrete_name) = if number == 2 {
        (Stm32SerialRoute::Usart2Rx, PinId::new(0, 3), DmaChannel::new(0, 5, 4), "USART2")
    } else if number == 4 && mcu == Mcu::Stm32F405 {
        (Stm32SerialRoute::Uart4Rx, PinId::new(0, 1), DmaChannel::new(0, 2, 4), "UART4")
    } else {
        let mut out = match mcu {
            Mcu::Stm32F401 => String::from_str(
                "STM32F401RE backend supports DMA receive only on serial port 2; resource `",
            ),
            Mcu::Stm32F405 => String::from_str(
                "STM32F405RG backend supports DMA receive only on serial ports 2 and 4; resource `",
            ),
        };
        out.append(serial.id);
        out.append("` requests serial port ");
        push_decimal(&mut out, number as u32);
        return Err(out);
    };
    if serial.rx_pin != expected_pin || serial.dma != expected_dma {
        let mut out = String::from_str(part(mcu));
        out.append(" backend requires serial port ");
        push_decimal(&mut out, number as u32);
        out.append(" (");
        out.append(concrete_name);
        out.append(") RX on ");
        push_pin_name(&mut out, expected_pin);
        out.append(" using ");
        push_dma_text(&mut out, expected_dma);
        out.append("; resource `");
        out.append(serial.id);
        out.append("` requests ");
        push_pin_name(&mut out, serial.rx_pin);
        out.append(", ");
        push_dma_text(&mut out, serial.dma);
        return Err(out);
    }
    Ok(route)
}

fn validate_clock(board: &BoardDeclaration) -> (r: Result<(), String>)
    ensures
        r is Ok <==> clock_error(*board) is None,
        r matches Err(e) ==> clock_error(*board) == Some(e@),
{
    let mcu = board.target.mcu;
    let expected: u32 = match mcu {
        Mcu::Stm32F401 => 84_000_000,
        Mcu::Stm32F405 => 168_000_000,
    };
    if board.target.clock.sysclk_hz != expected {
        let mut out = String::from_str(part(mcu));
        out.append(" backend requires board `");
        out.append(board.id);
        out.append("` to use a ");
        push_decimal(&mut out, expected / 1_000_000);
        out.append(" MHz system clock");
        return Err(out);
    }
    match board.target.clock.source {
        ClockSource::InternalHighSpeed => {},
        ClockSource::ExternalCrystal { frequency_hz } => {
            if !(mcu == Mcu::Stm32F405 && frequency_hz == 8_000_000) {
                let mut out = if mcu == Mcu::Stm32F405 {
                    String::from_str("STM32F405RG backend supports an external crystal only at 8 MHz; board `")
                } else {
                    String::from_str("STM32F401RE backend does not yet support an external crystal; board `")
                };
                out.append(board.id);
                out.append("` declares ");
                push_decimal(&mut out, frequency_hz);
                out.append(" Hz");
                return Err(out);
            }
        },
        ClockSource::ExternalClock { frequency_hz } => {
            let mut out = String::from_str(part(mcu));
            out.append(" backend does not yet support an externally generated clock; board `");
            out.append(board.id);
            out.append("` declares ");
            push_decimal(&mut out, frequency_hz);
            out.append(" Hz");
            return Err(out);
        },
    }
    let MonotonicDeclaration::SysTick { id, clock_hz } = board.monotonic;
    if !str_eq(id, "Mono") || clock_hz != board.target.clock.sysclk_hz {
        let mut out = String::from_str(part(mcu));
        out.append(" backend requires board `");
        out.append(board.id);
        out.append("` Mono to use the system clock");
        return Err(out);
    }
    Ok(())
}

/// Validates STM32F4 clock, monotonic, package-pin, DMA receive-route, and
/// pin-ownership facts of a board, and records the pin and validated receive
/// route of every resource.
pub fn validate<'a>(board: &'a BoardDeclaration) -> (r: Result<ValidatedBoard<'a>, String>)
    ensures
        r is Ok <==> board_error(*board) is None,
        r matches Err(e) ==> board_error(*board) == Some(e@),
        r matches Ok(v) ==> {
            &&& v.declaration == *board
            &&& v.pins_by_id@.len() == board.hardware@.len()
            &&& forall|k: int|
                0 <= k < board.hardware@.len() ==> #[trigger] v.pins_by_id@[k] == (
                    resource_id(board.hardware@[k]),
                    resource_pin(board.hardware@[k]),
                )
            &&& v.serial_routes_by_id@ == routes_upto(*board, board.hardware@.len() as int)
        },
{
    match validate_clock(board) {
        Err(e) => return Err(e),
        Ok(()) => {},
    }
    let mcu = board.target.mcu;
    let mut pins_by_id: Vec<(&'static str, PinId)> = Vec::new();
    let mut serial_routes_by_id: Vec<(&'static str, Stm32SerialRoute)> = Vec::new();
    let mut i: usize = 0;
    while i < board.hardware.len()
        invariant
            clock_error(*board) is None,
            mcu == board.target.mcu,
            i <= board.hardware@.len(),
            pins_by_id@.len() == i,
            forall|k: int|
                0 <= k < i ==> #[trigger] pins_by_id@[k] == (
                    resource_id(board.hardware@[k]),
                    resource_pin(board.hardware@[k]),
                ),
            forall|k: int| 0 <= k < i ==> resource_error(*board, k) is None,
            serial_routes_by_id@ == routes_upto(*board, i as int),
        decreases board.hardware@.len() - i,
    {
        let hardware = &board.hardware[i];
        let pin = hardware.pin();
        match validate_lqfp64(mcu, pin) {
            Err(e) => {
                proof {
                    lemma_hardware_skip(*board, i as int);
                }
                return Err(e);
            },
            Ok(()) => {},
        }
        if let HardwareResource::UartRxDma(serial) = hardware {
            match validate_serial_route(mcu, serial) {
                Err(e) => {
                    proof {
                        lemma_hardware_skip(*board, i as int);
                    }
                    return Err(e);
                },
                Ok(route) => {
                    serial_routes_by_id.push((hardware.id(), route));
                },
            }
        }
        let mut j: usize = 0;
        while j < i
            invariant
                i < board.hardware@.len(),
                j <= i,
                pin == resource_pin(board.hardware@[i as int]),
                *hardware == board.hardware@[i as int],
                pins_by_id@.len() == i,
                forall|k: int|
                    0 <= k < i ==> #[trigger] pins_by_id@[k] == (
                        resource_id(board.hardware@[k]),
                        resource_pin(board.hardware@[k]),
                    ),
                forall|k: int| 0 <= k < j ==> resource_pin(board.hardware@[k]) != pin,
                forall|k: int| 0 <= k < i ==> resource_error(*board, k) is None,
                pin_error(board.target.mcu, pin) is None,
                clock_error(*board) is None,
                !(board.hardware@[i as int] is UartRxDma && route_result(
                    board.target.mcu,
                    board.hardware@[i as int]->UartRxDma_0,
                ) is Err),
            decreases i - j,
        {
            if pins_by_id[j].1 == pin {
                proof {
                    assert(pins_by_id@[j as int].1 == resource_pin(board.hardware@[j as int]));
                    lemma_first_some(board.hardware@, pin, j as int, i as int);
                    lemma_hardware_skip(*board, i as int);
                }
                let mut out = String::from_str("board `");
                out.append(board.id);
                out.append("` assigns physical pin `");
                push_pin_name(&mut out, pin);
                out.append("` to both `");
                out.append(pins_by_id[j].0);
                out.append("` and `");
                out.append(hardware.id());
                out.append("`");
                return Err(out);
            }
            proof {
                assert(pins_by_id@[j as int].1 == resource_pin(board.hardware@[j as int]));
            }
            j = j + 1;
        }
        proof {
            lemma_first_none(board.hardware@, pin, i as int);
        }
        pins_by_id.push((hardware.id(), pin));
        i = i + 1;
    }
    proof {
        lemma_hardware_skip(*board, i as int);
    }
    Ok(ValidatedBoard { declaration: board, pins_by_id, serial_routes_by_id })
}

/// Number of bytes of the UTF-8 encoding of `s`.
pub open spec fn utf8_len(s: Seq<char>) -> nat
    decreases s.len(),
{
    if s.len() == 0 {
        0
    } else {
        utf8_len(s.drop_last()) + if (s.last() as u32) < 0x80 {
            1nat
        } else if (s.last() as u32) < 0x800 {
            2nat
        } else if (s.last() as u32) < 0x10000 {
            3nat
        } else {
            4nat
        }
    }
}

fn utf8_len_exec(s: &str) -> (r: usize)
    requires
        utf8_len(s@) <= usize::MAX,
    ensures
        r == utf8_len(s@),
{
    let n = s.unicode_len();
    let mut total: usize = 0;
    let mut i: usize = 0;
    while i < n
        invariant
            n == s@.len(),
            i <= n,
            total == utf8_len(s@.take(i as int)),
            utf8_len(s@) <= usize::MAX,
        decreases n - i,
    {
        proof {
            assert(s@.take(i + 1).drop_last() =~= s@.take(i as int));
            lemma_utf8_len_prefix(s@, i + 1);
        }
        let c = s.get_char(i) as u32;
        let width: usize = if c < 0x80 {
            1
        } else if c < 0x800 {
            2
        } else if c < 0x10000 {
            3
        } else {
            4
        };
        total = total + width;
        i = i + 1;
    }
    proof {
        assert(s@.take(n as int) =~= s@);
    }
    total
}

proof fn lemma_utf8_len_prefix(s: Seq<char>, k: int)
    requires
        0 <= k <= s.len(),
    ensures
        utf8_len(s.take(k)) <= utf8_len(s),
    decreases s.len() - k,
{
    if k < s.len() {
        lemma_utf8_len_prefix(s, k + 1);
        assert(s.take(k + 1).drop_last() =~= s.take(k));
    } else {
        assert(s.take(k) =~= s);
    }
}

/// An `init` local declaration: on one line when it fits the 88-column
/// width after the 8 columns of module and attribute indentation, else with
/// the initializer on its own indented line.
pub open spec fn init_local_text(id: Seq<char>, rust_type: Seq<char>, initializer: Seq<char>) -> Seq<
    char,
> {
    let compact = id + ": "@ + rust_type + " = "@ + initializer;
    if 8 + utf8_len(compact) <= 88 {
        compact
    } else {
        id + ": "@ + rust_type + " =\n        "@ + initializer
    }
}

/// Renders an `init` local declaration.
pub fn render_init_local(id: &str, rust_type: &str, initializer: &str) -> (r: String)
    requires
        utf8_len(id@ + ": "@ + rust_type@ + " = "@ + initializer@) <= usize::MAX,
    ensures
        r@ == init_local_text(id@, rust_type@, initializer@),
{
    let mut compact = String::from_str(id);
    compact.append(": ");
    compact.append(rust_type);
    compact.append(" = ");
    compact.append(initializer);
    let width = utf8_len_exec(compact.as_str());
    if width <= 80 {
        compact
    } else {
        let mut out = String::from_str(id);
        out.append(": ");
        out.append(rust_type);
        out.append(" =\n        ");
        out.append(initializer);
        out
    }
}

/// Decimal rendering of a `u32` with `_` between digit groups.
pub fn render_u32_literal(value: u32) -> (r: String)
    ensures
        r@ == crate::text::grouped_decimal(value as nat),
{
    let mut out = String::new();
    crate::text::push_grouped_decimal(&mut out, value);
    proof {
        assert(out@ =~= crate::text::grouped_decimal(value as nat));
    }
    out
}

/// Index of the first group, from `j` on, owned by `owner`.
pub open spec fn group_index_from(groups: Seq<(String, Vec<String>)>, owner: Seq<char>, j: int) -> Option<
    int,
>
    decreases groups.len() - j,
{
    if j < 0 || j >= groups.len() {
        None
    } else if groups[j].0@ == owner {
        Some(j)
    } else {
        group_index_from(groups, owner, j + 1)
    }
}

/// Appends an initialization statement to its owner's group, opening a new
/// group at the end when the owner has none yet.
pub fn push_initialization(groups: &mut Vec<(String, Vec<String>)>, owner: &str, initialization: String)
    ensures
        match group_index_from(old(groups)@, owner@, 0) {
            Some(j) => {
                &&& final(groups)@.len() == old(groups)@.len()
                &&& forall|k: int|
                    0 <= k < old(groups)@.len() && k != j ==> #[trigger] final(groups)@[k] == old(
                        groups,
                    )@[k]
                &&& final(groups)@[j].0 == old(groups)@[j].0
                &&& final(groups)@[j].1@ == old(groups)@[j].1@.push(initialization)
            },
            None => {
                &&& final(groups)@.len() == old(groups)@.len() + 1
                &&& forall|k: int|
                    0 <= k < old(groups)@.len() ==> #[trigger] final(groups)@[k] == old(groups)@[k]
                &&& final(groups)@[old(groups)@.len() as int].0@ == owner@
                &&& final(groups)@[old(groups)@.len() as int].1@ == seq![initialization]
            },
        },
{
    let mut j: usize = 0;
    while j < groups.len()
        invariant
            j <= groups@.len(),
            groups@ == old(groups)@,
            group_index_from(old(groups)@, owner@, 0) == group_index_from(old(groups)@, owner@, j as int),
        decreases groups@.len() - j,
    {
        if crate::text::str_eq(groups[j].0.as_str(), owner) {
            let (name, mut statements) = groups.remove(j);
            statements.push(initialization);
            groups.insert(j, (name, statements));
            proof {
                assert forall|k: int| 0 <= k < old(groups)@.len() && k != j implies #[trigger] groups@[k]
                    == old(groups)@[k] by {}
            }
            return;
        }
        j = j + 1;
    }
    groups.push((String::from_str(owner), vec![initialization]));
}

/// Lower-case letter of a port index below eight.
pub open spec fn port_lower_char(port: u8) -> char {
    seq!['a', 'b', 'c', 'd', 'e', 'f', 'g', 'h'][port as int]
}

fn port_upper_str(port: u8) -> (r: &'static str)
    requires
        port <= 7,
    ensures
        r@ == seq![port_char(port)],
{
    let r = match port {
        0 => "A",
        1 => "B",
        2 => "C",
        3 => "D",
        4 => "E",
        5 => "F",
        6 => "G",
        _ => "H",
    };
    proof {
        reveal_strlit("A");
        reveal_strlit("B");
        reveal_strlit("C");
        reveal_strlit("D");
        reveal_strlit("E");
        reveal_strlit("F");
        reveal_strlit("G");
        reveal_strlit("H");
    }
    r
}

fn port_lower_str(port: u8) -> (r: &'static str)
    requires
        port <= 7,
    ensures
        r@ == seq![port_lower_char(port)],
{
    let r = match port {
        0 => "a",
        1 => "b",
        2 => "c",
        3 => "d",
        4 => "e",
        5 => "f",
        6 => "g",
        _ => "h",
    };
    proof {
        reveal_strlit("a");
        reveal_strlit("b");
        reveal_strlit("c");
        reveal_strlit("d");
        reveal_strlit("e");
        reveal_strlit("f");
        reveal_strlit("g");
        reveal_strlit("h");
    }
    r
}

/// Protocol a schema-era serial receiver decodes.
#[derive(Clone, Copy, Debug, PartialEq, Eq, Structural)]
pub enum SerialProtocol {
    /// SBUS radio-control frames.
    Sbus,
    /// Raw bytes.
    Raw,
    /// The port is disabled.
    Disabled,
}

/// Field of the RTIC resource struct holding a validated hardware resource:
/// the HAL pin type of a GPIO, or the receive-interrupt service of a UART,
/// which needs its validated route.
pub open spec fn resource_field_text(h: HardwareResource, pin: PinId, route: Option<Stm32SerialRoute>) -> Result<
    Seq<char>,
    Seq<char>,
> {
    match h {
        HardwareResource::Gpio(g) => match g.mode {
            GpioMode::Output { .. } => Ok(
                g.id@ + ": Pin<'"@ + seq![port_char(pin.port)] + "', "@ + decimal(pin.pin as nat)
                    + ", Output<PushPull>>,"@,
            ),
            GpioMode::Input { .. } => Ok(
                g.id@ + ": Pin<'"@ + seq![port_char(pin.port)] + "', "@ + decimal(pin.pin as nat)
                    + ", Input>,"@,
            ),
        },
        HardwareResource::UartRxDma(u) => match route {
            None => Err("serial resource `"@ + u.id@ + "` has no validated STM32 route"@),
            Some(r) => Ok(
                u.id@ + ": "@ + match r {
                    Stm32SerialRoute::Usart2Rx => "Uart2RxIrq"@,
                    Stm32SerialRoute::Uart4Rx => "Uart4RxIrq"@,
                } + ","@,
            ),
        },
    }
}

/// Renders the resource-struct field of a validated hardware resource.
pub fn render_resource_field(hardware: &HardwareResource, pin: PinId, serial_route: Option<
    Stm32SerialRoute,
>) -> (r: Result<String, String>)
    requires
        pin.port <= 7,
    ensures
        match resource_field_text(*hardware, pin, serial_route) {
            Ok(t) => r matches Ok(x) && x@ == t,
            Err(m) => r matches Err(x) && x@ == m,
        },
{
    match hardware {
        HardwareResource::Gpio(gpio) => {
            let mut out = String::from_str(gpio.id);
            out.append(": Pin<'");
            out.append(port_upper_str(pin.port));
            out.append("', ");
            push_decimal(&mut out, pin.pin as u32);
            match gpio.mode {
                GpioMode::Output { .. } => out.append(", Output<PushPull>>,"),
                GpioMode::Input { .. } => out.append(", Input>,"),
            }
            Ok(out)
        },
        HardwareResource::UartRxDma(serial) => match serial_route {
            None => {
                let mut out = String::from_str("serial resource `");
                out.append(serial.id);
                out.append("` has no validated STM32 route");
                Err(out)
            },
            Some(route) => {
                let mut out = String::from_str(serial.id);
                out.append(": ");
                out.append(route.irq_type());
                out.append(",");
                Ok(out)
            },
        },
    }
}

/// Name of a pull setting as the schema-era HAL writes it.
pub open spec fn legacy_pull_name(p: Pull) -> Seq<char> {
    match p {
        Pull::Floating => "None"@,
        Pull::Up => "Up"@,
        Pull::Down => "Down"@,
    }
}

fn legacy_pull_str(p: Pull) -> (r: &'static str)
    ensures
        r@ == legacy_pull_name(p),
{
    match p {
        Pull::Floating => "None",
        Pull::Up => "Up",
        Pull::Down => "Down",
    }
}

/// `gpio<x>.p<x><n>`, the HAL path of a pin.
pub open spec fn legacy_pin_path(pin: PinId) -> Seq<char> {
    "gpio"@ + seq![port_lower_char(pin.port)] + ".p"@ + seq![port_lower_char(pin.port)] + decimal(
        pin.pin as nat,
    )
}

/// Initialization source of a validated GPIO: output level and pull, or
/// input pull and EXTI edge.
pub open spec fn gpio_init_text(g: Gpio, pin: PinId) -> Seq<char> {
    let id = g.id@;
    let pin_path = legacy_pin_path(pin);
    match g.mode {
        GpioMode::Output { initial_level, .. } => "let mut "@ + id + " = "@ + pin_path
            + ".into_push_pull_output_in_state(PinState::"@ + match initial_level {
            crate::gpio::Level::Low => "Low"@,
            crate::gpio::Level::High => "High"@,
        } + ");\n"@ + id + ".set_internal_resistor(Pull::"@ + legacy_pull_name(g.pull) + ");\n"@
            + id + ".set_speed(Speed::Low);"@,
        GpioMode::Input { interrupt } => "let "@ + id + " = Input::new("@ + pin_path + ", Pull::"@
            + legacy_pull_name(g.pull) + ");"@ + match interrupt {
            None => Seq::empty(),
            Some(i) => "\nlet "@ + id + " = ferrowasp_stm32f4::exti::init_input("@ + id
                + ", &mut syscfg, &mut exti, Edge::"@ + match i.edge {
                crate::gpio::InterruptEdge::Rising => "Rising"@,
                crate::gpio::InterruptEdge::Falling => "Falling"@,
                crate::gpio::InterruptEdge::Both => "RisingFalling"@,
            } + ");"@,
        },
    }
}

/// Driver call of a validated UART receive route, owned by serial component
/// `owner` whose parser feeds `rx_output`.
pub open spec fn uart_init_text(
    u: UartRxDma,
    pin: PinId,
    r: Stm32SerialRoute,
    owner: Seq<char>,
    rx_output: Seq<char>,
    protocol: SerialProtocol,
) -> Seq<char> {
    let (initializer, resources_type, field, peripheral, stream) = match r {
        Stm32SerialRoute::Usart2Rx => (
            "init_usart2_rx_only"@,
            "Usart2RxOnlyResources"@,
            "usart"@,
            "USART2"@,
            "5"@,
        ),
        Stm32SerialRoute::Uart4Rx => (
            "init_uart4_rx_only"@,
            "Uart4RxOnlyResources"@,
            "uart"@,
            "UART4"@,
            "2"@,
        ),
    };
    "let "@ + owner + "_parts = ferrowasp_stm32f4::uart_dma::"@ + initializer + "(\n    "@
        + resources_type + " {\n        rx_pin: "@ + legacy_pin_path(pin) + ",\n        "@ + field
        + ": cx.device."@ + peripheral + ",\n        rx_dma: dma1."@ + stream
        + ",\n    },\n    &mut rcc,\n    SerialProtocol::"@ + if protocol == SerialProtocol::Sbus {
        "Sbus"@
    } else {
        "Raw"@
    } + ",\n    UartRxStorageResources {\n        buffers: cx.local."@ + owner
        + "_rx_buffers,\n        free_queue: cx.local."@ + owner
        + "_free_queue,\n        filled_queue: cx.local."@ + owner
        + "_filled_queue,\n    },\n);\nlet "@ + u.id@ + " = "@ + owner + "_parts.irq;\nlet "@
        + rx_output + " = "@ + owner + "_parts.parser;"@
}

/// Initialization source of a validated hardware resource, or why a UART
/// cannot be initialized: it has no owning serial component, its port is
/// disabled, or it has no validated route.
pub open spec fn resource_initialization_text(
    h: HardwareResource,
    pin: PinId,
    route: Option<Stm32SerialRoute>,
    uart: Option<(Seq<char>, Seq<char>, SerialProtocol)>,
) -> Result<Seq<char>, Seq<char>> {
    match h {
        HardwareResource::Gpio(g) => Ok(gpio_init_text(g, pin)),
        HardwareResource::UartRxDma(u) => {
            let id = u.id@;
            match uart {
                None => Err("serial resource `"@ + id + "` has no owning serial component"@),
                Some((owner, rx_output, protocol)) => if protocol == SerialProtocol::Disabled {
                    Err("disabled serial resource `"@ + id + "` reached STM32 initialization"@)
                } else {
                    match route {
                        None => Err("serial resource `"@ + id + "` has no validated STM32 route"@),
                        Some(r) => Ok(uart_init_text(u, pin, r, owner, rx_output, protocol)),
                    }
                },
            }
        },
    }
}

fn push_pin_path(out: &mut String, pin: PinId)
    requires
        pin.port <= 7,
    ensures
        final(out)@ == old(out)@ + legacy_pin_path(pin),
{
    out.append("gpio");
    out.append(port_lower_str(pin.port));
    out.append(".p");
    out.append(port_lower_str(pin.port));
    push_decimal(out, pin.pin as u32);
}

fn render_gpio_init(gpio: &Gpio, pin: PinId) -> (r: String)
    requires
        pin.port <= 7,
    ensures
        r@ == gpio_init_text(*gpio, pin),
{
    let id = gpio.id;
    match gpio.mode {
        GpioMode::Output { initial_level, .. } => {
            let mut out = String::from_str("let mut ");
            out.append(id);
            out.append(" = ");
            push_pin_path(&mut out, pin);
            out.append(".into_push_pull_output_in_state(PinState::");
            out.append(
                match initial_level {
                    crate::gpio::Level::Low => "Low",
                    crate::gpio::Level::High => "High",
                },
            );
            out.append(");\n");
            out.append(id);
            out.append(".set_internal_resistor(Pull::");
            out.append(legacy_pull_str(gpio.pull));
            out.append(");\n");
            out.append(id);
            out.append(".set_speed(Speed::Low);");
            proof {
                assert(out@ =~= gpio_init_text(*gpio, pin));
            }
            out
        },
        GpioMode::Input { interrupt } => {
            let mut out = String::from_str("let ");
            out.append(id);
            out.append(" = Input::new(");
            push_pin_path(&mut out, pin);
            out.append(", Pull::");
            out.append(legacy_pull_str(gpio.pull));
            out.append(");");
            if let Some(i) = interrupt {
                out.append("\nlet ");
                out.append(id);
                out.append(" = ferrowasp_stm32f4::exti::init_input(");
                out.append(id);
                out.append(", &mut syscfg, &mut exti, Edge::");
                out.append(
                    match i.edge {
                        crate::gpio::InterruptEdge::Rising => "Rising",
                        crate::gpio::InterruptEdge::Falling => "Falling",
                        crate::gpio::InterruptEdge::Both => "RisingFalling",
                    },
                );
                out.append(");");
            }
            proof {
                assert(out@ =~= gpio_init_text(*gpio, pin));
            }
            out
        },
    }
}

fn render_uart_init(
    serial: &UartRxDma,
    pin: PinId,
    route: Stm32SerialRoute,
    owner: &str,
    rx_output: &str,
    protocol: SerialProtocol,
) -> (r: String)
    requires
        pin.port <= 7,
    ensures
        r@ == uart_init_text(*serial, pin, route, owner@, rx_output@, protocol),
{
    let (initializer, resources_type, field, peripheral, stream) = match route {
        Stm32SerialRoute::Usart2Rx => (
            "init_usart2_rx_only",
            "Usart2RxOnlyResources",
            "usart",
            "USART2",
            "5",
        ),
        Stm32SerialRoute::Uart4Rx => ("init_uart4_rx_only", "Uart4RxOnlyResources", "uart", "UART4", "2"),
    };
    let mode = if protocol == SerialProtocol::Sbus {
        "Sbus"
    } else {
        "Raw"
    };
    let mut out = String::from_str("let ");
    out.append(owner);
    out.append("_parts = ferrowasp_stm32f4::uart_dma::");
    out.append(initializer);
    out.append("(\n    ");
    out.append(resources_type);
    out.append(" {\n        rx_pin: ");
    push_pin_path(&mut out, pin);
    out.append(",\n        ");
    out.append(field);
    out.append(": cx.device.");
    out.append(peripheral);
    out.append(",\n        rx_dma: dma1.");
    out.append(stream);
    out.append(",\n    },\n    &mut rcc,\n    SerialProtocol::");
    out.append(mode);
    out.append(",\n    UartRxStorageResources {\n        buffers: cx.local.");
    out.append(owner);
    out.append("_rx_buffers,\n        free_queue: cx.local.");
    out.append(owner);
    out.append("_free_queue,\n        filled_queue: cx.local.");
    out.append(owner);
    out.append("_filled_queue,\n    },\n);\nlet ");
    out.append(serial.id);
    out.append(" = ");
    out.append(owner);
    out.append("_parts.irq;\nlet ");
    out.append(rx_output);
    out.append(" = ");
    out.append(owner);
    out.append("_parts.parser;");
    proof {
        assert(out@ =~= uart_init_text(*serial, pin, route, owner@, rx_output@, protocol));
    }
    out
}

/// Renders the initialization source of a validated hardware resource.
pub fn render_resource_initialization(
    hardware: &HardwareResource,
    pin: PinId,
    serial_route: Option<Stm32SerialRoute>,
    uart_configuration: Option<(&str, &str, SerialProtocol)>,
) -> (r: Result<String, String>)
    requires
        pin.port <= 7,
    ensures
        match resource_initialization_text(
            *hardware,
            pin,
            serial_route,
            match uart_configuration {
                Some((o, x, p)) => Some((o@, x@, p)),
                None => None,
            },
        ) {
            Ok(t) => r matches Ok(x) && x@ == t,
            Err(m) => r matches Err(x) && x@ == m,
        },
{
    match hardware {
        HardwareResource::Gpio(gpio) => Ok(render_gpio_init(gpio, pin)),
        HardwareResource::UartRxDma(serial) => {
            let id = serial.id;
            let (owner, rx_output, protocol) = match uart_configuration {
                Some(configuration) => configuration,
                None => {
                    return Err(concat3("serial resource `", id, "` has no owning serial component"));
                },
            };
            if protocol == SerialProtocol::Disabled {
                return Err(concat3("disabled serial resource `", id, "` reached STM32 initialization"));
            }
            let route = match serial_route {
                Some(route) => route,
                None => {
                    return Err(concat3("serial resource `", id, "` has no validated STM32 route"));
                },
            };
            Ok(render_uart_init(serial, pin, route, owner, rx_output, protocol))
        },
    }
}

} // verus!
