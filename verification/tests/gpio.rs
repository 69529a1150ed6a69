use app_builder::gpio::{
    Drive, ExternalInterrupt, GpioHardwareDeclaration, GpioMode, InterruptEdge, Level, Pull,
};
use app_builder::pins::{GpioPort, PinId};

#[test]
fn button_modifiers_preserve_electrical_configuration() {
    let button = GpioHardwareDeclaration::input("user_button", PinId::new(GpioPort::C, 13))
        .pull_up()
        .interrupt_on(InterruptEdge::Falling);

    assert_eq!(button.pull, Pull::Up);
    assert_eq!(
        button.mode,
        GpioMode::Input {
            interrupt: Some(ExternalInterrupt {
                edge: InterruptEdge::Falling,
            }),
        }
    );
}

#[test]
fn output_defaults_to_push_pull_without_pull_resistor() {
    let led = GpioHardwareDeclaration::output("led2", PinId::new(GpioPort::A, 5), Level::High);
    assert_eq!(led.id, "led2");
    assert_eq!(led.pin, PinId::new(GpioPort::A, 5));
    assert_eq!(led.pull, Pull::Floating);
    assert_eq!(
        led.mode,
        GpioMode::Output {
            drive: Drive::PushPull,
            initial_level: Level::High,
        }
    );
}

#[test]
fn pull_down_keeps_the_interrupt_configuration() {
    let input = GpioHardwareDeclaration::input("input", PinId::new(GpioPort::B, 4))
        .interrupt_on(InterruptEdge::Both)
        .pull_down();
    assert_eq!(input.pull, Pull::Down);
    assert_eq!(
        input.mode,
        GpioMode::Input {
            interrupt: Some(ExternalInterrupt {
                edge: InterruptEdge::Both,
            }),
        }
    );
}
