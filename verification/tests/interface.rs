use std::cell::Cell;

use libtock_apis::analog_comparator::{AnalogComparator, AnalogComparatorListener};
use libtock_apis::buttons::{ButtonListener, ButtonState, Buttons};
use libtock_apis::buzzer::Buzzer as OldBuzzer;
use libtock_apis::command_return::CommandReturn;
use libtock_apis::console::Console as OldConsole;
use libtock_apis::error_code::ErrorCode;
use libtock_apis::interface::buttons::{ButtonListener as IfButtonListener, Buttons as IfButtons};
use libtock_apis::interface::buzzer::{Buzzer, BuzzerListener, Note};
use libtock_apis::interface::console::Console;
use libtock_apis::interface::servo::Servo;
use libtock_apis::kernel::low_level_debug::{AlertCode, LowLevelDebug};
use libtock_apis::leds::Leds;
use libtock_apis::syscall::{Command, Event, Outcome, Phase, Share, Step, Transaction};

/// Runs a transaction against a simulated kernel: every share succeeds, the
/// command gets `reply`, and the upcall (if any) is delivered by the first
/// yield.
fn run<U: Copy>(
    tx: &Transaction,
    reply: CommandReturn,
    upcall: Option<U>,
) -> (Vec<Share>, Vec<Command>, Outcome<U>) {
    let mut shares = Vec::new();
    let mut commands = Vec::new();
    let mut yielded = false;
    let mut polls = 0;
    let (mut phase, mut step) = tx.advance(Phase::Begin, Event::Start);
    loop {
        let event = match step {
            Step::Finish(o) => return (shares, commands, o),
            Step::Share(s) => {
                shares.push(s);
                Event::Shared(Ok(()))
            }
            Step::Command(c) => {
                commands.push(c);
                Event::Replied(reply)
            }
            Step::Yield => {
                yielded = true;
                Event::Yielded
            }
            Step::Poll => {
                polls += 1;
                assert!(polls < 100, "the upcall never came");
                Event::Polled(if yielded { upcall } else { None })
            }
        };
        let next = tx.advance(phase, event);
        phase = next.0;
        step = next.1;
    }
}

/// A button driver with ten buttons, as a kernel would run it.
struct FakeButtons {
    pressed: [bool; 10],
    interrupts: [bool; 10],
}

impl FakeButtons {
    fn new() -> Self {
        FakeButtons { pressed: [false; 10], interrupts: [false; 10] }
    }

    fn command(&mut self, c: Command) -> CommandReturn {
        assert_eq!(c.driver_num, 3);
        let i = c.arg0 as usize;
        if c.command_num == 0 {
            return CommandReturn::success_u32(10);
        }
        if i >= 10 {
            return CommandReturn::failure(ErrorCode::Invalid);
        }
        match c.command_num {
            1 => self.interrupts[i] = true,
            2 => self.interrupts[i] = false,
            3 => return CommandReturn::success_u32(self.pressed[i] as u32),
            _ => return CommandReturn::failure(ErrorCode::NoSupport),
        }
        CommandReturn::success()
    }
}

/// A LED driver with ten LEDs, as a kernel would run it.
struct FakeLeds {
    on: [bool; 10],
}

impl FakeLeds {
    fn command(&mut self, c: Command) -> CommandReturn {
        assert_eq!(c.driver_num, 2);
        let i = c.arg0 as usize;
        if c.command_num == 0 {
            return CommandReturn::success_u32(10);
        }
        if i >= 10 {
            return CommandReturn::failure(ErrorCode::Invalid);
        }
        match c.command_num {
            1 => self.on[i] = true,
            2 => self.on[i] = false,
            3 => self.on[i] = !self.on[i],
            _ => return CommandReturn::failure(ErrorCode::NoSupport),
        }
        CommandReturn::success()
    }
}

// ------------------------------------------------------------------- buttons

#[test]
fn buttons_no_driver() {
    assert_eq!(Buttons::count(), Command::new(3, 0, 0, 0));
    assert_eq!(CommandReturn::failure(ErrorCode::NoDevice).to_result_u32(), Err(ErrorCode::NoDevice));
}

#[test]
fn buttons_num_buttons() {
    let mut driver = FakeButtons::new();
    assert_eq!(driver.command(Buttons::count()).to_result_u32(), Ok(10));
}

#[test]
fn buttons_read() {
    let mut driver = FakeButtons::new();
    driver.pressed[0] = true;
    assert_eq!(Buttons::read_reply(&driver.command(Buttons::read(0))), Ok(ButtonState::Pressed));
    assert!(Buttons::is_pressed_reply(&driver.command(Buttons::read(0))));
    driver.pressed[0] = false;
    assert_eq!(Buttons::read_reply(&driver.command(Buttons::read(0))), Ok(ButtonState::Released));
    assert!(Buttons::is_released_reply(&driver.command(Buttons::read(0))));
    assert_eq!(Buttons::read_reply(&driver.command(Buttons::read(11))), Err(ErrorCode::Invalid));
    assert!(!Buttons::is_pressed_reply(&driver.command(Buttons::read(11))));
    assert!(!Buttons::is_released_reply(&driver.command(Buttons::read(11))));
}

#[test]
fn buttons_unknown_state() {
    assert_eq!(Buttons::read_reply(&CommandReturn::success_u32(7)), Ok(ButtonState::Unknown));
    assert_eq!(ButtonState::from(2), ButtonState::Unknown);
}

#[test]
fn buttons_interrupts() {
    let mut driver = FakeButtons::new();
    assert_eq!(driver.command(Buttons::enable_interrupts(0)).to_result_unit(), Ok(()));
    assert!(driver.interrupts[0]);
    assert_eq!(driver.command(Buttons::disable_interrupts(0)).to_result_unit(), Ok(()));
    assert!(!driver.interrupts[0]);
    assert_eq!(driver.command(Buttons::enable_interrupts(11)).to_result_unit(), Err(ErrorCode::Invalid));
    assert_eq!(driver.command(Buttons::disable_interrupts(11)).to_result_unit(), Err(ErrorCode::Invalid));
}

#[test]
fn buttons_subscribe() {
    let fired = Cell::new(false);
    let listener = ButtonListener(|button, state| {
        assert_eq!(button, 0);
        assert_eq!(state, ButtonState::Pressed);
        fired.set(true);
    });
    listener.upcall(0, 1, 0);
    assert!(fired.get());

    let fired = Cell::new(false);
    let listener = ButtonListener(|button, state| {
        assert_eq!(button, 0);
        assert_eq!(state, ButtonState::Released);
        fired.set(true);
    });
    listener.upcall(0, 0, 0);
    assert!(fired.get());
}

#[test]
fn interface_buttons_read_and_subscribe() {
    let mut driver = FakeButtons::new();
    assert_eq!(driver.command(IfButtons::count()).to_result_u32(), Ok(10));
    driver.pressed[3] = true;
    assert!(IfButtons::is_pressed_reply(&driver.command(IfButtons::read(3))));
    assert_eq!(driver.command(IfButtons::enable_interrupts(11)).to_result_unit(), Err(ErrorCode::Invalid));
    let seen = Cell::new(None);
    let listener = IfButtonListener(|button, state| seen.set(Some((button, state))));
    listener.upcall(2, 1, 0);
    assert_eq!(seen.get(), Some((2, libtock_apis::interface::buttons::ButtonState::Pressed)));
}

// ---------------------------------------------------------------------- leds

#[test]
fn leds_no_driver() {
    assert_eq!(CommandReturn::failure(ErrorCode::NoDevice).get_success_u32(), None);
}

#[test]
fn leds_driver_check() {
    let mut driver = FakeLeds { on: [false; 10] };
    assert!(driver.command(Leds::count()).get_success_u32().is_some());
    assert_eq!(driver.on, [false; 10]);
}

#[test]
fn num_leds() {
    let mut driver = FakeLeds { on: [false; 10] };
    assert_eq!(driver.command(Leds::count()).get_success_u32(), Some(10));
}

#[test]
fn on() {
    let mut driver = FakeLeds { on: [false; 10] };
    driver.command(Leds::on(0));
    assert!(driver.on[0]);
}

#[test]
fn off() {
    let mut driver = FakeLeds { on: [false; 10] };
    driver.command(Leds::off(0));
    assert!(!driver.on[0]);
}

#[test]
fn toggle() {
    let mut driver = FakeLeds { on: [false; 10] };
    driver.command(Leds::toggle(0));
    assert!(driver.on[0]);
    driver.command(Leds::toggle(0));
    assert!(!driver.on[0]);
}

#[test]
fn on_off() {
    let mut driver = FakeLeds { on: [false; 10] };
    driver.command(Leds::on(0));
    assert!(driver.on[0]);
    driver.command(Leds::off(0));
    assert!(!driver.on[0]);
}

#[test]
fn no_led() {
    let mut driver = FakeLeds { on: [false; 10] };
    driver.command(Leds::on(11));
    assert_eq!(driver.on, [false; 10]);
}

// ------------------------------------------------------------ low level debug

#[test]
fn low_level_debug_exists() {
    assert_eq!(LowLevelDebug::driver_exists(), Command::new(8, 0, 0, 0));
    assert!(CommandReturn::success().is_success());
    assert!(!CommandReturn::failure(ErrorCode::NoDevice).is_success());
}

#[test]
fn low_level_debug_print_alert_code() {
    assert_eq!(LowLevelDebug::print_alert_code(AlertCode::Panic), Command::new(8, 1, 0x01, 0));
    assert_eq!(LowLevelDebug::print_alert_code(AlertCode::WrongLocation), Command::new(8, 1, 0x02, 0));
}

#[test]
fn low_level_debug_print_1() {
    assert_eq!(LowLevelDebug::print_1(42), Command::new(8, 2, 42, 0));
}

#[test]
fn low_level_debug_print_2() {
    assert_eq!(LowLevelDebug::print_2(42, 27), Command::new(8, 3, 42, 27));
    assert_eq!(LowLevelDebug::print_2(29, 43), Command::new(8, 3, 29, 43));
}

#[test]
fn low_level_debug_failed_print() {
    assert_eq!(LowLevelDebug::print_1(72), Command::new(8, 2, 72, 0));
    assert!(!CommandReturn::failure(ErrorCode::Fail).is_success());
}

// --------------------------------------------------------------------- servo

#[test]
fn servo_no_driver() {
    assert_eq!(Servo::driver_exists(), Command::new(0x90009, 0, 0, 0));
    assert_eq!(Servo::driver_exists_reply(&CommandReturn::failure(ErrorCode::NoDevice)), Err(ErrorCode::Fail));
}

#[test]
fn servo_exists() {
    assert_eq!(Servo::driver_exists_reply(&CommandReturn::success()), Ok(()));
    assert_eq!(Servo::driver_exists_reply(&CommandReturn::success_u32(1)), Err(ErrorCode::Fail));
}

#[test]
fn count() {
    assert_eq!(Servo::servo_count(), Command::new(0x90009, 1, 0, 0));
    assert_eq!(CommandReturn::success_u32(2).to_result_u32(), Ok(2));
}

#[test]
fn set_angle() {
    assert_eq!(Servo::set_angle(1, 90), Command::new(0x90009, 2, 1, 90));
}

#[test]
fn get_angle() {
    assert_eq!(Servo::set_angle(1, 45), Command::new(0x90009, 2, 1, 45));
    assert_eq!(Servo::get_angle(1), Command::new(0x90009, 3, 1, 0));
    assert_eq!(CommandReturn::success_u32(45).to_result_u32(), Ok(45));
}

// --------------------------------------------------------- analog comparator

#[test]
fn analog_comparator_exists() {
    assert_eq!(AnalogComparator::driver_exists(), Command::new(0x7, 0, 0, 0));
}

#[test]
fn analog_comparator_comparison() {
    assert_eq!(AnalogComparator::analog_comparator_comparison(1), Command::new(0x7, 1, 1, 0));
}

#[test]
fn analog_comparator_start_comparing() {
    assert_eq!(AnalogComparator::analog_comparator_start_comparing(1), Command::new(0x7, 2, 1, 0));
}

#[test]
fn analog_comparator_stop_comparing() {
    assert_eq!(AnalogComparator::analog_comparator_stop_comparing(1), Command::new(0x7, 3, 1, 0));
    assert_eq!(AnalogComparator::analog_comparator_count(), Command::new(0x7, 4, 0, 0));
}

#[test]
fn analog_comparator_listener_gets_channel() {
    let seen = Cell::new(None);
    let listener = AnalogComparatorListener(|channel| seen.set(Some(channel)));
    listener.upcall(3, 0, 0);
    assert_eq!(seen.get(), Some(3));
}

// -------------------------------------------------------------------- buzzer

#[test]
fn buzzer_no_driver() {
    assert_eq!(OldBuzzer::driver_exists(), Command::new(0x90000, 0, 0, 0));
    assert_eq!(CommandReturn::failure(ErrorCode::NoDevice).to_result_unit(), Err(ErrorCode::NoDevice));
}

#[test]
fn tone() {
    assert_eq!(OldBuzzer::tone(1000, 100), Command::new(0x90000, 1, 1000, 100));
    let (_, _, o) = run::<u32>(&OldBuzzer::tone_sync(1000, 100), CommandReturn::failure(ErrorCode::Busy), None);
    assert_eq!(OldBuzzer::tone_sync_outcome(o), Err(ErrorCode::Busy));
}

#[test]
fn buzzer_tone_sync_returns_listener_value() {
    let o: Outcome<u32> = Outcome::Done(Some(CommandReturn::success()), Some(0));
    assert_eq!(OldBuzzer::tone_sync_outcome(o), Ok(0));
}

#[test]
fn buzzer_refused_subscribe_gives_the_listener_start_value() {
    let o: Outcome<u32> = Outcome::ShareFailed(ErrorCode::NoMem);
    assert_eq!(OldBuzzer::tone_sync_outcome(o), Ok(0));
}

#[test]
fn buzzer_duration_is_cut_to_32_bits() {
    let long: u128 = (1u128 << 32) + 5;
    assert_eq!(Buzzer::tone(440, long), Command::new(0x90000, 1, 440, 5));
}

#[test]
fn interface_buzzer_tone_sync() {
    let (shares, commands, o) = run(&Buzzer::tone_sync(Note::A4.frequency(), 500), CommandReturn::success(), Some(0u32));
    assert_eq!(shares, vec![Share::Subscribe(0)]);
    assert_eq!(commands, vec![Command::new(0x90000, 1, 440, 500)]);
    assert_eq!(Buzzer::tone_sync_outcome(o), Ok(()));
    let (_, _, o) = run::<u32>(&Buzzer::tone_sync(440, 500), CommandReturn::failure(ErrorCode::Busy), None);
    assert_eq!(Buzzer::tone_sync_outcome(o), Err(ErrorCode::Busy));
    let seen = Cell::new(None);
    let listener = BuzzerListener(|v| seen.set(Some(v)));
    listener.upcall(9, 0, 0);
    assert_eq!(seen.get(), Some(9));
}

#[test]
fn note_frequencies() {
    assert_eq!(Note::B0.frequency(), 31);
    assert_eq!(Note::A4.frequency(), 440);
    assert_eq!(Note::DS8.frequency(), 4978);
}

// ------------------------------------------------------------------- console

#[test]
fn console_no_driver() {
    assert_eq!(Console::driver_exists(), Command::new(1, 0, 0, 0));
    assert!(!CommandReturn::failure(ErrorCode::NoDevice).is_success());
}

#[test]
fn write_bytes() {
    let (shares, commands, o) = run(&Console::write(3), CommandReturn::success(), Some(3u32));
    assert_eq!(shares, vec![Share::AllowRo(1), Share::Subscribe(1)]);
    assert_eq!(commands, vec![Command::new(1, 1, 3, 0)]);
    assert_eq!(Console::write_outcome(o), Ok(()));
}

#[test]
fn write_str() {
    let (_, commands, o) = run(&OldConsole::write(3), CommandReturn::success(), Some(3u32));
    assert_eq!(commands, vec![Command::new(1, 1, 3, 0)]);
    assert_eq!(OldConsole::write_outcome(o), Ok(()));
}

#[test]
fn read_bytes_short() {
    let (shares, commands, o) = run(&Console::read(10), CommandReturn::success(), Some((0u32, 5u32)));
    assert_eq!(shares, vec![Share::AllowRw(1), Share::Subscribe(2)]);
    assert_eq!(commands, vec![Command::new(1, 2, 10, 0)]);
    assert_eq!(Console::read_outcome(o), (5, Ok(())));
}

#[test]
fn read_bytes_alot() {
    let (_, _, o) = run(&Console::read(5), CommandReturn::success(), Some((0u32, 5u32)));
    assert_eq!(Console::read_outcome(o), (5, Ok(())));
    let (_, _, o) = run(&Console::read(5), CommandReturn::success(), Some((0u32, 5u32)));
    assert_eq!(Console::read_outcome(o), (5, Ok(())));
}

#[test]
fn console_failed_print() {
    let (_, commands, o) = run::<u32>(&Console::write(5), CommandReturn::failure(ErrorCode::Fail), None);
    assert_eq!(commands, vec![Command::new(1, 1, 5, 0)]);
    assert_eq!(Console::write_outcome(o), Err(ErrorCode::Fail));
}

#[test]
fn failed_read() {
    let (_, commands, o) = run::<(u32, u32)>(&Console::read(3), CommandReturn::failure(ErrorCode::Fail), None);
    assert_eq!(commands, vec![Command::new(1, 2, 3, 0)]);
    assert_eq!(Console::read_outcome(o), (0, Err(ErrorCode::Fail)));
}

#[test]
fn console_read_status_error() {
    let (_, _, o) = run(&Console::read(4), CommandReturn::success(), Some((ErrorCode::Size.as_u32(), 2u32)));
    assert_eq!(Console::read_outcome(o), (2, Err(ErrorCode::Size)));
}

#[test]
fn buzzer_driver_check() {
    assert_eq!(Buzzer::driver_exists(), Command::new(0x90000, 0, 0, 0));
    assert_eq!(CommandReturn::success().to_result_unit(), Ok(()));
}

#[test]
fn console_exists() {
    assert_eq!(OldConsole::driver_check(), Command::new(1, 0, 0, 0));
    assert!(CommandReturn::success().is_success());
}
