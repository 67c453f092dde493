use std::cell::Cell;

use libtock_apis::adc::{Adc as OldAdc, ADCListener as OldAdcListener};
use libtock_apis::command_return::CommandReturn;
use libtock_apis::error_code::ErrorCode;
use libtock_apis::gpio::{Gpio as OldGpio, GpioState as OldGpioState, InterruptListener};
use libtock_apis::peripherals::adc::{ADCListener, Adc};
use libtock_apis::peripherals::gpio::{
    Gpio, GpioInterruptListener, GpioState, PinInterruptEdge, PullDown, PullNone, PullUp,
};
use libtock_apis::peripherals::i2c_master::I2CMaster;
use libtock_apis::peripherals::i2c_master_slave::I2CMasterSlave;
use libtock_apis::peripherals::rng::{Rng, RngListener};
use libtock_apis::peripherals::spi_controller::SpiController;
use libtock_apis::peripherals::uart_controller::UartController;
use libtock_apis::rng::Rng as OldRng;
use libtock_apis::syscall::{Command, Event, Outcome, Phase, Share, Step, Transaction};

/// Runs a transaction against a simulated kernel: every share succeeds, the
/// command gets `reply`, and the upcall (if any) is delivered by the first
/// yield.
fn run<U: Copy>(
    tx: &Transaction,
    reply: CommandReturn,
    upcall: Option<U>,
) -> (Vec<Share>, Vec<Command>, Outcome<U>) {
    let mut shares = Vec::new();
    let mut commands = Vec::new();
    let mut yielded = false;
    let mut polls = 0;
    let (mut phase, mut step) = tx.advance(Phase::Begin, Event::Start);
    loop {
        let event = match step {
            Step::Finish(o) => return (shares, commands, o),
            Step::Share(s) => {
                shares.push(s);
                Event::Shared(Ok(()))
            }
            Step::Command(c) => {
                commands.push(c);
                Event::Replied(reply)
            }
            Step::Yield => {
                yielded = true;
                Event::Yielded
            }
            Step::Poll => {
                polls += 1;
                assert!(polls < 100, "the upcall never came");
                Event::Polled(if yielded { upcall } else { None })
            }
        };
        let next = tx.advance(phase, event);
        phase = next.0;
        step = next.1;
    }
}

#[derive(Clone, Copy, Debug, PartialEq)]
enum Mode {
    Disable,
    Output,
    Input(u32),
}

/// A GPIO driver with ten pins, pin 1 missing, as a kernel would run it.
struct FakeGpio {
    mode: [Mode; 10],
    value: [bool; 10],
    interrupts: [Option<u32>; 10],
}

impl FakeGpio {
    fn new() -> Self {
        FakeGpio { mode: [Mode::Disable; 10], value: [false; 10], interrupts: [None; 10] }
    }

    fn command(&mut self, c: Command) -> CommandReturn {
        assert_eq!(c.driver_num, 4);
        let i = c.arg0 as usize;
        if c.command_num == 10 {
            return CommandReturn::success_u32(10);
        }
        if i >= 10 {
            return CommandReturn::failure(ErrorCode::Invalid);
        }
        if i == 1 {
            return CommandReturn::failure(ErrorCode::NoDevice);
        }
        match c.command_num {
            1 => self.mode[i] = Mode::Output,
            2 => self.value[i] = true,
            3 => self.value[i] = false,
            4 => self.value[i] = !self.value[i],
            5 => self.mode[i] = Mode::Input(c.arg1),
            6 => return CommandReturn::success_u32(self.value[i] as u32),
            7 => self.interrupts[i] = Some(c.arg1),
            8 => self.interrupts[i] = None,
            9 => self.mode[i] = Mode::Disable,
            _ => return CommandReturn::failure(ErrorCode::NoSupport),
        }
        CommandReturn::success()
    }
}

// ---------------------------------------------------------------------- gpio

#[test]
fn gpio_no_driver() {
    assert_eq!(Gpio::count(), Command::new(4, 10, 0, 0));
    assert_eq!(CommandReturn::failure(ErrorCode::NoDevice).to_result_u32(), Err(ErrorCode::NoDevice));
}

#[test]
fn num_gpio() {
    let mut driver = FakeGpio::new();
    assert_eq!(driver.command(Gpio::count()).to_result_u32(), Ok(10));
}

#[test]
fn output() {
    let mut driver = FakeGpio::new();
    assert!(matches!(Gpio::get_pin_reply(11, &driver.command(Gpio::get_pin(11))), Err(ErrorCode::Invalid)));
    assert!(matches!(Gpio::get_pin_reply(1, &driver.command(Gpio::get_pin(1))), Err(ErrorCode::NoDevice)));
    let pin = Gpio::get_pin_reply(0, &driver.command(Gpio::get_pin(0))).unwrap();
    let reply = driver.command(pin.make_output());
    let out = pin.make_output_reply(&reply).unwrap();
    assert_eq!(driver.mode[0], Mode::Output);
    assert_eq!(driver.command(out.set()).to_result_unit(), Ok(()));
    assert!(driver.value[0]);
    assert_eq!(driver.command(out.clear()).to_result_unit(), Ok(()));
    assert!(!driver.value[0]);
    assert_eq!(driver.command(out.toggle()).to_result_unit(), Ok(()));
    assert!(driver.value[0]);
    assert_eq!(driver.command(out.toggle()).to_result_unit(), Ok(()));
    assert!(!driver.value[0]);
    driver.command(out.drop_command());
    assert_eq!(driver.mode[0], Mode::Disable);
}

#[test]
fn input() {
    let mut driver = FakeGpio::new();
    let pin = Gpio::get_pin_reply(0, &driver.command(Gpio::get_pin(0))).unwrap();

    let reply = driver.command(pin.make_input::<PullNone>());
    assert!(pin.make_input_reply::<PullNone>(&reply).is_ok());
    assert_eq!(driver.mode[0], Mode::Input(0));

    let reply = driver.command(pin.make_input::<PullUp>());
    assert!(pin.make_input_reply::<PullUp>(&reply).is_ok());
    assert_eq!(driver.mode[0], Mode::Input(1));

    let reply = driver.command(pin.make_input::<PullDown>());
    let input = pin.make_input_reply::<PullDown>(&reply).unwrap();
    assert_eq!(driver.mode[0], Mode::Input(2));

    driver.value[0] = true;
    let r = driver.command(input.read());
    assert_eq!(libtock_apis::peripherals::gpio::InputPin::<PullDown>::read_reply(&r), Ok(GpioState::High));
    driver.value[0] = false;
    let r = driver.command(input.read());
    assert_eq!(libtock_apis::peripherals::gpio::InputPin::<PullDown>::read_reply(&r), Ok(GpioState::Low));
    driver.command(input.drop_command());
    assert_eq!(driver.mode[0], Mode::Disable);
}

#[test]
fn gpio_interrupts() {
    let mut driver = FakeGpio::new();
    assert_eq!(driver.command(Gpio::enable_interrupts(0, PinInterruptEdge::Either)).to_result_unit(), Ok(()));
    assert_eq!(driver.interrupts[0], Some(0));
    let pin = Gpio::get_pin_reply(0, &driver.command(Gpio::get_pin(0))).unwrap();
    let reply = driver.command(pin.make_input::<PullNone>());
    let input = pin.make_input_reply::<PullNone>(&reply).unwrap();
    for (edge, number) in [(PinInterruptEdge::Either, 0), (PinInterruptEdge::Rising, 1), (PinInterruptEdge::Falling, 2)] {
        assert_eq!(driver.command(input.enable_interrupts(edge)).to_result_unit(), Ok(()));
        assert_eq!(driver.interrupts[0], Some(number));
        assert_eq!(driver.command(input.disable_interrupts()).to_result_unit(), Ok(()));
        assert_eq!(driver.interrupts[0], None);
    }
    let state = Cell::new(None);
    let listener = GpioInterruptListener(|gpio, s| {
        assert_eq!(gpio, 0);
        state.set(Some(s));
    });
    listener.upcall(0, 1, 0);
    assert_eq!(state.get(), Some(GpioState::High));
    listener.upcall(0, 0, 0);
    assert_eq!(state.get(), Some(GpioState::Low));
}

#[test]
fn gpio_subscribe() {
    let state = Cell::new(None);
    let listener = GpioInterruptListener(|gpio, s| {
        assert_eq!(gpio, 0);
        state.set(Some(s));
    });
    assert_eq!(Gpio::enable_interrupts(0, PinInterruptEdge::Either), Command::new(4, 7, 0, 0));
    listener.upcall(0, 1, 0);
    assert_eq!(state.get(), Some(GpioState::High));
}

#[test]
fn old_gpio_pins() {
    assert_eq!(OldGpio::count(), Command::new(4, 0, 0, 0));
    assert_eq!(OldGpioState::from(5), OldGpioState::High);
    let seen = Cell::new(None);
    let listener = InterruptListener(|gpio, s| seen.set(Some((gpio, s))));
    listener.upcall(3, 0, 0);
    assert_eq!(seen.get(), Some((3, OldGpioState::Low)));
}

// ----------------------------------------------------------------------- adc

#[test]
fn adc_no_driver() {
    assert_eq!(Adc::driver_exists(), Command::new(0x5, 0, 0, 0));
    assert_eq!(Adc::driver_exists_reply(&CommandReturn::failure(ErrorCode::NoDevice)), Err(ErrorCode::NoDevice));
}

#[test]
fn adc_exists() {
    assert_eq!(Adc::driver_exists_reply(&CommandReturn::success_u32(4)), Ok(()));
    assert_eq!(Adc::driver_exists_reply(&CommandReturn::success()), Err(ErrorCode::BadRVal));
}

#[test]
fn read_single_sample() {
    assert_eq!(Adc::read_single_sample(), Command::new(0x5, 1, 0, 0));
    let (_, _, o) = run::<u16>(&Adc::read_single_sample_sync(), CommandReturn::failure(ErrorCode::Busy), None);
    assert_eq!(Adc::read_single_sample_sync_outcome(o), Err(ErrorCode::Busy));
}

#[test]
fn adc_register_unregister_listener() {
    let sample = Cell::new(None);
    let listener = ADCListener(|v| sample.set(Some(v)));
    listener.upcall(100, 0, 0);
    assert_eq!(sample.get(), Some(100));
    listener.upcall(0x1_0005, 0, 0);
    assert_eq!(sample.get(), Some(5));
}

#[test]
fn read_single_sample_sync() {
    let (shares, commands, o) = run(&Adc::read_single_sample_sync(), CommandReturn::success(), Some(1000u16));
    assert_eq!(shares, vec![Share::Subscribe(0)]);
    assert_eq!(commands, vec![Command::new(0x5, 1, 0, 0)]);
    assert_eq!(Adc::read_single_sample_sync_outcome(o), Ok(1000));
}

#[test]
fn old_adc_sample() {
    let (_, _, o) = run(&OldAdc::sample(), CommandReturn::success(), Some(77u32));
    assert_eq!(OldAdc::sample_outcome(o), Ok(77));
    let seen = Cell::new(None);
    let listener = OldAdcListener(|v| seen.set(Some(v)));
    listener.upcall(12, 0, 0);
    assert_eq!(seen.get(), Some(12));
}

// ---------------------------------------------------------------------- uart

#[test]
fn uart_no_driver() {
    assert_eq!(UartController::driver_exists(), Command::new(0x22, 0, 0, 0));
}

#[test]
fn write_and_read() {
    let tx = UartController::uart_controller_write_sync(0, 3, 3).unwrap();
    let (shares, commands, o) = run(&tx, CommandReturn::success(), Some((3u32, 0u32, 0u32)));
    assert_eq!(shares, vec![Share::AllowRo(1), Share::Subscribe(0)]);
    assert_eq!(commands, vec![Command::new(0x22, 1, 3, 0)]);
    assert_eq!(UartController::transfer_outcome(o, 3), Ok(()));

    let rx = UartController::uart_controller_read_sync(1, 3, 3).unwrap();
    let (shares, commands, o) = run(&rx, CommandReturn::success(), Some((3u32, 0u32, 0u32)));
    assert_eq!(shares, vec![Share::AllowRw(1), Share::Subscribe(0)]);
    assert_eq!(commands, vec![Command::new(0x22, 2, 3, 1)]);
    assert_eq!(UartController::transfer_outcome(o, 3), Ok(()));

    assert!(matches!(UartController::uart_controller_write_sync(2, 3, 3), Err(ErrorCode::Invalid)));
}

#[test]
fn uart_length_beyond_buffer() {
    assert!(matches!(UartController::uart_controller_write_sync(0, 2, 3), Err(ErrorCode::NoMem)));
    assert!(matches!(UartController::uart_controller_read_sync(5, 2, 3), Err(ErrorCode::Invalid)));
    assert!(UartController::is_supported_port(1));
    assert!(!UartController::is_supported_port(2));
}

// ----------------------------------------------------------------------- i2c

#[test]
fn i2c_master_transfers() {
    let t = I2CMaster::i2c_master_write_read_sync(0x50, 8, 2, 4).unwrap();
    let (shares, commands, o) = run(&t, CommandReturn::success(), Some((0u32, 0u32, 0u32)));
    assert_eq!(shares, vec![Share::AllowRw(1), Share::Subscribe(0)]);
    assert_eq!(commands, vec![Command::new(0x20003, 3, (2 << 8) | 0x50, 4)]);
    assert_eq!(I2CMaster::transfer_outcome(o), Ok(()));
    assert!(matches!(I2CMaster::i2c_master_write_read_sync(0x50, 3, 2, 4), Err(ErrorCode::NoMem)));

    let (_, commands, o) = run(&I2CMaster::i2c_master_write_sync(0x50, 2), CommandReturn::success(), Some((0u32, ErrorCode::NoAck.as_u32(), 0u32)));
    assert_eq!(commands, vec![Command::new(0x20003, 1, 0x50, 2)]);
    assert_eq!(I2CMaster::transfer_outcome(o), Err(ErrorCode::NoAck));

    let (_, commands, _) = run(&I2CMaster::i2c_master_read_sync(0x51, 7), CommandReturn::success(), Some((0u32, 0u32, 0u32)));
    assert_eq!(commands, vec![Command::new(0x20003, 2, 0x51, 7)]);
}

#[test]
fn i2c_master_slave_master_side() {
    let t = I2CMasterSlave::i2c_master_slave_write_sync(0x42, 4, 3).unwrap();
    let (shares, commands, o) = run(&t, CommandReturn::success(), Some((0u32, 0u32, 0u32)));
    assert_eq!(shares, vec![Share::AllowRo(0), Share::Subscribe(0)]);
    assert_eq!(commands, vec![Command::new(0x20006, 1, (3 << 16) | 0x42, 0)]);
    assert_eq!(I2CMasterSlave::i2c_master_slave_write_sync_outcome(o), Ok(()));
    assert!(matches!(I2CMasterSlave::i2c_master_slave_write_sync(0x42, 2, 3), Err(ErrorCode::NoMem)));

    let t = I2CMasterSlave::i2c_master_slave_read_sync(0x42, 4, 6).unwrap_err();
    assert_eq!(t, ErrorCode::NoMem);
    let t = I2CMasterSlave::i2c_master_slave_read_sync(0x42, 8, 6).unwrap();
    let (_, commands, o) = run(&t, CommandReturn::success(), Some((1u32, 0u32, 0u32)));
    assert_eq!(commands, vec![Command::new(0x20006, 2, (6 << 16) | 0x42, 0)]);
    assert_eq!(I2CMasterSlave::i2c_master_slave_read_sync_outcome(o, 8, 6), (6, Ok(())));

    let t = I2CMasterSlave::i2c_master_slave_write_read_sync(0x42, 4, 4, 2, 3).unwrap();
    let (shares, commands, o) = run(&t, CommandReturn::success(), Some((7u32, 0u32, ErrorCode::NoAck.as_u32())));
    assert_eq!(shares, vec![Share::AllowRw(1), Share::AllowRo(0), Share::Subscribe(0)]);
    assert_eq!(commands, vec![Command::new(0x20006, 7, (2 << 16) | (3 << 8) | 0x42, 0)]);
    assert_eq!(I2CMasterSlave::i2c_master_slave_write_read_sync_outcome(o, 4, 3), (0, Err(ErrorCode::NoAck)));
    assert!(matches!(I2CMasterSlave::i2c_master_slave_write_read_sync(0x42, 2, 8, 2, 3), Err(ErrorCode::NoMem)));
}

#[test]
fn i2c_master_slave_slave_side() {
    assert_eq!(I2CMasterSlave::i2c_master_slave_set_slave_address(0x7f).unwrap(), Command::new(0x20006, 6, 0x7f, 0));
    assert_eq!(I2CMasterSlave::i2c_master_slave_set_slave_address(0x80).unwrap_err(), ErrorCode::Invalid);

    let (shares, commands, o) = run(&I2CMasterSlave::i2c_master_slave_write_recv_sync(), CommandReturn::success(), Some((3u32, 5u32, 0u32)));
    assert_eq!(shares, vec![Share::AllowRw(3), Share::Subscribe(0)]);
    assert_eq!(commands, vec![Command::new(0x20006, 3, 0, 0)]);
    assert_eq!(I2CMasterSlave::i2c_master_slave_write_recv_sync_outcome(o), (5, Ok(())));

    let t = I2CMasterSlave::i2c_master_slave_read_send_sync(4, 4).unwrap();
    let (_, commands, o) = run(&t, CommandReturn::success(), Some((4u32, 4u32, 0u32)));
    assert_eq!(commands, vec![Command::new(0x20006, 4, 4, 0)]);
    assert_eq!(I2CMasterSlave::i2c_master_slave_read_send_sync_outcome(o), (4, Ok(())));
    assert!(matches!(I2CMasterSlave::i2c_master_slave_read_send_sync(3, 4), Err(ErrorCode::Invalid)));

    let (_, _, o) = run::<(u32, u32, u32)>(&I2CMasterSlave::i2c_master_slave_write_recv_sync(), CommandReturn::failure(ErrorCode::Busy), None);
    assert_eq!(I2CMasterSlave::i2c_master_slave_write_recv_sync_outcome(o), (0, Err(ErrorCode::Busy)));
}

// ----------------------------------------------------------------------- spi

#[test]
fn spi_transfers() {
    let t = SpiController::spi_controller_write_read_sync(4, 4, 4).unwrap();
    let (shares, commands, o) = run(&t, CommandReturn::success(), Some((4u32, 0u32, 0u32)));
    assert_eq!(shares.len(), 3);
    assert_eq!(commands.len(), 1);
    assert_eq!(SpiController::transfer_outcome(o, 4), Ok(()));
    assert!(matches!(SpiController::spi_controller_write_read_sync(4, 3, 4), Err(ErrorCode::NoMem)));
    assert!(matches!(SpiController::spi_controller_write_sync(3, 4), Err(ErrorCode::NoMem)));
    assert!(matches!(SpiController::spi_controller_read_sync(3, 4), Err(ErrorCode::NoMem)));
    assert!(matches!(SpiController::spi_controller_inplace_write_read_sync(3, 4), Err(ErrorCode::NoMem)));
    assert!(SpiController::spi_controller_write_sync(4, 4).is_ok());
    assert!(SpiController::spi_controller_read_sync(4, 4).is_ok());
    assert!(SpiController::spi_controller_inplace_write_read_sync(4, 4).is_ok());
}

// ----------------------------------------------------------------------- rng

#[test]
fn rng_get_bytes() {
    assert_eq!(Rng::get_bytes_async(8), Command::new(0x40001, 1, 8, 0));
    let (shares, commands, o) = run(&Rng::get_bytes_sync(8), CommandReturn::success(), Some(()));
    assert_eq!(shares, vec![Share::AllowRw(0), Share::Subscribe(0)]);
    assert_eq!(commands, vec![Command::new(0x40001, 1, 8, 0)]);
    assert_eq!(Rng::get_bytes_sync_outcome(o), Ok(()));
    let (_, _, o) = run::<()>(&OldRng::get_bytes_sync(8), CommandReturn::failure(ErrorCode::NoMem), None);
    assert_eq!(OldRng::get_bytes_sync_outcome(o), Err(ErrorCode::NoMem));
    let seen = Cell::new(None);
    let listener = RngListener(|n| seen.set(Some(n)));
    listener.upcall(0, 8, 0);
    assert_eq!(seen.get(), Some(8));
}
