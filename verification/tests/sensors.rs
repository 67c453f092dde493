use std::cell::Cell;

use libtock_apis::air_quality::AirQuality as OldAirQuality;
use libtock_apis::ambient_light::{AmbientLight, IntensityListener};
use libtock_apis::command_return::{to_signed, CommandReturn};
use libtock_apis::error_code::ErrorCode;
use libtock_apis::proximity::Proximity;
use libtock_apis::sensors::air_quality::{AirQuality, AirQualityListener};
use libtock_apis::sensors::ninedof::{NineDof, NineDofData, NineDofListener};
use libtock_apis::sound_pressure::{SoundPressure, SoundPressureListener};
use libtock_apis::syscall::{Command, Event, Outcome, Phase, Share, Step, Transaction};
use libtock_apis::temperature::{Temperature, TemperatureListener};

/// Runs a transaction against a simulated kernel: every share succeeds, the
/// command gets `reply`, and the upcall (if any) is delivered by the first
/// yield. Returns the shares and commands asked for, and the outcome.
fn run<U: Copy>(
    tx: &Transaction,
    reply: CommandReturn,
    upcall: Option<U>,
) -> (Vec<Share>, Vec<Command>, Outcome<U>) {
    let mut shares = Vec::new();
    let mut commands = Vec::new();
    let mut yielded = false;
    let mut polls = 0;
    let (mut phase, mut step) = tx.advance(Phase::Begin, Event::Start);
    loop {
        let event = match step {
            Step::Finish(o) => return (shares, commands, o),
            Step::Share(s) => {
                shares.push(s);
                Event::Shared(Ok(()))
            }
            Step::Command(c) => {
                commands.push(c);
                Event::Replied(reply)
            }
            Step::Yield => {
                yielded = true;
                Event::Yielded
            }
            Step::Poll => {
                polls += 1;
                assert!(polls < 100, "the upcall never came");
                Event::Polled(if yielded { upcall } else { None })
            }
        };
        let next = tx.advance(phase, event);
        phase = next.0;
        step = next.1;
    }
}

fn busy() -> CommandReturn {
    CommandReturn::failure(ErrorCode::Busy)
}

fn no_device() -> CommandReturn {
    CommandReturn::failure(ErrorCode::NoDevice)
}

// ---------------------------------------------------------------- temperature

#[test]
fn temperature_no_driver() {
    assert_eq!(Temperature::driver_exists(), Command::new(0x60000, 0, 0, 0));
    assert_eq!(no_device().to_result_unit(), Err(ErrorCode::NoDevice));
}

#[test]
fn temperature_exists() {
    assert_eq!(CommandReturn::success().to_result_unit(), Ok(()));
}

#[test]
fn temperature_read_temperature() {
    assert_eq!(Temperature::read_temperature(), Command::new(0x60000, 1, 0, 0));
    assert_eq!(CommandReturn::success().to_result_unit(), Ok(()));
    assert_eq!(busy().to_result_unit(), Err(ErrorCode::Busy));
    let (_, _, o) = run::<i32>(&Temperature::read_temperature_sync(), busy(), None);
    assert_eq!(Temperature::read_temperature_sync_outcome(o), Err(ErrorCode::Busy));
}

#[test]
fn temperature_register_unregister_listener() {
    let temperature_cell: Cell<Option<i32>> = Cell::new(None);
    let listener = TemperatureListener(|temp_val| temperature_cell.set(Some(temp_val)));
    listener.upcall(100, 0, 0);
    assert_eq!(temperature_cell.get(), Some(100));
}

#[test]
fn temperature_read_temperature_sync() {
    let tx = Temperature::read_temperature_sync();
    let (shares, commands, o) = run(&tx, CommandReturn::success(), Some(to_signed(1000)));
    assert_eq!(shares, vec![Share::Subscribe(0)]);
    assert_eq!(commands, vec![Command::new(0x60000, 1, 0, 0)]);
    assert_eq!(Temperature::read_temperature_sync_outcome(o), Ok(1000));
}

#[test]
fn negative_value() {
    let raw = (-1000i32) as u32;
    let (_, _, o) = run(&Temperature::read_temperature_sync(), CommandReturn::success(), Some(to_signed(raw)));
    assert_eq!(Temperature::read_temperature_sync_outcome(o), Ok(-1000));
}

#[test]
fn temperature_missing_upcall_is_fail() {
    let o: Outcome<i32> = Outcome::Done(Some(CommandReturn::success()), None);
    assert_eq!(Temperature::read_temperature_sync_outcome(o), Err(ErrorCode::Fail));
}

/// Runs a transaction whose first share the kernel refuses with `err`.
fn run_share_refused<U: Copy>(tx: &Transaction, err: ErrorCode) -> (Vec<Command>, Outcome<U>) {
    let mut commands = Vec::new();
    let (mut phase, mut step) = tx.advance::<U>(Phase::Begin, Event::Start);
    loop {
        let event = match step {
            Step::Finish(o) => return (commands, o),
            Step::Share(_) => Event::Shared(Err(err)),
            Step::Command(c) => {
                commands.push(c);
                Event::Replied(CommandReturn::success())
            }
            Step::Yield => Event::Yielded,
            Step::Poll => Event::Polled(None),
        };
        let next = tx.advance(phase, event);
        phase = next.0;
        step = next.1;
    }
}

#[test]
fn temperature_refused_subscribe_is_fail() {
    let (commands, o) = run_share_refused::<i32>(&Temperature::read_temperature_sync(), ErrorCode::NoMem);
    assert!(commands.is_empty());
    assert!(matches!(o, Outcome::ShareFailed(ErrorCode::NoMem)));
    assert_eq!(Temperature::read_temperature_sync_outcome(o), Err(ErrorCode::Fail));
}

// -------------------------------------------------------------- ambient light

#[test]
fn ambient_light_no_driver() {
    assert_eq!(AmbientLight::driver_exists(), Command::new(0x60002, 0, 0, 0));
    assert_eq!(no_device().to_result_unit(), Err(ErrorCode::NoDevice));
}

#[test]
fn ambient_light_read_intensity_busy() {
    assert_eq!(AmbientLight::read_intensity(), Command::new(0x60002, 1, 0, 0));
    let (_, _, o) = run::<u32>(&AmbientLight::read_intensity_sync(), busy(), None);
    assert_eq!(AmbientLight::read_intensity_sync_outcome(o), Err(ErrorCode::Busy));
}

#[test]
fn ambient_light_register_unregister_listener() {
    let intensity_cell: Cell<Option<u32>> = Cell::new(None);
    let listener = IntensityListener(|val| intensity_cell.set(Some(val)));
    listener.upcall(100, 0, 0);
    assert_eq!(intensity_cell.get(), Some(100));
}

#[test]
fn ambient_light_read_intensity_sync() {
    let (shares, _, o) = run(&AmbientLight::read_intensity_sync(), CommandReturn::success(), Some(1000u32));
    assert_eq!(shares, vec![Share::Subscribe(0)]);
    assert_eq!(AmbientLight::read_intensity_sync_outcome(o), Ok(1000));
}

// ---------------------------------------------------------------- air quality

#[test]
fn air_quality_no_driver() {
    assert_eq!(AirQuality::driver_exists(), Command::new(0x60007, 0, 0, 0));
    assert_eq!(no_device().to_result_unit(), Err(ErrorCode::NoDevice));
}

#[test]
fn read_co2() {
    assert_eq!(AirQuality::read_co2(), Command::new(0x60007, 2, 0, 0));
    let (_, _, o) = run::<u32>(&AirQuality::read_co2_sync(), busy(), None);
    assert_eq!(AirQuality::read_data_outcome(o), Err(ErrorCode::Busy));
}

#[test]
fn read_tvoc() {
    assert_eq!(AirQuality::read_tvoc(), Command::new(0x60007, 3, 0, 0));
    let (_, _, o) = run::<u32>(&AirQuality::read_tvoc_sync(), busy(), None);
    assert_eq!(AirQuality::read_data_outcome(o), Err(ErrorCode::Busy));
}

#[test]
fn air_quality_register_unregister_listener() {
    let data_cell: Cell<Option<u32>> = Cell::new(None);
    let listener = AirQualityListener(|data_val| data_cell.set(Some(data_val)));
    listener.upcall(100, 0, 0);
    assert_eq!(data_cell.get(), Some(100));
}

#[test]
fn read_co2_sync() {
    let (_, commands, o) = run(&AirQuality::read_co2_sync(), CommandReturn::success(), Some(100u32));
    assert_eq!(commands, vec![Command::new(0x60007, 2, 0, 0)]);
    assert_eq!(AirQuality::read_data_outcome(o), Ok(100));
}

#[test]
fn read_tvoc_sync() {
    let (_, commands, o) = run(&AirQuality::read_tvoc_sync(), CommandReturn::success(), Some(100u32));
    assert_eq!(commands, vec![Command::new(0x60007, 3, 0, 0)]);
    assert_eq!(AirQuality::read_data_outcome(o), Ok(100));
}

#[test]
fn read_sync() {
    let (_, _, co2) = run(&AirQuality::read_co2_sync(), CommandReturn::success(), Some(100u32));
    let (_, _, tvoc) = run(&AirQuality::read_tvoc_sync(), CommandReturn::success(), Some(200u32));
    let co2 = AirQuality::read_data_outcome(co2);
    let tvoc = AirQuality::read_data_outcome(tvoc);
    assert_eq!(AirQuality::read_sync(co2, tvoc), Ok((100, 200)));
}

#[test]
fn air_quality_read_sync_reports_first_error() {
    assert_eq!(
        AirQuality::read_sync(Err(ErrorCode::Busy), Err(ErrorCode::Fail)),
        Err(ErrorCode::Busy)
    );
    assert_eq!(AirQuality::read_sync(Ok(1), Err(ErrorCode::Fail)), Err(ErrorCode::Fail));
}

#[test]
fn old_air_quality_missing_value_is_busy() {
    let (_, _, o) = run::<u32>(&OldAirQuality::read_co2_sync(), CommandReturn::failure(ErrorCode::Off), None);
    assert_eq!(OldAirQuality::read_data_outcome(o), Err(ErrorCode::Busy));
    let (_, _, o) = run(&OldAirQuality::read_tvoc_sync(), CommandReturn::success(), Some(7u32));
    assert_eq!(OldAirQuality::read_data_outcome(o), Ok(7));
}

// -------------------------------------------------------------------- ninedof

#[test]
fn ninedof_no_driver() {
    assert_eq!(NineDof::driver_exists(), Command::new(0x60004, 0, 0, 0));
    assert_eq!(no_device().to_result_unit(), Err(ErrorCode::NoDevice));
}

#[test]
fn ninedof_driver_busy() {
    assert_eq!(NineDof::read_accelerometer(), Command::new(0x60004, 1, 0, 0));
    let (_, _, o) = run::<NineDofData>(&NineDof::read_accelerometer_sync(), busy(), None);
    assert_eq!(NineDof::read_sync_outcome(o), Err(ErrorCode::Busy));
}

#[test]
fn read_accelerometer() {
    let data: Cell<Option<NineDofData>> = Cell::new(None);
    let listener = NineDofListener(|d| data.set(Some(d)));
    listener.upcall(1, 2, 3);
    assert_eq!(data.get(), Some(NineDofData { x: 1, y: 2, z: 3 }));
}

#[test]
fn read_magnetometer() {
    assert_eq!(NineDof::read_magnetometer(), Command::new(0x60004, 100, 0, 0));
    let data: Cell<Option<NineDofData>> = Cell::new(None);
    let listener = NineDofListener(|d| data.set(Some(d)));
    listener.upcall((-1i32) as u32, 2, (-3i32) as u32);
    assert_eq!(data.get(), Some(NineDofData { x: -1, y: 2, z: -3 }));
}

#[test]
fn read_gyro() {
    assert_eq!(NineDof::read_gyro(), Command::new(0x60004, 200, 0, 0));
    assert_eq!(NineDofData::from_upcall(4, 5, 6), NineDofData { x: 4, y: 5, z: 6 });
}

#[test]
fn ninedof_register_unregister_listener() {
    let data: Cell<Option<NineDofData>> = Cell::new(None);
    let listener = NineDofListener(|d| data.set(Some(d)));
    listener.upcall(7, 8, 9);
    assert_eq!(data.get(), Some(NineDofData { x: 7, y: 8, z: 9 }));
}

#[test]
fn read_accelerometer_sync() {
    let up = NineDofData::from_upcall(1, 2, 3);
    let (_, commands, o) = run(&NineDof::read_accelerometer_sync(), CommandReturn::success(), Some(up));
    assert_eq!(commands, vec![Command::new(0x60004, 1, 0, 0)]);
    assert_eq!(NineDof::read_sync_outcome(o), Ok(NineDofData { x: 1, y: 2, z: 3 }));
}

#[test]
fn read_magnetometer_sync() {
    let up = NineDofData::from_upcall(1, 2, 3);
    let (_, commands, o) = run(&NineDof::read_magnetometer_sync(), CommandReturn::success(), Some(up));
    assert_eq!(commands, vec![Command::new(0x60004, 100, 0, 0)]);
    assert_eq!(NineDof::read_sync_outcome(o), Ok(NineDofData { x: 1, y: 2, z: 3 }));
}

#[test]
fn read_gyro_sync() {
    let up = NineDofData::from_upcall(1, 2, 3);
    let (_, commands, o) = run(&NineDof::read_gyroscope_sync(), CommandReturn::success(), Some(up));
    assert_eq!(commands, vec![Command::new(0x60004, 200, 0, 0)]);
    assert_eq!(NineDof::read_sync_outcome(o), Ok(NineDofData { x: 1, y: 2, z: 3 }));
}

// ------------------------------------------------------------- sound pressure

#[test]
fn sound_pressure_no_driver() {
    assert_eq!(SoundPressure::driver_exists(), Command::new(0x60006, 0, 0, 0));
    assert_eq!(no_device().to_result_unit(), Err(ErrorCode::NoDevice));
}

#[test]
fn sound_pressure_driver_busy() {
    assert_eq!(SoundPressure::read(), Command::new(0x60006, 1, 0, 0));
    let (_, _, o) = run::<u32>(&SoundPressure::read_sync(), busy(), None);
    assert_eq!(SoundPressure::read_sync_outcome(o), Err(ErrorCode::Busy));
}

#[test]
fn read_pressure() {
    let cell: Cell<Option<u32>> = Cell::new(None);
    let listener = SoundPressureListener(|v| cell.set(Some(v)));
    listener.upcall(100, 0, 0);
    assert_eq!(cell.get(), Some(100));
}

#[test]
fn read_pressure_sync() {
    let (_, _, o) = run(&SoundPressure::read_sync(), CommandReturn::success(), Some(100u32));
    assert_eq!(SoundPressure::read_sync_outcome(o), Ok(100));
}

#[test]
fn sound_pressure_out_of_range() {
    let (_, _, o) = run(&SoundPressure::read_sync(), CommandReturn::success(), Some(257u32));
    assert_eq!(SoundPressure::read_sync_outcome(o), Err(ErrorCode::Invalid));
    let (_, _, o) = run(&SoundPressure::read_sync(), CommandReturn::success(), Some(256u32));
    assert_eq!(SoundPressure::read_sync_outcome(o), Err(ErrorCode::Invalid));
    let (_, _, o) = run(&SoundPressure::read_sync(), CommandReturn::success(), Some(255u32));
    assert_eq!(SoundPressure::read_sync_outcome(o), Ok(255));
    assert_eq!(SoundPressure::enable(), Command::new(0x60006, 2, 0, 0));
    assert_eq!(SoundPressure::disable(), Command::new(0x60006, 3, 0, 0));
}

// ------------------------------------------------------------------ proximity

#[test]
fn proximity_no_driver() {
    assert_eq!(Proximity::driver_exists(), Command::new(0x60005, 0, 0, 0));
    assert_eq!(no_device().to_result_unit(), Err(ErrorCode::NoDevice));
}

#[test]
fn busy_driver() {
    assert_eq!(Proximity::read(), Command::new(0x60005, 1, 0, 0));
    assert_eq!(Proximity::read_on_interrupt(0, 0), Command::new(0x60005, 2, 0, 0));
    assert_eq!(busy().to_result_unit(), Err(ErrorCode::Busy));
}

#[test]
fn async_readings() {
    assert_eq!(Proximity::read_on_interrupt(100, 200), Command::new(0x60005, 2, 100, 200));
}

#[test]
fn sync_readings() {
    let (_, commands, o) = run(&Proximity::read_sync(), CommandReturn::success(), Some(100u32));
    assert_eq!(commands, vec![Command::new(0x60005, 1, 0, 0)]);
    assert_eq!(Proximity::read_sync_outcome(o), Ok(100));

    let tx = Proximity::wait_for_value_between(100, 200).unwrap();
    let (_, commands, o) = run(&tx, CommandReturn::success(), Some(250u32));
    assert_eq!(commands, vec![Command::new(0x60005, 2, 100, 200)]);
    assert_eq!(Proximity::read_sync_outcome(o), Ok(250));
}

#[test]
fn bad_arguments() {
    assert!(matches!(Proximity::wait_for_value_between(200, 100), Err(ErrorCode::Invalid)));
}

#[test]
fn air_quality_exists() {
    assert_eq!(OldAirQuality::driver_exists(), Command::new(0x60007, 0, 0, 0));
    assert_eq!(CommandReturn::success().to_result_unit(), Ok(()));
}

#[test]
fn ambient_light_exists() {
    assert_eq!(AmbientLight::driver_exists(), Command::new(0x60002, 0, 0, 0));
    assert_eq!(CommandReturn::success().to_result_unit(), Ok(()));
}

#[test]
fn proximity_exists() {
    assert_eq!(CommandReturn::success().to_result_unit(), Ok(()));
    assert_eq!(Proximity::driver_exists().command_num, 0);
}

#[test]
fn sound_pressure_exists() {
    assert_eq!(CommandReturn::success().to_result_unit(), Ok(()));
    assert_eq!(SoundPressure::driver_exists().driver_num, 0x60006);
}

#[test]
fn ninedof_exists() {
    assert_eq!(CommandReturn::success().to_result_unit(), Ok(()));
    assert_eq!(NineDof::driver_exists().driver_num, 0x60004);
}
