use std::convert::TryFrom;

use libtock_apis::build_scripts::{
    layout_file_name, layout_script, platform_layout, select_layout, tbf_header_size, LayoutError,
};
use libtock_apis::command_return::CommandReturn;
use libtock_apis::error_code::ErrorCode;
use libtock_apis::executor::{block_on_step, from_generator, BlockOn, GeneratorFuture, GeneratorState, Poll};
use libtock_apis::screen::{Grid, PixelStreamFormat, Rectangle, Resolution, Screen};
use libtock_apis::syscall::{Command, Event, Outcome, Phase, Share, Step, Transaction};

const SCREEN: u32 = 0x90001;

// -------------------------------------------------------------------- screen

#[test]
fn screen_driver_check() {
    assert_eq!(Screen::driver_check(), Command::new(SCREEN, 0, 0, 0));
}

#[test]
fn screen_get_resolution() {
    assert_eq!(Screen::get_resolution(), Command::new(SCREEN, 23, 0, 0));
    assert_eq!(
        Screen::get_resolution_reply(&CommandReturn::success_2_u32(1920, 1080)),
        Ok(Resolution { width: 1920, height: 1080 })
    );
    assert_eq!(Screen::get_resolution_reply(&CommandReturn::failure(ErrorCode::Off)), Err(ErrorCode::Off));
    assert_eq!(Screen::get_resolution_reply(&CommandReturn::success_u32(3)), Err(ErrorCode::BadRVal));
}

#[test]
fn screen_pixel_format() {
    assert_eq!(Screen::get_pixel_format(), Command::new(SCREEN, 25, 0, 0));
    let grid: u64 = (8u64 << 48) | (16u64 << 32) | (2u64 << 16) | 4u64;
    assert_eq!(
        Screen::get_pixel_format_reply(&CommandReturn::success_u32_u64(4, grid)),
        Ok((PixelStreamFormat::RGB_565, Grid { x_offset: 2, y_offset: 4, width: 8, height: 16 }))
    );
    assert_eq!(
        Screen::get_pixel_format_reply(&CommandReturn::success_u32_u64(7, grid)),
        Err(ErrorCode::Invalid)
    );
}

#[test]
fn grid_unpack() {
    assert_eq!(
        Grid::unpack(0x0001_0002_0003_0004),
        Grid { width: 1, height: 2, x_offset: 3, y_offset: 4 }
    );
    assert_eq!(
        Grid::unpack(u64::MAX),
        Grid { width: 0xffff, height: 0xffff, x_offset: 0xffff, y_offset: 0xffff }
    );
}

#[test]
fn pixel_formats() {
    let bits = [1u8, 1, 4, 8, 16, 24, 32];
    for (code, expected) in bits.iter().enumerate() {
        let f = PixelStreamFormat::try_from(code as u32).unwrap();
        assert_eq!(f.get_bits_per_pixel(), *expected);
    }
    assert_eq!(PixelStreamFormat::try_from(7), Err(()));
    assert_eq!(PixelStreamFormat::try_from(0), Ok(PixelStreamFormat::Mono_1H8));
}

#[test]
fn screen_set_frame_packs_coordinates() {
    let c = Screen::set_frame(Rectangle { x: 1, y: 2, width: 3, height: 4 });
    assert_eq!(c, Command::new(SCREEN, 100, 0x0001_0002, 0x0003_0004));
    let c = Screen::set_frame(Rectangle { x: 0xffff, y: 0xffff, width: 0xffff, height: 0 });
    assert_eq!(c, Command::new(SCREEN, 100, 0xffff_ffff, 0xffff_0000));
}

/// Runs a screen command transaction: the upcall that comes after the yield
/// is `upcall`, filtered as the driver filters it.
fn run_screen(tx: &Transaction, reply: CommandReturn, upcall: Option<(u32, u32)>) -> (Vec<Share>, Vec<Command>, Outcome<(u32, u32)>) {
    let mut shares = Vec::new();
    let mut commands = Vec::new();
    let (mut phase, mut step) = tx.advance(Phase::Begin, Event::Start);
    let mut polls = 0;
    loop {
        let event = match step {
            Step::Finish(o) => return (shares, commands, o),
            Step::Share(s) => {
                shares.push(s);
                Event::Shared(Ok(()))
            }
            Step::Command(c) => {
                commands.push(c);
                Event::Replied(reply)
            }
            Step::Yield => Event::Yielded,
            Step::Poll => {
                polls += 1;
                assert!(polls < 10, "the upcall never came");
                Event::Polled(Screen::awaited_upcall(upcall))
            }
        };
        let next = tx.advance(phase, event);
        phase = next.0;
        step = next.1;
    }
}

#[test]
fn screen_set_power() {
    let (shares, commands, o) = run_screen(&Screen::set_power(true), CommandReturn::success(), Some((0, 0)));
    assert_eq!(shares, vec![Share::Subscribe(0)]);
    assert_eq!(commands, vec![Command::new(SCREEN, 2, 1, 0)]);
    assert_eq!(Screen::command_outcome(o), Ok(()));
    let (_, commands, _) = run_screen(&Screen::set_power(false), CommandReturn::success(), Some((0, 0)));
    assert_eq!(commands, vec![Command::new(SCREEN, 2, 0, 0)]);
}

#[test]
fn screen_set_brightness_and_write() {
    let (_, commands, o) = run_screen(&Screen::set_brightness(90), CommandReturn::success(), Some((0, 0)));
    assert_eq!(commands, vec![Command::new(SCREEN, 3, 90, 0)]);
    assert_eq!(Screen::command_outcome(o), Ok(()));
    let (shares, commands, o) = run_screen(&Screen::write(12), CommandReturn::failure(ErrorCode::Size), None);
    assert_eq!(shares, vec![Share::AllowRo(0), Share::Subscribe(0)]);
    assert_eq!(commands, vec![Command::new(SCREEN, 200, 12, 0)]);
    assert_eq!(Screen::command_outcome(o), Err(ErrorCode::Size));
}

#[test]
fn screen_ignores_other_upcalls() {
    assert_eq!(Screen::awaited_upcall(Some((5, 1))), None);
    assert_eq!(Screen::awaited_upcall(Some((5, 0))), Some((5, 0)));
    assert_eq!(Screen::awaited_upcall(None), None);
}

// ------------------------------------------------------------- build scripts

#[test]
fn known_platform_layout() {
    let l = platform_layout(&"microbit_v2".to_string()).unwrap();
    assert_eq!(
        (l.flash_start.as_str(), l.flash_len.as_str(), l.ram_start.as_str(), l.ram_len.as_str()),
        ("0x00040000", "256K", "0x20004000", "112K")
    );
    assert!(platform_layout(&"unknown_board".to_string()).is_none());
}

#[test]
fn select_layout_cases() {
    let l = select_layout(Some("hail".to_string()), None, None, None, None).ok().unwrap();
    assert_eq!(l.flash_start, "0x00030000");
    let l = select_layout(None, Some("0x1000".to_string()), None, Some("0x2000".to_string()), None).ok().unwrap();
    assert_eq!((l.flash_len.as_str(), l.ram_len.as_str()), ("0xD0000", "46K"));
    let l = select_layout(None, Some("0x1000".to_string()), Some("1K".to_string()), Some("0x2000".to_string()), Some("2K".to_string()))
        .ok()
        .unwrap();
    assert_eq!((l.flash_len.as_str(), l.ram_len.as_str()), ("1K", "2K"));
    match select_layout(Some("nowhere".to_string()), None, None, None, None) {
        Err(LayoutError::UnknownPlatform(p)) => assert_eq!(p, "nowhere"),
        _ => panic!("an unknown platform is refused"),
    }
    assert!(matches!(
        select_layout(Some("hail".to_string()), Some("0x1000".to_string()), None, Some("0x2000".to_string()), None),
        Err(LayoutError::Unspecified)
    ));
    assert!(matches!(select_layout(None, Some("0x1000".to_string()), None, None, None), Err(LayoutError::Unspecified)));
}

#[test]
fn layout_file_contents() {
    let l = platform_layout(&"nrf52840".to_string()).unwrap();
    assert_eq!(layout_file_name(&l), "0x00040000.768K.0x20010000.128k.ld");
    assert_eq!(tbf_header_size(None), "0x80");
    assert_eq!(tbf_header_size(Some("0x100".to_string())), "0x100");
    assert_eq!(
        layout_script("0x80", &l),
        "TBF_HEADER_SIZE = 0x80;\nFLASH_START = 0x00040000;\nFLASH_LENGTH = 768K;\nRAM_START = 0x20010000;\nRAM_LENGTH = 128k;\nINCLUDE libtock_layout.ld;\n"
    );
}

// ------------------------------------------------------------------ executor

#[test]
fn executor_steps() {
    let f = from_generator(7u8);
    assert_eq!(f.generator, 7);
    assert!(matches!(GeneratorFuture::<u8>::poll_result::<u32>(GeneratorState::Yielded(())), Poll::Pending));
    assert!(matches!(GeneratorFuture::<u8>::poll_result(GeneratorState::Complete(5u32)), Poll::Ready(5)));
    assert!(matches!(block_on_step::<u32>(Poll::Pending), BlockOn::Yield));
    assert!(matches!(block_on_step(Poll::Ready(9u32)), BlockOn::Return(9)));
}

// ------------------------------------------------------- replies and calls

#[test]
fn command_return_decoding() {
    assert_eq!(CommandReturn::success_u64(0x1_0000_0002).to_result_u64(), Ok(0x1_0000_0002));
    assert_eq!(CommandReturn::success_u32_u64(3, 9).to_result_u32_u64(), Ok((3, 9)));
    assert_eq!(CommandReturn::success_2_u32(3, 9).to_result_2_u32(), Ok((3, 9)));
    assert_eq!(CommandReturn::failure_u32(ErrorCode::Busy, 4).to_result_unit(), Err(ErrorCode::BadRVal));
    assert_eq!(CommandReturn::success_u32(4).to_result_unit(), Err(ErrorCode::BadRVal));
    assert_eq!(CommandReturn::failure(ErrorCode::Size).to_result_u64(), Err(ErrorCode::Size));
    assert_eq!(CommandReturn::from_registers(0, 0, 0, 0), None);
    assert_eq!(CommandReturn::from_registers(3, 2000, 0, 0), None);
    assert_eq!(
        CommandReturn::from_registers(0, 2, 0, 0),
        Some(CommandReturn::failure(ErrorCode::Busy))
    );
    assert_eq!(CommandReturn::from_registers(129, 42, 0, 0), Some(CommandReturn::success_u32(42)));
}

#[test]
fn error_code_status() {
    assert_eq!(ErrorCode::status_to_result(0), Ok(()));
    assert_eq!(ErrorCode::status_to_result(13), Err(ErrorCode::NoAck));
    assert_eq!(ErrorCode::status_to_result(5000), Err(ErrorCode::Fail));
}

#[test]
fn transaction_without_command_waits_at_once() {
    let tx = Transaction::new(vec![], None, libtock_apis::syscall::Expect::Unit, libtock_apis::syscall::Wait::NoWait);
    let (_, step) = tx.advance::<u32>(Phase::Begin, Event::Start);
    match step {
        Step::Finish(Outcome::Done(None, None)) => {}
        _ => panic!("nothing to do ends at once"),
    }
}

#[test]
fn transaction_expecting_u32_refuses_plain_success() {
    let tx = Transaction::new(
        vec![],
        Some(Command::new(1, 2, 3, 4)),
        libtock_apis::syscall::Expect::U32,
        libtock_apis::syscall::Wait::NoWait,
    );
    let (phase, step) = tx.advance::<u32>(Phase::Begin, Event::Start);
    assert!(matches!(step, Step::Command(_)));
    let (_, step) = tx.advance::<u32>(phase, Event::Replied(CommandReturn::success()));
    match step {
        Step::Finish(Outcome::Failed(e)) => assert_eq!(e, ErrorCode::BadRVal),
        _ => panic!("a plain success is not the reply expected"),
    }
}
