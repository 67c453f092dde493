use std::collections::VecDeque;

use libtock_apis::command_return::CommandReturn;
use libtock_apis::error_code::ErrorCode;
use libtock_apis::net::ieee802154::rx::{Frame, RxOperator, RxRingBuffer, RxSingleBufferOperator};
use libtock_apis::net::ieee802154::Ieee802154;
use libtock_apis::syscall::{Command, Event, Phase, Share, Step};

const DRIVER_NUM: u32 = 0x30001;

/// The radio driver as a kernel runs it: setters keep the register they got,
/// getters hand it back.
#[derive(Default)]
struct FakeRadio {
    short: u32,
    pan: u32,
    chan: u32,
    power: u32,
    long_low: u32,
    long_high: u32,
    committed: bool,
}

impl FakeRadio {
    fn command(&mut self, c: Command) -> CommandReturn {
        assert_eq!(c.driver_num, DRIVER_NUM);
        match c.command_num {
            0 => CommandReturn::success(),
            2 => {
                self.short = c.arg0;
                CommandReturn::success()
            }
            4 => {
                self.pan = c.arg0;
                CommandReturn::success()
            }
            5 => {
                self.chan = c.arg0;
                CommandReturn::success()
            }
            6 => {
                self.power = c.arg0;
                CommandReturn::success()
            }
            7 => {
                self.committed = true;
                CommandReturn::success()
            }
            8 => CommandReturn::success_u32(self.short),
            10 => CommandReturn::success_u32(self.pan),
            11 => CommandReturn::success_u32(self.chan),
            12 => CommandReturn::success_u32(self.power),
            28 => {
                self.long_low = c.arg0;
                self.long_high = c.arg1;
                CommandReturn::success()
            }
            29 => CommandReturn::success_u64(self.long_low as u64 | ((self.long_high as u64) << 32)),
            _ => CommandReturn::failure(ErrorCode::NoSupport),
        }
    }
}

#[test]
fn ieee802154_no_driver() {
    assert_eq!(Ieee802154::driver_exists(), Command::new(DRIVER_NUM, 0, 0, 0));
    assert!(!CommandReturn::failure(ErrorCode::NoDevice).is_success());
}

#[test]
fn ieee802154_exists() {
    let mut radio = FakeRadio::default();
    assert!(radio.command(Ieee802154::driver_exists()).is_success());
}

#[test]
fn configure() {
    let mut radio = FakeRadio::default();
    let pan: u16 = 0xcafe;
    let addr_short: u16 = 0xdead;
    let addr_long: u64 = 0xdeaddad;
    let tx_power: i8 = -0x42;
    let channel: u8 = 0xff;

    radio.command(Ieee802154::set_pan(pan));
    radio.command(Ieee802154::set_address_short(addr_short));
    radio.command(Ieee802154::set_address_long(addr_long));
    radio.command(Ieee802154::set_tx_power(tx_power)).to_result_unit().unwrap();
    radio.command(Ieee802154::set_channel(channel)).to_result_unit().unwrap();
    radio.command(Ieee802154::commit_config());
    assert!(radio.committed);

    assert_eq!(Ieee802154::get_pan_reply(&radio.command(Ieee802154::get_pan())).unwrap(), pan);
    assert_eq!(
        Ieee802154::get_address_short_reply(&radio.command(Ieee802154::get_address_short())).unwrap(),
        addr_short
    );
    assert_eq!(radio.command(Ieee802154::get_address_long()).to_result_u64().unwrap(), addr_long);
    assert_eq!(Ieee802154::get_channel_reply(&radio.command(Ieee802154::get_channel())).unwrap(), channel);
    assert_eq!(Ieee802154::get_tx_power_reply(&radio.command(Ieee802154::get_tx_power())).unwrap(), tx_power);
}

#[test]
fn ieee802154_register_encodings() {
    assert_eq!(Ieee802154::set_pan(0xcafe), Command::new(DRIVER_NUM, 4, 0xcaff, 0));
    assert_eq!(Ieee802154::set_tx_power(-1), Command::new(DRIVER_NUM, 6, 0xffff_ffff, 0));
    assert_eq!(Ieee802154::set_address_long(0x1_0000_0002), Command::new(DRIVER_NUM, 28, 2, 1));
    assert_eq!(Ieee802154::get_pan_reply(&CommandReturn::success_u32(0x1_0001)), Ok(0));
    assert_eq!(Ieee802154::get_channel_reply(&CommandReturn::success_u32(0x1ff)), Ok(0xff));
    assert_eq!(Ieee802154::get_tx_power_reply(&CommandReturn::success_u32(0x180)), Ok(-128));
    assert_eq!(
        Ieee802154::get_pan_reply(&CommandReturn::failure(ErrorCode::Off)),
        Err(ErrorCode::Off)
    );
    assert_eq!(Ieee802154::is_on(), Command::new(DRIVER_NUM, 1, 0, 0));
    assert_eq!(Ieee802154::radio_on(), Command::new(DRIVER_NUM, 30, 0, 0));
    assert_eq!(Ieee802154::radio_off(), Command::new(DRIVER_NUM, 31, 0, 0));
}

#[test]
fn transmit_frame() {
    let tx = Ieee802154::transmit_frame();
    let mut transmitted: Vec<&[u8]> = Vec::new();
    for frame in [&b"foo"[..], b"bar"] {
        let (mut phase, mut step) = tx.advance::<u32>(Phase::Begin, Event::Start);
        let mut shared: Option<&[u8]> = None;
        let mut sent = false;
        let result = loop {
            let event = match step {
                Step::Finish(o) => break Ieee802154::transmit_frame_outcome(o),
                Step::Share(Share::AllowRo(0)) => {
                    shared = Some(frame);
                    Event::Shared(Ok(()))
                }
                Step::Share(_) => Event::Shared(Ok(())),
                Step::Command(c) => {
                    assert_eq!(c, Command::new(DRIVER_NUM, 27, 0, 0));
                    transmitted.push(shared.unwrap());
                    sent = true;
                    Event::Replied(CommandReturn::success())
                }
                Step::Yield => Event::Yielded,
                Step::Poll => Event::Polled(if sent { Some(0) } else { None }),
            };
            let next = tx.advance(phase, event);
            phase = next.0;
            step = next.1;
        };
        result.unwrap();
    }
    assert_eq!(transmitted, vec![&b"foo"[..], &b"bar"[..]]);
}

#[test]
fn transmit_frame_failure() {
    let tx = Ieee802154::transmit_frame();
    let (phase, step) = tx.advance::<u32>(Phase::Begin, Event::Start);
    assert!(matches!(step, Step::Share(Share::AllowRo(0))));
    let (_, step) = tx.advance::<u32>(phase, Event::Shared(Err(ErrorCode::Reserve)));
    match step {
        Step::Finish(o) => assert_eq!(Ieee802154::transmit_frame_outcome(o), Err(ErrorCode::Reserve)),
        _ => panic!("a failed share ends the transaction"),
    }
}

// --------------------------------------------------------------------- rx

/// The kernel side of reception: frames the radio received and that wait
/// until the process shares its ring buffer.
struct FakePhy {
    pending: VecDeque<Vec<u8>>,
}

impl FakePhy {
    fn radio_receive_frame(&mut self, body: &[u8]) {
        self.pending.push_back(body.to_vec());
    }

    /// Copies pending frames into the shared buffer while it has room;
    /// returns whether any was copied (and so an upcall is queued).
    fn receive_pending<const N: usize>(&mut self, buf: &mut RxRingBuffer<N>) -> bool {
        let bytes = buf.as_mut_byte_slice();
        let mut any = false;
        while let Some(body) = self.pending.front() {
            let head = bytes[0] as usize;
            let tail = bytes[1] as usize;
            let next = (tail + 1) % N;
            if next == head {
                break;
            }
            let o = 2 + 130 * tail;
            bytes[o] = 0;
            bytes[o + 1] = body.len() as u8;
            bytes[o + 2] = 0;
            bytes[o + 3..o + 3 + body.len()].copy_from_slice(body);
            bytes[1] = next as u8;
            self.pending.pop_front();
            any = true;
        }
        any
    }
}

/// What receiving a frame does: take one the buffer holds, or share the
/// buffer, subscribe, and yield until the kernel signals one.
fn receive<const N: usize>(phy: &mut FakePhy, op: &mut RxSingleBufferOperator<N>) -> Frame {
    if let Some(f) = op.receive_frame() {
        return f;
    }
    let tx = Ieee802154::receive_frame_single_buf();
    let (mut phase, mut step) = tx.advance::<u32>(Phase::Begin, Event::Start);
    let mut queued = false;
    loop {
        let event = match step {
            Step::Finish(o) => return op.frame_after_wait(o).unwrap(),
            Step::Share(Share::Subscribe(0)) => {
                queued = phy.receive_pending(&mut op.buf);
                Event::Shared(Ok(()))
            }
            Step::Share(_) => Event::Shared(Ok(())),
            Step::Command(_) => panic!("reception issues no command"),
            Step::Yield => {
                if !queued {
                    panic!("yield-wait called with no queued upcall");
                }
                Event::Yielded
            }
            Step::Poll => Event::Polled(if queued { Some(0) } else { None }),
        };
        let next = tx.advance(phase, event);
        phase = next.0;
        step = next.1;
    }
}

fn check(frame: &Frame, expected: &[u8]) {
    assert_eq!(frame.payload_len as usize, expected.len());
    assert_eq!(&frame.body[..frame.payload_len as usize], expected);
}

#[test]
#[should_panic = "yield-wait called with no queued upcall"]
fn no_frame_comes_single_buf() {
    let mut phy = FakePhy { pending: VecDeque::new() };
    let mut op = RxSingleBufferOperator::new(RxRingBuffer::<2>::new());
    let _ = receive(&mut phy, &mut op);
}

#[test]
fn receive_frame() {
    let mut phy = FakePhy { pending: VecDeque::new() };
    let mut op = RxSingleBufferOperator::new(RxRingBuffer::<2>::new());
    let frame1 = b"alamakota";
    phy.radio_receive_frame(frame1);
    let got = receive(&mut phy, &mut op);
    check(&got, frame1);
}

#[test]
#[should_panic = "yield-wait called with no queued upcall"]
fn receive_frame_only_one_single_buf() {
    let mut phy = FakePhy { pending: VecDeque::new() };
    let mut op = RxSingleBufferOperator::new(RxRingBuffer::<2>::new());
    let frame1 = b"alamakota";
    phy.radio_receive_frame(frame1);
    let got = receive(&mut phy, &mut op);
    check(&got, frame1);
    let _ = receive(&mut phy, &mut op);
}

#[test]
fn receive_many_frames() {
    const SUPPORTED_FRAMES: usize = 3;
    let mut phy = FakePhy { pending: VecDeque::new() };
    let mut op = RxSingleBufferOperator::new(RxRingBuffer::<{ SUPPORTED_FRAMES + 1 }>::new());
    for (times, frame) in [1usize, 2, 3, 10].iter().copied().zip([&b"one"[..], b"two", b"three", b"ten"]) {
        for _ in 0..times {
            phy.radio_receive_frame(frame);
        }
        for _ in 0..std::cmp::min(times, SUPPORTED_FRAMES) {
            let got = receive(&mut phy, &mut op);
            check(&got, frame);
        }
    }
}

#[test]
fn receive_various_frames() {
    const SUPPORTED_FRAMES: usize = 3;
    let mut phy = FakePhy { pending: VecDeque::new() };
    let mut op = RxSingleBufferOperator::new(RxRingBuffer::<{ SUPPORTED_FRAMES + 1 }>::new());
    let frames: [&[u8]; 3] = [b"alamakota", b"ewamamewe", b"wojciechmalaptop"];
    let order = [0, 1, 2, 2, 1, 0, 2, 2, 1, 0, 2];
    for idx in order {
        let times = idx + 1;
        for _ in 0..times {
            phy.radio_receive_frame(frames[idx]);
        }
        for _ in 0..std::cmp::min(times, SUPPORTED_FRAMES) {
            let got = receive(&mut phy, &mut op);
            check(&got, frames[idx]);
        }
    }
}

#[test]
fn ring_buffer_reads_in_order_and_wraps() {
    let mut buf = RxRingBuffer::<2>::new();
    assert!(!buf.has_frame());
    assert_eq!(buf.as_mut_byte_slice().len(), 2 + 2 * 130);
    {
        let b = buf.as_mut_byte_slice();
        b[0] = 1;
        b[1] = 0;
        b[2 + 130 + 1] = 4;
        b[2 + 130 + 3] = 9;
    }
    assert!(buf.has_frame());
    let f = buf.next_frame();
    assert_eq!(f.payload_len, 4);
    assert_eq!(f.body[0], 9);
    // the read index wrapped around to slot 0, where the write index stands
    assert!(!buf.has_frame());
}

#[test]
fn short_values_round_trip_at_the_top() {
    let mut radio = FakeRadio::default();
    radio.command(Ieee802154::set_pan(0xffff));
    radio.command(Ieee802154::set_address_short(0xffff));
    assert_eq!(Ieee802154::get_pan_reply(&radio.command(Ieee802154::get_pan())), Ok(0xffff));
    assert_eq!(
        Ieee802154::get_address_short_reply(&radio.command(Ieee802154::get_address_short())),
        Ok(0xffff)
    );
}
