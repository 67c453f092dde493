pub mod lightness;

use vstd::prelude::*;
use crate::command_return::CommandReturn;
use crate::error_code::ErrorCode;
use crate::syscall::{cmd, completion, spec_completion, Command, Expect, Outcome, Share, Transaction, Wait};
use vstd::std_specs::convert::TryFromSpecImpl;

verus! {

pub const DRIVER_NUM: u32 = 0x90001;

pub const DRIVER_CHECK: u32 = 0;
pub const SET_POWER: u32 = 2;
pub const SET_BRIGHTNESS: u32 = 3;
pub const RESOLUTION: u32 = 23;
pub const PIXEL_FORMAT: u32 = 25;
pub const SET_FRAME: u32 = 100;
pub const WRITE: u32 = 200;

pub const SUBSCRIBE_COMMANDS: u32 = 0;
pub const ALLOW_RO_WRITE: u32 = 0;

/// The callback kind that reports a finished command.
pub const CALLBACK_READY: u32 = 0;

#[derive(Clone, Copy, Debug, PartialEq, Eq, Structural)]
pub struct Resolution {
    pub width: u32,
    pub height: u32,
}

#[derive(Clone, Copy, Debug, PartialEq, Eq, Structural)]
pub struct Rectangle {
    pub x: u16,
    pub y: u16,
    pub width: u16,
    pub height: u16,
}

/// How pixels are encoded in the data written to the screen.
#[allow(non_camel_case_types)]
#[derive(Clone, Copy, Debug, PartialEq, Eq, Structural)]
pub enum PixelStreamFormat {
    /// 1 bit per pixel; 8 consecutive bits, most significant first, are 8
    /// horizontal pixels left to right.
    Mono_1H8,
    /// 1 bit per pixel; 8 consecutive bits, most significant first, are 8
    /// vertical pixels top to bottom, and the end of a line moves the cursor
    /// to the start of the line 8 pixels down.
    Mono_1V8,
    /// A byte carries two pixels, the higher nibble on the left; each color
    /// channel is 1 bit, most significant first: RGBX, X being padding.
    RGB_111xH2,
    /// 2-bit red, 3-bit green, 3-bit blue channels.
    RGB_233,
    /// 5-bit red, 6-bit green, 5-bit blue channels.
    RGB_565,
    /// 8-bit red, green and blue channels.
    RGB_888,
    /// 8-bit alpha, red, green and blue channels.
    ARGB_8888,
}

impl PixelStreamFormat {
    pub open spec fn spec_bits_per_pixel(self) -> u8 {
        match self {
            PixelStreamFormat::Mono_1H8 => 1,
            PixelStreamFormat::Mono_1V8 => 1,
            PixelStreamFormat::RGB_111xH2 => 4,
            PixelStreamFormat::RGB_233 => 8,
            PixelStreamFormat::RGB_565 => 16,
            PixelStreamFormat::RGB_888 => 24,
            PixelStreamFormat::ARGB_8888 => 32,
        }
    }

    /// Bits per pixel.
    pub fn get_bits_per_pixel(&self) -> (b: u8)
        ensures
            b == self.spec_bits_per_pixel(),
    {
        match self {
            PixelStreamFormat::Mono_1H8 => 1,
            PixelStreamFormat::Mono_1V8 => 1,
            PixelStreamFormat::RGB_111xH2 => 4,
            PixelStreamFormat::RGB_233 => 8,
            PixelStreamFormat::RGB_565 => 16,
            PixelStreamFormat::RGB_888 => 24,
            PixelStreamFormat::ARGB_8888 => 32,
        }
    }

    /// The number the driver knows the format by.
    pub open spec fn spec_code(self) -> u32 {
        match self {
            PixelStreamFormat::Mono_1H8 => 0,
            PixelStreamFormat::Mono_1V8 => 1,
            PixelStreamFormat::RGB_111xH2 => 2,
            PixelStreamFormat::RGB_233 => 3,
            PixelStreamFormat::RGB_565 => 4,
            PixelStreamFormat::RGB_888 => 5,
            PixelStreamFormat::ARGB_8888 => 6,
        }
    }

    /// The format a number stands for, if any: 0 to 6.
    pub open spec fn spec_try_from(v: u32) -> Result<PixelStreamFormat, ()> {
        if v == 0 { Ok(PixelStreamFormat::Mono_1H8) }
        else if v == 1 { Ok(PixelStreamFormat::Mono_1V8) }
        else if v == 2 { Ok(PixelStreamFormat::RGB_111xH2) }
        else if v == 3 { Ok(PixelStreamFormat::RGB_233) }
        else if v == 4 { Ok(PixelStreamFormat::RGB_565) }
        else if v == 5 { Ok(PixelStreamFormat::RGB_888) }
        else if v == 6 { Ok(PixelStreamFormat::ARGB_8888) }
        else { Err(()) }
    }
}

impl TryFrom<u32> for PixelStreamFormat {
    type Error = ();

    fn try_from(v: u32) -> (r: Result<PixelStreamFormat, ()>) {
        match v {
            0 => Ok(PixelStreamFormat::Mono_1H8),
            1 => Ok(PixelStreamFormat::Mono_1V8),
            2 => Ok(PixelStreamFormat::RGB_111xH2),
            3 => Ok(PixelStreamFormat::RGB_233),
            4 => Ok(PixelStreamFormat::RGB_565),
            5 => Ok(PixelStreamFormat::RGB_888),
            6 => Ok(PixelStreamFormat::ARGB_8888),
            _ => Err(()),
        }
    }
}

impl TryFromSpecImpl<u32> for PixelStreamFormat {
    open spec fn obeys_try_from_spec() -> bool {
        true
    }

    open spec fn try_from_spec(v: u32) -> Result<PixelStreamFormat, ()> {
        PixelStreamFormat::spec_try_from(v)
    }
}

/// How the display is tiled with rectangles.
#[derive(Clone, Copy, Debug, PartialEq, Eq, Structural)]
pub struct Grid {
    /// A vertical edge of a rectangle, from the display's left edge; more
    /// rectangles are tiled left and right without overlap until they fill
    /// the display.
    pub x_offset: u16,
    /// A horizontal edge of a rectangle, from the display's top edge.
    pub y_offset: u16,
    /// Width of one rectangle.
    pub width: u16,
    /// Height of one rectangle.
    pub height: u16,
}

/// The 16-bit field of a 64-bit value that starts at bit `16 * k`.
pub open spec fn field16(g: u64, k: int) -> u16 {
    ((g as int / pow2_16k(k)) % 0x1_0000) as u16
}

pub open spec fn pow2_16k(k: int) -> int {
    if k == 0 { 1 } else if k == 1 { 0x1_0000 } else if k == 2 { 0x1_0000_0000 } else { 0x1_0000_0000_0000 }
}

impl Grid {
    /// The grid packed in a 64-bit value: width in bits 48 to 63, height in
    /// 32 to 47, horizontal offset in 16 to 31, vertical offset in 0 to 15.
    pub open spec fn spec_unpack(g: u64) -> Grid {
        Grid { width: field16(g, 3), height: field16(g, 2), x_offset: field16(g, 1), y_offset: field16(g, 0) }
    }

    pub fn unpack(g: u64) -> (grid: Grid)
        ensures
            grid == Self::spec_unpack(g),
    {
        let width = (g >> 48u64) as u16;
        let height = (g >> 32u64) as u16;
        let x_offset = (g >> 16u64) as u16;
        let y_offset = g as u16;
        assert(width == ((g / 0x1_0000_0000_0000) % 0x1_0000) as u16) by (bit_vector)
            requires
                width == (g >> 48u64) as u16,
        ;
        assert(height == ((g / 0x1_0000_0000) % 0x1_0000) as u16) by (bit_vector)
            requires
                height == (g >> 32u64) as u16,
        ;
        assert(x_offset == ((g / 0x1_0000) % 0x1_0000) as u16) by (bit_vector)
            requires
                x_offset == (g >> 16u64) as u16,
        ;
        assert(y_offset == (g % 0x1_0000) as u16) by (bit_vector)
            requires
                y_offset == g as u16,
        ;
        Grid { width, height, x_offset, y_offset }
    }
}

/// The screen driver: it controls an attached display.
pub struct Screen;

impl Screen {
    /// Checks that the driver is present: it is when the reply `is_success`.
    pub fn driver_check() -> (c: Command)
        ensures
            c == cmd(DRIVER_NUM, DRIVER_CHECK, 0, 0),
    {
        Command::new(DRIVER_NUM, DRIVER_CHECK, 0, 0)
    }

    /// Asks for the resolution.
    pub fn get_resolution() -> (c: Command)
        ensures
            c == cmd(DRIVER_NUM, RESOLUTION, 0, 0),
    {
        Command::new(DRIVER_NUM, RESOLUTION, 0, 0)
    }

    /// The resolution a reply reports: width, then height.
    pub fn get_resolution_reply(reply: &CommandReturn) -> (r: Result<Resolution, ErrorCode>)
        requires
            reply.wf(),
        ensures
            r == (match reply.spec_to_result_2_u32() {
                Ok((w, h)) => Ok(Resolution { width: w, height: h }),
                Err(e) => Err::<Resolution, ErrorCode>(e),
            }),
    {
        match reply.to_result_2_u32() {
            Ok((width, height)) => Ok(Resolution { width, height }),
            Err(e) => Err(e),
        }
    }

    /// Asks for the pixel format.
    pub fn get_pixel_format() -> (c: Command)
        ensures
            c == cmd(DRIVER_NUM, PIXEL_FORMAT, 0, 0),
    {
        Command::new(DRIVER_NUM, PIXEL_FORMAT, 0, 0)
    }

    /// The pixel format and grid a reply reports: a format number, then the
    /// packed grid. A number that is no format is `Invalid`.
    pub fn get_pixel_format_reply(reply: &CommandReturn) -> (r: Result<(PixelStreamFormat, Grid), ErrorCode>)
        requires
            reply.wf(),
        ensures
            r == (match reply.spec_to_result_u32_u64() {
                Ok((pf, g)) => match PixelStreamFormat::spec_try_from(pf) {
                    Ok(f) => Ok((f, Grid::spec_unpack(g as u64))),
                    Err(_) => Err(ErrorCode::Invalid),
                },
                Err(e) => Err::<(PixelStreamFormat, Grid), ErrorCode>(e),
            }),
    {
        match reply.to_result_u32_u64() {
            Ok((pf, g)) => match PixelStreamFormat::try_from(pf) {
                Ok(f) => Ok((f, Grid::unpack(g))),
                Err(()) => Err(ErrorCode::Invalid),
            },
            Err(e) => Err(e),
        }
    }

    /// The upcall that a command waits for: one whose second value reports
    /// the command ready. An upcall of another kind is not waited for.
    pub open spec fn spec_awaited(cell: Option<(u32, u32)>) -> Option<(u32, u32)> {
        match cell {
            Some(u) => if u.1 == CALLBACK_READY { Some(u) } else { None },
            None => None,
        }
    }

    /// What the wait of a command looks at: the upcall kept, if it is the one
    /// awaited.
    pub fn awaited_upcall(cell: Option<(u32, u32)>) -> (r: Option<(u32, u32)>)
        ensures
            r == Self::spec_awaited(cell),
    {
        match cell {
            Some((result, command)) => {
                if command == CALLBACK_READY {
                    Some((result, command))
                } else {
                    None
                }
            },
            None => None,
        }
    }

    /// Turns the screen on or off: subscribes, asks, and yields until the
    /// command is ready.
    pub fn set_power(on: bool) -> (t: Transaction)
        ensures
            t.is(
                seq![Share::Subscribe(SUBSCRIBE_COMMANDS)],
                Some(cmd(DRIVER_NUM, SET_POWER, if on { 1 } else { 0 }, 0)),
                Expect::Unit,
                Wait::YieldFirst,
            ),
    {
        let arg: u32 = if on { 1 } else { 0 };
        Transaction::subscribe_and_wait(SUBSCRIBE_COMMANDS, Command::new(DRIVER_NUM, SET_POWER, arg, 0), Wait::YieldFirst)
    }

    /// Sets the brightness: subscribes, asks, and yields until the command is
    /// ready.
    pub fn set_brightness(lightness: u32) -> (t: Transaction)
        ensures
            t.is(
                seq![Share::Subscribe(SUBSCRIBE_COMMANDS)],
                Some(cmd(DRIVER_NUM, SET_BRIGHTNESS, lightness, 0)),
                Expect::Unit,
                Wait::YieldFirst,
            ),
    {
        Transaction::subscribe_and_wait(SUBSCRIBE_COMMANDS, Command::new(DRIVER_NUM, SET_BRIGHTNESS, lightness, 0), Wait::YieldFirst)
    }

    /// Selects the frame that writes go to: its position packed in the first
    /// argument, its size in the second, the first coordinate of each in the
    /// upper half. The reply reads with `to_result_unit`.
    pub fn set_frame(frame: Rectangle) -> (c: Command)
        ensures
            c == cmd(
                DRIVER_NUM,
                SET_FRAME,
                (frame.x as int * 0x1_0000 + frame.y as int) as u32,
                (frame.width as int * 0x1_0000 + frame.height as int) as u32,
            ),
    {
        let x = frame.x as u32;
        let y = frame.y as u32;
        let w = frame.width as u32;
        let h = frame.height as u32;
        let reg1 = (x << 16u32) | y;
        let reg2 = (w << 16u32) | h;
        assert(reg1 == x * 0x1_0000 + y) by (bit_vector)
            requires
                reg1 == (x << 16u32) | y,
                x < 0x1_0000,
                y < 0x1_0000,
        ;
        assert(reg2 == w * 0x1_0000 + h) by (bit_vector)
            requires
                reg2 == (w << 16u32) | h,
                w < 0x1_0000,
                h < 0x1_0000,
        ;
        Command::new(DRIVER_NUM, SET_FRAME, reg1, reg2)
    }

    /// Writes `len` bytes of pixel data to the frame: shares them,
    /// subscribes, asks, and yields until the command is ready. The data's
    /// alignment and bounds are not checked.
    pub fn write(len: usize) -> (t: Transaction)
        ensures
            t.is(
                seq![Share::AllowRo(ALLOW_RO_WRITE), Share::Subscribe(SUBSCRIBE_COMMANDS)],
                Some(cmd(DRIVER_NUM, WRITE, len as u32, 0)),
                Expect::Unit,
                Wait::YieldFirst,
            ),
    {
        Transaction::new(
            vec![Share::AllowRo(ALLOW_RO_WRITE), Share::Subscribe(SUBSCRIBE_COMMANDS)],
            Some(Command::new(DRIVER_NUM, WRITE, len as u32, 0)),
            Expect::Unit,
            Wait::YieldFirst,
        )
    }

    /// What a power, brightness or write command returns: the error of the
    /// call that failed, or success once it is ready.
    pub fn command_outcome(o: Outcome<(u32, u32)>) -> (r: Result<(), ErrorCode>)
        ensures
            r == spec_completion(o),
    {
        completion(o)
    }
}


/// Reading a format's number gives the format back: no two formats share a
/// number, and none is lost.
pub proof fn lemma_format_number_round_trip(f: PixelStreamFormat)
    ensures
        PixelStreamFormat::spec_try_from(f.spec_code()) == Ok::<PixelStreamFormat, ()>(f),
        f.spec_code() < 7,
{
}

/// Every number the driver may report reads back to itself: a number is a
/// format exactly when it is below 7, and then it is that format's number.
pub proof fn lemma_format_numbers(v: u32)
    ensures
        PixelStreamFormat::spec_try_from(v) is Ok <==> v < 7,
        PixelStreamFormat::spec_try_from(v) matches Ok(f) ==> f.spec_code() == v,
{
}

/// The driver's numbering of the monochrome formats: 0 is the horizontal
/// one, 1 the vertical one; the colour formats follow by growing depth.
pub proof fn lemma_monochrome_numbers()
    ensures
        PixelStreamFormat::Mono_1H8.spec_code() == 0,
        PixelStreamFormat::Mono_1V8.spec_code() == 1,
        PixelStreamFormat::spec_try_from(1) == Ok::<PixelStreamFormat, ()>(PixelStreamFormat::Mono_1V8),
        forall|v: u32, w: u32|
            2 <= v < w < 7 ==> #[trigger] PixelStreamFormat::spec_try_from(v)->Ok_0.spec_bits_per_pixel()
                < #[trigger] PixelStreamFormat::spec_try_from(w)->Ok_0.spec_bits_per_pixel(),
{
}

} // verus!
