use vstd::prelude::*;

verus! {

/// An error reported by the kernel, with the numbers the Tock system call
/// interface gives them.
///
/// Codes 14 to 1023 have no name yet; they are carried by `Reserved`.
#[derive(Clone, Copy, Debug, PartialEq, Eq, Structural)]
pub enum ErrorCode {
    Fail,
    Busy,
    Already,
    Off,
    Reserve,
    Invalid,
    Size,
    Cancel,
    NoMem,
    NoSupport,
    NoDevice,
    Uninstalled,
    NoAck,
    Reserved(u16),
    BadRVal,
}

impl ErrorCode {
    /// A reserved code stays in the range that has no name.
    pub open spec fn wf(self) -> bool {
        match self {
            ErrorCode::Reserved(v) => 14 <= v <= 1023,
            _ => true,
        }
    }

    /// The number that stands for this error in a system call register.
    pub open spec fn code(self) -> u32 {
        match self {
            ErrorCode::Fail => 1,
            ErrorCode::Busy => 2,
            ErrorCode::Already => 3,
            ErrorCode::Off => 4,
            ErrorCode::Reserve => 5,
            ErrorCode::Invalid => 6,
            ErrorCode::Size => 7,
            ErrorCode::Cancel => 8,
            ErrorCode::NoMem => 9,
            ErrorCode::NoSupport => 10,
            ErrorCode::NoDevice => 11,
            ErrorCode::Uninstalled => 12,
            ErrorCode::NoAck => 13,
            ErrorCode::Reserved(v) => v as u32,
            ErrorCode::BadRVal => 1024,
        }
    }

    /// The error that a register value stands for, if it stands for one.
    pub open spec fn from_code(v: u32) -> Option<ErrorCode> {
        if v == 1 { Some(ErrorCode::Fail) }
        else if v == 2 { Some(ErrorCode::Busy) }
        else if v == 3 { Some(ErrorCode::Already) }
        else if v == 4 { Some(ErrorCode::Off) }
        else if v == 5 { Some(ErrorCode::Reserve) }
        else if v == 6 { Some(ErrorCode::Invalid) }
        else if v == 7 { Some(ErrorCode::Size) }
        else if v == 8 { Some(ErrorCode::Cancel) }
        else if v == 9 { Some(ErrorCode::NoMem) }
        else if v == 10 { Some(ErrorCode::NoSupport) }
        else if v == 11 { Some(ErrorCode::NoDevice) }
        else if v == 12 { Some(ErrorCode::Uninstalled) }
        else if v == 13 { Some(ErrorCode::NoAck) }
        else if 14 <= v <= 1023 { Some(ErrorCode::Reserved(v as u16)) }
        else if v == 1024 { Some(ErrorCode::BadRVal) }
        else { None }
    }

    /// The register value of this error.
    pub fn as_u32(self) -> (v: u32)
        ensures
            v == self.code(),
    {
        match self {
            ErrorCode::Fail => 1,
            ErrorCode::Busy => 2,
            ErrorCode::Already => 3,
            ErrorCode::Off => 4,
            ErrorCode::Reserve => 5,
            ErrorCode::Invalid => 6,
            ErrorCode::Size => 7,
            ErrorCode::Cancel => 8,
            ErrorCode::NoMem => 9,
            ErrorCode::NoSupport => 10,
            ErrorCode::NoDevice => 11,
            ErrorCode::Uninstalled => 12,
            ErrorCode::NoAck => 13,
            ErrorCode::Reserved(v) => v as u32,
            ErrorCode::BadRVal => 1024,
        }
    }

    /// Reads an error out of a register: every value from 1 to 1024 is an
    /// error code, and no other value is.
    pub fn try_from_u32(v: u32) -> (r: Option<ErrorCode>)
        ensures
            r == ErrorCode::from_code(v),
            r is Some <==> 1 <= v <= 1024,
            r matches Some(e) ==> e.code() == v && e.wf(),
    {
        match v {
            1 => Some(ErrorCode::Fail),
            2 => Some(ErrorCode::Busy),
            3 => Some(ErrorCode::Already),
            4 => Some(ErrorCode::Off),
            5 => Some(ErrorCode::Reserve),
            6 => Some(ErrorCode::Invalid),
            7 => Some(ErrorCode::Size),
            8 => Some(ErrorCode::Cancel),
            9 => Some(ErrorCode::NoMem),
            10 => Some(ErrorCode::NoSupport),
            11 => Some(ErrorCode::NoDevice),
            12 => Some(ErrorCode::Uninstalled),
            13 => Some(ErrorCode::NoAck),
            1024 => Some(ErrorCode::BadRVal),
            _ => {
                if 14 <= v && v <= 1023 {
                    Some(ErrorCode::Reserved(v as u16))
                } else {
                    None
                }
            },
        }
    }

    /// Reads a completion status out of an upcall: zero is success, a valid
    /// error code is that error, and any other value is `Fail`.
    pub fn status_to_result(status: u32) -> (r: Result<(), ErrorCode>)
        ensures
            r == ErrorCode::spec_status(status),
            r is Ok <==> status == 0,
    {
        if status == 0 {
            Ok(())
        } else {
            match ErrorCode::try_from_u32(status) {
                Some(e) => Err(e),
                None => Err(ErrorCode::Fail),
            }
        }
    }

    /// The meaning of a completion status.
    pub open spec fn spec_status(status: u32) -> Result<(), ErrorCode> {
        if status == 0 {
            Ok(())
        } else {
            match ErrorCode::from_code(status) {
                Some(e) => Err(e),
                None => Err(ErrorCode::Fail),
            }
        }
    }
}

/// Reading the register value of a valid error gives that error back.
pub proof fn lemma_code_round_trip(e: ErrorCode)
    requires
        e.wf(),
    ensures
        ErrorCode::from_code(e.code()) == Some(e),
{
}

/// Two valid errors with the same register value are the same error.
pub proof fn lemma_code_injective(a: ErrorCode, b: ErrorCode)
    requires
        a.wf(),
        b.wf(),
        a.code() == b.code(),
    ensures
        a == b,
{
    lemma_code_round_trip(a);
    lemma_code_round_trip(b);
}

} // verus!
