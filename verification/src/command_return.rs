use vstd::prelude::*;
use crate::error_code::ErrorCode;

verus! {

// The return variants of the Tock system call interface: what a system
// call's first return register says about the others.
pub const FAILURE: u32 = 0;
pub const FAILURE_U32: u32 = 1;
pub const FAILURE_2_U32: u32 = 2;
pub const FAILURE_U64: u32 = 3;
pub const SUCCESS: u32 = 128;
pub const SUCCESS_U32: u32 = 129;
pub const SUCCESS_2_U32: u32 = 130;
pub const SUCCESS_U64: u32 = 131;
pub const SUCCESS_3_U32: u32 = 132;
pub const SUCCESS_U32_U64: u32 = 133;

/// The value of two registers read as one 64-bit number, low half first.
pub open spec fn join_u64(low: u32, high: u32) -> int {
    low as int + high as int * 0x1_0000_0000
}

/// What the kernel replied to a Command system call: the return variant and
/// the three registers after it.
#[derive(Clone, Copy, Debug, PartialEq, Eq, Structural)]
pub struct CommandReturn {
    pub return_variant: u32,
    pub r1: u32,
    pub r2: u32,
    pub r3: u32,
}

/// A register read as a signed 32-bit value.
pub open spec fn as_signed(v: u32) -> i32 {
    if v < 0x8000_0000 { v as i32 } else { (v - 0x1_0000_0000) as i32 }
}

/// Reads a register as a signed 32-bit value.
pub fn to_signed(v: u32) -> (s: i32)
    ensures
        s == as_signed(v),
{
    let s = v as i32;
    assert(s == (if v < 0x8000_0000 { v as i32 } else { (v - 0x1_0000_0000) as i32 })) by (bit_vector)
        requires
            s == v as i32,
    ;
    s
}

/// Builds the 64-bit value of two registers.
fn u64_from_regs(low: u32, high: u32) -> (v: u64)
    ensures
        v as int == join_u64(low, high),
{
    let v: u64 = (low as u64) | ((high as u64) << 32u64);
    assert(v as int == low as int + high as int * 0x1_0000_0000) by (bit_vector)
        requires
            v == (low as u64) | ((high as u64) << 32u64),
    ;
    v
}

impl CommandReturn {
    /// A failure variant carries a valid error code in its first register.
    pub open spec fn wf(self) -> bool {
        self.is_failure_variant() ==> ErrorCode::from_code(self.r1) is Some
    }

    pub open spec fn is_failure_variant(self) -> bool {
        self.return_variant <= FAILURE_U64
    }

    /// The error that a failed call reports when read as a plain failure:
    /// the code in the first register if the variant is `FAILURE`, and
    /// `BadRVal` for any other variant.
    pub open spec fn spec_failure(self) -> ErrorCode {
        if self.return_variant == FAILURE {
            ErrorCode::from_code(self.r1)->Some_0
        } else {
            ErrorCode::BadRVal
        }
    }

    pub open spec fn spec_to_result_unit(self) -> Result<(), ErrorCode> {
        if self.return_variant == SUCCESS { Ok(()) } else { Err(self.spec_failure()) }
    }

    pub open spec fn spec_to_result_u32(self) -> Result<u32, ErrorCode> {
        if self.return_variant == SUCCESS_U32 {
            Ok(self.r1)
        } else {
            Err(self.spec_failure())
        }
    }

    pub open spec fn spec_to_result_2_u32(self) -> Result<(u32, u32), ErrorCode> {
        if self.return_variant == SUCCESS_2_U32 {
            Ok((self.r1, self.r2))
        } else {
            Err(self.spec_failure())
        }
    }

    pub open spec fn spec_to_result_u64(self) -> Result<int, ErrorCode> {
        if self.return_variant == SUCCESS_U64 {
            Ok(join_u64(self.r1, self.r2))
        } else {
            Err(self.spec_failure())
        }
    }

    pub open spec fn spec_to_result_u32_u64(self) -> Result<(u32, int), ErrorCode> {
        if self.return_variant == SUCCESS_U32_U64 {
            Ok((self.r1, join_u64(self.r2, self.r3)))
        } else {
            Err(self.spec_failure())
        }
    }

    /// A reply from the kernel given register by register. A failure variant
    /// whose first register is no error code is refused.
    pub fn from_registers(return_variant: u32, r1: u32, r2: u32, r3: u32) -> (r: Option<
        CommandReturn,
    >)
        ensures
            r is Some <==> (return_variant <= FAILURE_U64 ==> 1 <= r1 <= 1024),
            r matches Some(c) ==> c.wf() && c == (CommandReturn { return_variant, r1, r2, r3 }),
    {
        let c = CommandReturn { return_variant, r1, r2, r3 };
        if return_variant <= FAILURE_U64 && !(1 <= r1 && r1 <= 1024) {
            None
        } else {
            proof {
                if c.is_failure_variant() {
                    let e = ErrorCode::from_code(r1);
                }
            }
            Some(c)
        }
    }

    pub fn success() -> (r: CommandReturn)
        ensures
            r.wf(),
            r.return_variant == SUCCESS,
            r.spec_to_result_unit() == Ok::<(), ErrorCode>(()),
    {
        CommandReturn { return_variant: SUCCESS, r1: 0, r2: 0, r3: 0 }
    }

    pub fn success_u32(v: u32) -> (r: CommandReturn)
        ensures
            r.wf(),
            r.spec_to_result_u32() == Ok::<u32, ErrorCode>(v),
            r == (CommandReturn { return_variant: SUCCESS_U32, r1: v, r2: 0, r3: 0 }),
    {
        CommandReturn { return_variant: SUCCESS_U32, r1: v, r2: 0, r3: 0 }
    }

    pub fn success_2_u32(a: u32, b: u32) -> (r: CommandReturn)
        ensures
            r.wf(),
            r.spec_to_result_2_u32() == Ok::<(u32, u32), ErrorCode>((a, b)),
            r == (CommandReturn { return_variant: SUCCESS_2_U32, r1: a, r2: b, r3: 0 }),
    {
        CommandReturn { return_variant: SUCCESS_2_U32, r1: a, r2: b, r3: 0 }
    }

    pub fn success_u64(v: u64) -> (r: CommandReturn)
        ensures
            r.wf(),
            r.return_variant == SUCCESS_U64,
            r.spec_to_result_u64() == Ok::<int, ErrorCode>(v as int),
    {
        let low = (v & 0xffff_ffffu64) as u32;
        let high = (v >> 32u64) as u32;
        assert(low as int + high as int * 0x1_0000_0000 == v as int) by (bit_vector)
            requires
                low == (v & 0xffff_ffffu64) as u32,
                high == (v >> 32u64) as u32,
        ;
        CommandReturn { return_variant: SUCCESS_U64, r1: low, r2: high, r3: 0 }
    }

    pub fn success_u32_u64(a: u32, v: u64) -> (r: CommandReturn)
        ensures
            r.wf(),
            r.return_variant == SUCCESS_U32_U64,
            r.spec_to_result_u32_u64() == Ok::<(u32, int), ErrorCode>((a, v as int)),
    {
        let low = (v & 0xffff_ffffu64) as u32;
        let high = (v >> 32u64) as u32;
        assert(low as int + high as int * 0x1_0000_0000 == v as int) by (bit_vector)
            requires
                low == (v & 0xffff_ffffu64) as u32,
                high == (v >> 32u64) as u32,
        ;
        CommandReturn { return_variant: SUCCESS_U32_U64, r1: a, r2: low, r3: high }
    }

    pub fn failure(e: ErrorCode) -> (r: CommandReturn)
        requires
            e.wf(),
        ensures
            r.wf(),
            r == (CommandReturn { return_variant: FAILURE, r1: e.code(), r2: 0, r3: 0 }),
            r.spec_failure() == e,
    {
        proof {
            crate::error_code::lemma_code_round_trip(e);
        }
        CommandReturn { return_variant: FAILURE, r1: e.as_u32(), r2: 0, r3: 0 }
    }

    pub fn failure_u32(e: ErrorCode, v: u32) -> (r: CommandReturn)
        requires
            e.wf(),
        ensures
            r.wf(),
            r == (CommandReturn { return_variant: FAILURE_U32, r1: e.code(), r2: v, r3: 0 }),
    {
        proof {
            crate::error_code::lemma_code_round_trip(e);
        }
        CommandReturn { return_variant: FAILURE_U32, r1: e.as_u32(), r2: v, r3: 0 }
    }

    /// True only for a plain `SUCCESS` with no value.
    pub fn is_success(&self) -> (b: bool)
        ensures
            b == (self.return_variant == SUCCESS),
    {
        self.return_variant == SUCCESS
    }

    /// The value of a `SUCCESS_U32` reply.
    pub fn get_success_u32(&self) -> (r: Option<u32>)
        ensures
            r == (if self.return_variant == SUCCESS_U32 {
                Some(self.r1)
            } else {
                None::<u32>
            }),
    {
        if self.return_variant == SUCCESS_U32 {
            Some(self.r1)
        } else {
            None
        }
    }

    fn failure_code(&self) -> (e: ErrorCode)
        requires
            self.wf(),
        ensures
            e == self.spec_failure(),
            e.wf(),
    {
        if self.return_variant == FAILURE {
            match ErrorCode::try_from_u32(self.r1) {
                Some(e) => e,
                None => ErrorCode::BadRVal,
            }
        } else {
            ErrorCode::BadRVal
        }
    }

    /// Reads a reply that should carry no value.
    pub fn to_result_unit(&self) -> (r: Result<(), ErrorCode>)
        requires
            self.wf(),
        ensures
            r == self.spec_to_result_unit(),
            r matches Err(e) ==> e.wf(),
    {
        if self.return_variant == SUCCESS {
            Ok(())
        } else {
            Err(self.failure_code())
        }
    }

    /// Reads a reply that should carry one 32-bit value.
    pub fn to_result_u32(&self) -> (r: Result<u32, ErrorCode>)
        requires
            self.wf(),
        ensures
            r == self.spec_to_result_u32(),
            r matches Err(e) ==> e.wf(),
    {
        if self.return_variant == SUCCESS_U32 {
            Ok(self.r1)
        } else {
            Err(self.failure_code())
        }
    }

    /// Reads a reply that should carry two 32-bit values.
    pub fn to_result_2_u32(&self) -> (r: Result<(u32, u32), ErrorCode>)
        requires
            self.wf(),
        ensures
            r == self.spec_to_result_2_u32(),
            r matches Err(e) ==> e.wf(),
    {
        if self.return_variant == SUCCESS_2_U32 {
            Ok((self.r1, self.r2))
        } else {
            Err(self.failure_code())
        }
    }

    /// Reads a reply that should carry one 64-bit value.
    pub fn to_result_u64(&self) -> (r: Result<u64, ErrorCode>)
        requires
            self.wf(),
        ensures
            r matches Ok(v) ==> self.spec_to_result_u64() == Ok::<int, ErrorCode>(v as int),
            r matches Err(e) ==> self.spec_to_result_u64() == Err::<int, ErrorCode>(e) && e.wf(),
    {
        if self.return_variant == SUCCESS_U64 {
            Ok(u64_from_regs(self.r1, self.r2))
        } else {
            Err(self.failure_code())
        }
    }

    /// Reads a reply that should carry a 32-bit and a 64-bit value.
    pub fn to_result_u32_u64(&self) -> (r: Result<(u32, u64), ErrorCode>)
        requires
            self.wf(),
        ensures
            r matches Ok(v) ==> self.spec_to_result_u32_u64() == Ok::<(u32, int), ErrorCode>(
                (v.0, v.1 as int),
            ),
            r matches Err(e) ==> self.spec_to_result_u32_u64() == Err::<(u32, int), ErrorCode>(e)
                && e.wf(),
    {
        if self.return_variant == SUCCESS_U32_U64 {
            Ok((self.r1, u64_from_regs(self.r2, self.r3)))
        } else {
            Err(self.failure_code())
        }
    }
}

/// A reply read as carrying no value succeeds exactly for `SUCCESS`, and a
/// reply built from an error reads back as that error.
pub proof fn lemma_failure_reads_back(e: ErrorCode)
    requires
        e.wf(),
    ensures
        ({
            let c = CommandReturn { return_variant: FAILURE, r1: e.code(), r2: 0, r3: 0 };
            &&& c.wf()
            &&& c.spec_to_result_unit() == Err::<(), ErrorCode>(e)
            &&& c.spec_to_result_u32() == Err::<u32, ErrorCode>(e)
        }),
{
    crate::error_code::lemma_code_round_trip(e);
}

/// A reply of any other variant than the one asked for reads as an error,
/// and only a `FAILURE` reply gives an error other than `BadRVal`.
pub proof fn lemma_unexpected_variant_is_bad_rval(c: CommandReturn)
    requires
        c.wf(),
        c.return_variant != FAILURE,
        c.return_variant != SUCCESS_U32,
    ensures
        c.spec_to_result_u32() == Err::<u32, ErrorCode>(ErrorCode::BadRVal),
{
}

} // verus!
