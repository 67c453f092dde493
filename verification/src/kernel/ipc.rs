use vstd::prelude::*;
use crate::command_return::FAILURE_2_U32;
use crate::error_code::ErrorCode;
use crate::syscall::{cmd, Command, Expect, Outcome, Share, Transaction, Wait};

verus! {

pub const DRIVER_NUM: u32 = 0x10000;

pub const EXISTS: u32 = 0;
pub const DISCOVER: u32 = 1;
pub const SERVICE_NOTIFY: u32 = 2;
pub const CLIENT_NOTIFY: u32 = 3;

pub const ALLOW_RO_SEARCH: u32 = 0;

/// System call configuration for `Ipc`.
pub trait Config: crate::config::Config {}

impl<T: crate::config::Config> Config for T {}

/// A buffer that an IPC client shared with the service: where it starts in
/// the client's memory, and its length, which is never 0.
#[derive(Clone, Copy, Debug, PartialEq, Eq, Structural)]
pub struct IpcBuffer {
    pub addr: u32,
    pub len: usize,
}

/// What an IPC listener receives: who called, and the buffer it shared if
/// any.
#[derive(Clone, Copy, Debug, PartialEq, Eq, Structural)]
pub struct IpcCallData {
    pub caller_id: u32,
    pub buffer: Option<IpcBuffer>,
}

impl IpcCallData {
    /// The call data of an upcall: a zero length means no buffer.
    pub open spec fn spec_from_upcall(caller_id: u32, buffer_len: u32, buffer_ptr: u32) -> IpcCallData {
        IpcCallData {
            caller_id,
            buffer: if buffer_len == 0 {
                None
            } else {
                Some(IpcBuffer { addr: buffer_ptr, len: buffer_len as usize })
            },
        }
    }

    pub fn from_upcall(caller_id: u32, buffer_len: u32, buffer_ptr: u32) -> (d: IpcCallData)
        ensures
            d == Self::spec_from_upcall(caller_id, buffer_len, buffer_ptr),
    {
        let buffer = if buffer_len == 0 {
            None
        } else {
            Some(IpcBuffer { addr: buffer_ptr, len: buffer_len as usize })
        };
        IpcCallData { caller_id, buffer }
    }
}

/// Calls its function with the data of each IPC notification.
pub struct IpcListener<F: Fn(IpcCallData)>(pub F);

impl<F: Fn(IpcCallData)> IpcListener<F> {
    /// The upcall carries the caller, the buffer's length and its address.
    pub fn upcall(&self, caller_id: u32, buffer_len: u32, buffer_ptr: u32)
        requires
            self.0.requires((IpcCallData::spec_from_upcall(caller_id, buffer_len, buffer_ptr),)),
        ensures
            self.0.ensures((IpcCallData::spec_from_upcall(caller_id, buffer_len, buffer_ptr),), ()),
    {
        (self.0)(IpcCallData::from_upcall(caller_id, buffer_len, buffer_ptr))
    }
}

/// The inter-process communication driver.
pub struct Ipc;

impl Ipc {
    /// Checks that the driver is present; the reply reads with `to_result_unit`.
    pub fn driver_exists() -> (c: Command)
        ensures
            c == cmd(DRIVER_NUM, EXISTS, 0, 0),
    {
        Command::new(DRIVER_NUM, EXISTS, 0, 0)
    }

    /// Looks up the service id of a package name: shares the name for the
    /// search and asks the driver, whose reply carries the id.
    pub fn discover() -> (t: Transaction)
        ensures
            t.is(seq![Share::AllowRo(ALLOW_RO_SEARCH)], Some(cmd(DRIVER_NUM, DISCOVER, 0, 0)), Expect::U32, Wait::NoWait),
    {
        let shares = vec![Share::AllowRo(ALLOW_RO_SEARCH)];
        assert(shares@ =~= seq![Share::AllowRo(ALLOW_RO_SEARCH)]);
        Transaction::new(shares, Some(Command::new(DRIVER_NUM, DISCOVER, 0, 0)), Expect::U32, Wait::NoWait)
    }

    pub open spec fn spec_discover_outcome<U>(o: Outcome<U>) -> Result<u32, ErrorCode> {
        match o {
            Outcome::ShareFailed(e) => Err(e),
            Outcome::Failed(e) => Err(e),
            Outcome::Done(Some(r), _) => r.spec_to_result_u32(),
            Outcome::Done(None, _) => Err(ErrorCode::Fail),
        }
    }

    /// The service id, or the error of the call that failed.
    pub fn discover_outcome<U>(o: Outcome<U>) -> (r: Result<u32, ErrorCode>)
        requires
            o.wf(),
        ensures
            r == Self::spec_discover_outcome(o),
    {
        match o {
            Outcome::ShareFailed(e) => Err(e),
            Outcome::Failed(e) => Err(e),
            Outcome::Done(Some(r), _) => r.to_result_u32(),
            Outcome::Done(None, _) => Err(ErrorCode::Fail),
        }
    }

    /// Runs a service; the reply reads with `to_result_unit`.
    pub fn notify_service(service_id: u32) -> (c: Command)
        ensures
            c == cmd(DRIVER_NUM, SERVICE_NOTIFY, service_id, 0),
    {
        Command::new(DRIVER_NUM, SERVICE_NOTIFY, service_id, 0)
    }

    /// Runs a client's callback; the reply reads with `to_result_unit`.
    pub fn notify_client(client_id: u32) -> (c: Command)
        ensures
            c == cmd(DRIVER_NUM, CLIENT_NOTIFY, client_id, 0),
    {
        Command::new(DRIVER_NUM, CLIENT_NOTIFY, client_id, 0)
    }

    /// What the kernel's reply to an IPC subscribe means: a `FAILURE_2_U32`
    /// carries the error in its first register; anything else is success,
    /// and the second value says whether the kernel handed back an upcall
    /// that was still registered, which the configuration is told of.
    pub fn subscribe_ipc_reply(return_variant: u32, r1: u32) -> (r: (Result<(), ErrorCode>, bool))
        requires
            return_variant == FAILURE_2_U32 ==> 1 <= r1 <= 1024,
        ensures
            r.0 == (if return_variant == FAILURE_2_U32 {
                Err(ErrorCode::from_code(r1)->Some_0)
            } else {
                Ok::<(), ErrorCode>(())
            }),
            r.1 == (return_variant != FAILURE_2_U32 && r1 != 0),
            r.0 matches Err(e) ==> e.code() == r1,
    {
        if return_variant == FAILURE_2_U32 {
            match ErrorCode::try_from_u32(r1) {
                Some(e) => (Err(e), false),
                None => (Err(ErrorCode::BadRVal), false),
            }
        } else {
            (Ok(()), r1 != 0)
        }
    }

    /// What the kernel's reply to an IPC read-write allow means: as for the
    /// subscribe, with the second value saying whether the kernel handed back
    /// a buffer that was still shared.
    pub fn allow_rw_ipc_reply(return_variant: u32, r1: u32, r2: u32) -> (r: (Result<(), ErrorCode>, bool))
        requires
            return_variant == FAILURE_2_U32 ==> 1 <= r1 <= 1024,
        ensures
            r.0 == (if return_variant == FAILURE_2_U32 {
                Err(ErrorCode::from_code(r1)->Some_0)
            } else {
                Ok::<(), ErrorCode>(())
            }),
            r.1 == (return_variant != FAILURE_2_U32 && (r1 != 0 || r2 != 0)),
            r.0 matches Err(e) ==> e.code() == r1,
    {
        if return_variant == FAILURE_2_U32 {
            match ErrorCode::try_from_u32(r1) {
                Some(e) => (Err(e), false),
                None => (Err(ErrorCode::BadRVal), false),
            }
        } else {
            (Ok(()), r1 != 0 || r2 != 0)
        }
    }
}

} // verus!
