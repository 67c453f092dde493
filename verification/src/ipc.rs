use vstd::prelude::*;
use crate::error_code::ErrorCode;
use crate::syscall::{cmd, Command, Expect, Outcome, Share, Transaction, Wait};

verus! {

pub const DRIVER_NUM: u32 = 0x10000;

pub const EXISTS: u32 = 0;
pub const DISCOVER: u32 = 1;
pub const SERVICE_NOTIFY: u32 = 2;
pub const CLIENT_NOTIFY: u32 = 3;

pub const ALLOW_RO_BUFFER: u32 = 0;

/// System call configuration for `IPC`.
pub trait Config: crate::config::Config {}

impl<T: crate::config::Config> Config for T {}

/// The inter-process communication driver.
pub struct IPC;

impl IPC {
    /// Checks that the driver is present; the reply reads with `to_result_unit`.
    pub fn driver_exists() -> (c: Command)
        ensures
            c == cmd(DRIVER_NUM, EXISTS, 0, 0),
    {
        Command::new(DRIVER_NUM, EXISTS, 0, 0)
    }

    /// Service discovery: shares the package name and asks for the process
    /// that serves it, whose id the command returns.
    pub fn discover() -> (t: Transaction)
        ensures
            t.is(seq![Share::AllowRo(ALLOW_RO_BUFFER)], Some(cmd(DRIVER_NUM, DISCOVER, 0, 0)), Expect::U32, Wait::NoWait),
    {
        let shares = vec![Share::AllowRo(ALLOW_RO_BUFFER)];
        assert(shares@ =~= seq![Share::AllowRo(ALLOW_RO_BUFFER)]);
        Transaction::new(shares, Some(Command::new(DRIVER_NUM, DISCOVER, 0, 0)), Expect::U32, Wait::NoWait)
    }

    pub open spec fn spec_discover_outcome<U>(o: Outcome<U>) -> Result<usize, ErrorCode> {
        match o {
            Outcome::ShareFailed(e) => Err(e),
            Outcome::Failed(e) => Err(e),
            Outcome::Done(Some(r), _) => match r.spec_to_result_u32() {
                Ok(v) => Ok(v as usize),
                Err(e) => Err(e),
            },
            Outcome::Done(None, _) => Err(ErrorCode::Fail),
        }
    }

    /// The id of the service's process, or the error of the call that failed.
    pub fn discover_outcome<U>(o: Outcome<U>) -> (r: Result<usize, ErrorCode>)
        requires
            o.wf(),
        ensures
            r == Self::spec_discover_outcome(o),
    {
        match o {
            Outcome::ShareFailed(e) => Err(e),
            Outcome::Failed(e) => Err(e),
            Outcome::Done(Some(r), _) => match r.to_result_u32() {
                Ok(v) => Ok(v as usize),
                Err(e) => Err(e),
            },
            Outcome::Done(None, _) => Err(ErrorCode::Fail),
        }
    }

    /// Waits for a client's notification: shares the package name again,
    /// subscribes under the service's id, discovers the service again and
    /// yields until the notification.
    pub fn wait_for_client_notify(svc_id: usize) -> (t: Transaction)
        ensures
            t.is(
                seq![Share::AllowRo(ALLOW_RO_BUFFER), Share::Subscribe(svc_id as u32)],
                Some(cmd(DRIVER_NUM, DISCOVER, 0, 0)),
                Expect::U32,
                Wait::YieldFirst,
            ),
    {
        Transaction::new(
            vec![Share::AllowRo(ALLOW_RO_BUFFER), Share::Subscribe(svc_id as u32)],
            Some(Command::new(DRIVER_NUM, DISCOVER, 0, 0)),
            Expect::U32,
            Wait::YieldFirst,
        )
    }

    /// The notification must come from the process that the second discovery
    /// found: its upcall carries that process, the length, and a third value.
    pub open spec fn notify_from_service(o: Outcome<(u32, u32, u32)>) -> bool {
        o matches Outcome::Done(Some(r), Some(u)) ==> r.spec_to_result_u32() == Ok::<u32, ErrorCode>(u.0)
    }

    /// The length that the client's notification carries, or the error of the
    /// call that failed.
    pub fn wait_for_client_notify_outcome(o: Outcome<(u32, u32, u32)>) -> (r: Result<usize, ErrorCode>)
        requires
            o.waited(),
            Self::notify_from_service(o),
        ensures
            r == (match o {
                Outcome::ShareFailed(e) => Err(e),
                Outcome::Failed(e) => Err(e),
                Outcome::Done(_, u) => Ok::<usize, ErrorCode>(u->Some_0.1 as usize),
            }),
    {
        match o {
            Outcome::ShareFailed(e) => Err(e),
            Outcome::Failed(e) => Err(e),
            Outcome::Done(_, Some((_pid, len, _))) => Ok(len as usize),
            Outcome::Done(_, None) => Err(ErrorCode::Fail),
        }
    }
}

} // verus!
