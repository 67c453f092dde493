use vstd::prelude::*;
use crate::error_code::ErrorCode;
use crate::command_return::CommandReturn;

verus! {

/// One Command system call: which driver, which command, and its two
/// arguments.
#[derive(Clone, Copy, Debug, PartialEq, Eq, Structural)]
pub struct Command {
    pub driver_num: u32,
    pub command_num: u32,
    pub arg0: u32,
    pub arg1: u32,
}

/// The command with these numbers.
pub open spec fn cmd(driver_num: u32, command_num: u32, arg0: u32, arg1: u32) -> Command {
    Command { driver_num, command_num, arg0, arg1 }
}

impl Command {
    pub fn new(driver_num: u32, command_num: u32, arg0: u32, arg1: u32) -> (c: Command)
        ensures
            c == cmd(driver_num, command_num, arg0, arg1),
    {
        Command { driver_num, command_num, arg0, arg1 }
    }
}

/// A system call that shares something with the driver before the command:
/// a read-only buffer, a read-write buffer, or an upcall, by its number.
#[derive(Clone, Copy, Debug, PartialEq, Eq, Structural)]
pub enum Share {
    AllowRo(u32),
    AllowRw(u32),
    Subscribe(u32),
}

/// The reply that lets a transaction go on after its command.
#[derive(Clone, Copy, Debug, PartialEq, Eq, Structural)]
pub enum Expect {
    /// A plain `SUCCESS`.
    Unit,
    /// A `SUCCESS_U32`.
    U32,
}

/// How a transaction waits for its upcall once its command succeeded.
#[derive(Clone, Copy, Debug, PartialEq, Eq, Structural)]
pub enum Wait {
    /// It does not wait.
    NoWait,
    /// It yields, then looks whether the upcall came, and again.
    YieldFirst,
    /// It looks whether the upcall came, then yields, and again.
    PollFirst,
}

/// A synchronous driver operation: buffers and upcalls shared in order, at
/// most one command, then waiting for the upcall. A failed share or a failed
/// command ends it at once.
#[derive(Debug)]
pub struct Transaction {
    pub shares: Vec<Share>,
    pub command: Option<Command>,
    pub expect: Expect,
    pub wait: Wait,
}

/// Where a transaction stands: what it asked for last.
#[derive(Clone, Copy, Debug)]
pub enum Phase {
    /// Nothing was asked yet.
    Begin,
    /// The share with this index was asked for.
    Sharing(usize),
    /// The command was issued.
    Commanding,
    /// A yield was asked for; the command's reply, if any, is kept.
    Yielding(Option<CommandReturn>),
    /// A look at the upcall was asked for; the command's reply is kept.
    Polling(Option<CommandReturn>),
    /// The transaction is over.
    Over,
}

/// How a transaction ended.
pub enum Outcome<U> {
    /// A share failed with this error; the command was not issued.
    ShareFailed(ErrorCode),
    /// The command failed with this error.
    Failed(ErrorCode),
    /// The command's reply, if there was a command, and the upcall that came
    /// after it if the transaction waited for one.
    Done(Option<CommandReturn>, Option<U>),
}

/// What the transaction asks its caller to do next.
pub enum Step<U> {
    Share(Share),
    Command(Command),
    Yield,
    Poll,
    Finish(Outcome<U>),
}

/// What happened when the caller did what was asked.
pub enum Event<U> {
    /// The caller starts the transaction.
    Start,
    /// A share returned.
    Shared(Result<(), ErrorCode>),
    /// The command returned.
    Replied(CommandReturn),
    /// A yield returned.
    Yielded,
    /// The awaited upcall's contents, if it came.
    Polled(Option<U>),
}

impl<U> Outcome<U> {
    /// A `Done` carries its upcall, and its reply is well formed: what a
    /// transaction that waits ends with (see `lemma_done_only_after_success`).
    pub open spec fn waited(self) -> bool {
        self matches Outcome::Done(r, u) ==> u is Some && (r matches Some(c) ==> c.wf())
    }

    /// A `Done`'s reply is well formed (see `lemma_done_only_after_success`).
    pub open spec fn wf(self) -> bool {
        self matches Outcome::Done(r, _) ==> (r matches Some(c) ==> c.wf())
    }
}

/// The result a synchronous read gives: the value its upcall carried, the
/// error of the call that failed, or `missing` if no upcall was kept.
pub open spec fn spec_value_or<U>(o: Outcome<U>, missing: ErrorCode) -> Result<U, ErrorCode> {
    match o {
        Outcome::ShareFailed(e) => Err(e),
        Outcome::Failed(e) => Err(e),
        Outcome::Done(_, Some(v)) => Ok(v),
        Outcome::Done(_, None) => Err(missing),
    }
}

/// The result of an operation that ignores why its calls failed: the value
/// its upcall carried, or `code` whenever no upcall was kept.
pub open spec fn spec_value_else<U>(o: Outcome<U>, code: ErrorCode) -> Result<U, ErrorCode> {
    match o {
        Outcome::Done(_, Some(v)) => Ok(v),
        _ => Err(code),
    }
}

/// The result of an operation that only waits for completion: success, or
/// the error of the call that failed.
pub open spec fn spec_completion<U>(o: Outcome<U>) -> Result<(), ErrorCode> {
    match o {
        Outcome::ShareFailed(e) => Err(e),
        Outcome::Failed(e) => Err(e),
        Outcome::Done(_, _) => Ok(()),
    }
}

pub fn value_or<U>(o: Outcome<U>, missing: ErrorCode) -> (r: Result<U, ErrorCode>)
    ensures
        r == spec_value_or(o, missing),
{
    match o {
        Outcome::ShareFailed(e) => Err(e),
        Outcome::Failed(e) => Err(e),
        Outcome::Done(_, Some(v)) => Ok(v),
        Outcome::Done(_, None) => Err(missing),
    }
}

pub fn value_else<U>(o: Outcome<U>, code: ErrorCode) -> (r: Result<U, ErrorCode>)
    ensures
        r == spec_value_else(o, code),
{
    match o {
        Outcome::Done(_, Some(v)) => Ok(v),
        _ => Err(code),
    }
}

pub fn completion<U>(o: Outcome<U>) -> (r: Result<(), ErrorCode>)
    ensures
        r == spec_completion(o),
{
    match o {
        Outcome::ShareFailed(e) => Err(e),
        Outcome::Failed(e) => Err(e),
        Outcome::Done(_, _) => Ok(()),
    }
}

impl Transaction {
    /// Subscribes to an upcall of the command's driver, issues the command,
    /// and waits for the upcall as given.
    pub fn subscribe_and_wait(subscribe_num: u32, command: Command, wait: Wait) -> (t: Transaction)
        ensures
            t.is(seq![Share::Subscribe(subscribe_num)], Some(command), Expect::Unit, wait),
    {
        let shares = vec![Share::Subscribe(subscribe_num)];
        assert(shares@ =~= seq![Share::Subscribe(subscribe_num)]);
        Transaction::new(shares, Some(command), Expect::Unit, wait)
    }

    /// The transaction with exactly these parts.
    pub open spec fn is(
        &self,
        shares: Seq<Share>,
        command: Option<Command>,
        expect: Expect,
        wait: Wait,
    ) -> bool {
        &&& self.shares@ == shares
        &&& self.command == command
        &&& self.expect == expect
        &&& self.wait == wait
    }

    pub fn new(shares: Vec<Share>, command: Option<Command>, expect: Expect, wait: Wait) -> (t:
        Transaction)
        ensures
            t.is(shares@, command, expect, wait),
    {
        Transaction { shares, command, expect, wait }
    }

    /// Whether a reply lets the transaction go on.
    pub open spec fn reply_result(&self, r: CommandReturn) -> Result<(), ErrorCode> {
        match self.expect {
            Expect::Unit => r.spec_to_result_unit(),
            Expect::U32 => match r.spec_to_result_u32() {
                Ok(_) => Ok(()),
                Err(e) => Err(e),
            },
        }
    }

    /// The step that starts the wait, the command having returned `r` if
    /// there was one.
    pub open spec fn spec_start_wait<U>(&self, r: Option<CommandReturn>) -> (Phase, Step<U>) {
        match self.wait {
            Wait::NoWait => (Phase::Over, Step::Finish(Outcome::Done(r, None))),
            Wait::YieldFirst => (Phase::Yielding(r), Step::Yield),
            Wait::PollFirst => (Phase::Polling(r), Step::Poll),
        }
    }

    /// The step that comes once the first `i` shares succeeded.
    pub open spec fn spec_from_share<U>(&self, i: int) -> (Phase, Step<U>) {
        if i < self.shares@.len() {
            (Phase::Sharing(i as usize), Step::Share(self.shares@[i]))
        } else {
            match self.command {
                Some(c) => (Phase::Commanding, Step::Command(c)),
                None => self.spec_start_wait(None),
            }
        }
    }

    /// Whether the event answers what was asked in the phase.
    pub open spec fn accepts<U>(&self, p: Phase, e: Event<U>) -> bool {
        match (p, e) {
            (Phase::Begin, Event::Start) => true,
            (Phase::Sharing(i), Event::Shared(_)) => i < self.shares@.len(),
            (Phase::Commanding, Event::Replied(r)) => r.wf(),
            (Phase::Yielding(_), Event::Yielded) => true,
            (Phase::Polling(_), Event::Polled(_)) => true,
            _ => false,
        }
    }

    /// The next phase and step after an event that the phase accepts.
    pub open spec fn spec_advance<U>(&self, p: Phase, e: Event<U>) -> (Phase, Step<U>) {
        match (p, e) {
            (Phase::Begin, Event::Start) => self.spec_from_share(0),
            (Phase::Sharing(i), Event::Shared(res)) => match res {
                Ok(_) => self.spec_from_share(i + 1),
                Err(err) => (Phase::Over, Step::Finish(Outcome::ShareFailed(err))),
            },
            (Phase::Commanding, Event::Replied(r)) => match self.reply_result(r) {
                Err(err) => (Phase::Over, Step::Finish(Outcome::Failed(err))),
                Ok(_) => self.spec_start_wait(Some(r)),
            },
            (Phase::Yielding(r), Event::Yielded) => (Phase::Polling(r), Step::Poll),
            (Phase::Polling(r), Event::Polled(u)) => match u {
                Some(v) => (Phase::Over, Step::Finish(Outcome::Done(r, Some(v)))),
                None => (Phase::Yielding(r), Step::Yield),
            },
            _ => (Phase::Over, Step::Finish(Outcome::Failed(ErrorCode::Fail))),
        }
    }

    fn start_wait<U>(&self, r: Option<CommandReturn>) -> (res: (Phase, Step<U>))
        ensures
            res == self.spec_start_wait::<U>(r),
    {
        match self.wait {
            Wait::NoWait => (Phase::Over, Step::Finish(Outcome::Done(r, None))),
            Wait::YieldFirst => (Phase::Yielding(r), Step::Yield),
            Wait::PollFirst => (Phase::Polling(r), Step::Poll),
        }
    }

    fn from_share<U>(&self, i: usize) -> (r: (Phase, Step<U>))
        requires
            i <= self.shares@.len(),
        ensures
            r == self.spec_from_share::<U>(i as int),
    {
        if i < self.shares.len() {
            (Phase::Sharing(i), Step::Share(self.shares[i]))
        } else {
            match self.command {
                Some(c) => (Phase::Commanding, Step::Command(c)),
                None => self.start_wait(None),
            }
        }
    }

    fn reply_ok(&self, r: &CommandReturn) -> (res: Result<(), ErrorCode>)
        requires
            r.wf(),
        ensures
            res == self.reply_result(*r),
    {
        match self.expect {
            Expect::Unit => r.to_result_unit(),
            Expect::U32 => match r.to_result_u32() {
                Ok(_) => Ok(()),
                Err(e) => Err(e),
            },
        }
    }

    /// Moves the transaction on by one event: the caller did what the last
    /// step asked and reports what happened.
    pub fn advance<U>(&self, p: Phase, e: Event<U>) -> (r: (Phase, Step<U>))
        requires
            self.accepts(p, e),
        ensures
            r == self.spec_advance(p, e),
    {
        match p {
            Phase::Begin => self.from_share(0),
            Phase::Sharing(i) => match e {
                Event::Shared(Ok(())) => {
                    assert(self.shares@.len() == self.shares.len());
                    self.from_share(i + 1)
                },
                Event::Shared(Err(err)) => (Phase::Over, Step::Finish(Outcome::ShareFailed(err))),
                _ => (Phase::Over, Step::Finish(Outcome::Failed(ErrorCode::Fail))),
            },
            Phase::Commanding => match e {
                Event::Replied(reply) => match self.reply_ok(&reply) {
                    Err(err) => (Phase::Over, Step::Finish(Outcome::Failed(err))),
                    Ok(()) => self.start_wait(Some(reply)),
                },
                _ => (Phase::Over, Step::Finish(Outcome::Failed(ErrorCode::Fail))),
            },
            Phase::Yielding(reply) => (Phase::Polling(reply), Step::Poll),
            Phase::Polling(reply) => match e {
                Event::Polled(Some(v)) => (Phase::Over, Step::Finish(Outcome::Done(reply, Some(v)))),
                _ => (Phase::Yielding(reply), Step::Yield),
            },
            Phase::Over => (Phase::Over, Step::Finish(Outcome::Failed(ErrorCode::Fail))),
        }
    }
}

impl Transaction {
    /// The phase a transaction reaches through a run of events from its start.
    pub open spec fn phase_after<U>(&self, events: Seq<Event<U>>) -> Phase
        decreases events.len(),
    {
        if events.len() == 0 {
            Phase::Begin
        } else {
            self.spec_advance(self.phase_after(events.drop_last()), events.last()).0
        }
    }

    /// The step asked for after the last event of a run.
    pub open spec fn step_after<U>(&self, events: Seq<Event<U>>) -> Step<U> {
        self.spec_advance(self.phase_after(events.drop_last()), events.last()).1
    }

    /// Each event of the run answers what was asked before it.
    pub open spec fn valid_run<U>(&self, events: Seq<Event<U>>) -> bool
        decreases events.len(),
    {
        events.len() == 0 || (self.valid_run(events.drop_last()) && self.accepts(
            self.phase_after(events.drop_last()),
            events.last(),
        ))
    }

    /// The run starts, and each of its first `n` shares after the start
    /// succeeded.
    pub open spec fn shares_ok<U>(&self, events: Seq<Event<U>>, n: int) -> bool {
        &&& events.len() > 0
        &&& events[0] is Start
        &&& forall|j: int| 1 <= j <= n ==> #[trigger] events[j] matches Event::Shared(Ok(_))
    }

    /// The number of events before the wait: the start, the shares, and the
    /// command's reply if there is a command.
    pub open spec fn setup_len(&self) -> int {
        self.shares@.len() + 1 + if self.command is Some { 1int } else { 0int }
    }

    /// The run went through every share and the command, whose reply `r`
    /// lets the transaction go on.
    pub open spec fn set_up<U>(&self, events: Seq<Event<U>>, r: Option<CommandReturn>) -> bool {
        let n = self.shares@.len() as int;
        &&& events.len() >= self.setup_len()
        &&& self.shares_ok(events, n)
        &&& (self.command is Some <==> r is Some)
        &&& (r matches Some(c) ==> events[n + 1] == Event::<U>::Replied(c) && c.wf()
            && self.reply_result(c) is Ok)
    }

    /// What a run has gone through to reach its phase.
    pub open spec fn run_inv<U>(&self, events: Seq<Event<U>>) -> bool {
        let n = self.shares@.len() as int;
        match self.phase_after(events) {
            Phase::Begin => events.len() == 0,
            Phase::Sharing(i) => i < n && events.len() == i + 1 && self.shares_ok(events, i as int),
            Phase::Commanding => events.len() == n + 1 && self.shares_ok(events, n)
                && self.command is Some,
            Phase::Yielding(r) => self.set_up(events, r) && self.wait != Wait::NoWait,
            Phase::Polling(r) => self.set_up(events, r) && self.wait != Wait::NoWait,
            Phase::Over => events.len() > 0,
        }
    }

    proof fn lemma_run_inv<U>(&self, events: Seq<Event<U>>)
        requires
            self.valid_run(events),
        ensures
            self.run_inv(events),
        decreases events.len(),
    {
        if events.len() > 0 {
            let prev = events.drop_last();
            self.lemma_run_inv(prev);
            let n = self.shares@.len() as int;
            assert(self.shares@.len() == self.shares.len());
            assert forall|j: int| 0 <= j < prev.len() implies prev[j] == events[j] by {}
            if prev.len() > 0 {
                assert(prev[0] == events[0]);
            }
            match self.phase_after(prev) {
                Phase::Sharing(i) => {
                    if events.last() matches Event::Shared(Ok(_)) {
                        assert forall|j: int| 1 <= j <= i + 1 implies #[trigger] events[j] matches Event::Shared(Ok(_)) by {
                            if j <= i {
                                assert(prev[j] matches Event::Shared(Ok(_)));
                            }
                        }
                    }
                },
                Phase::Yielding(r) => {
                    if self.command is Some {
                        assert(prev[n + 1] == events[n + 1]);
                    }
                    assert forall|j: int| 1 <= j <= n implies #[trigger] events[j] matches Event::Shared(Ok(_)) by {
                        assert(prev[j] matches Event::Shared(Ok(_)));
                    }
                },
                Phase::Polling(r) => {
                    if self.command is Some {
                        assert(prev[n + 1] == events[n + 1]);
                    }
                    assert forall|j: int| 1 <= j <= n implies #[trigger] events[j] matches Event::Shared(Ok(_)) by {
                        assert(prev[j] matches Event::Shared(Ok(_)));
                    }
                },
                Phase::Commanding => {
                    assert forall|j: int| 1 <= j <= n implies #[trigger] events[j] matches Event::Shared(Ok(_)) by {
                        assert(prev[j] matches Event::Shared(Ok(_)));
                    }
                },
                Phase::Begin => {
                    assert(events[0] == events.last());
                },
                _ => {},
            }
        }
    }
}

/// The command is issued only once the transaction started and every one of
/// its shares succeeded, in order.
pub proof fn lemma_command_only_after_shares<U>(tx: &Transaction, events: Seq<Event<U>>)
    requires
        tx.valid_run(events),
        events.len() > 0,
        tx.step_after(events) is Command,
    ensures
        tx.command == Some(tx.step_after(events)->Command_0),
        events.len() == tx.shares@.len() + 1,
        events[0] is Start,
        forall|j: int| 1 <= j < events.len() ==> #[trigger] events[j] matches Event::Shared(Ok(_)),
{
    tx.lemma_run_inv(events);
}

/// A transaction ends in `Done` only after every share succeeded and its
/// command, if it has one, returned a reply that lets it go on; one that
/// waits ends so only on an upcall, which it hands back, and one that does not
/// wait hands back none.
pub proof fn lemma_done_only_after_success<U>(
    tx: &Transaction,
    events: Seq<Event<U>>,
    r: Option<CommandReturn>,
    u: Option<U>,
)
    requires
        tx.valid_run(events),
        events.len() > 0,
        tx.step_after(events) == Step::Finish(Outcome::Done(r, u)),
    ensures
        tx.set_up(events, r),
        u is None <==> tx.wait == Wait::NoWait,
        u is Some ==> events.last() == Event::Polled(u),
        Outcome::Done(r, u).waited() || tx.wait == Wait::NoWait,
{
    tx.lemma_run_inv(events.drop_last());
    tx.lemma_run_inv(events);
    let prev = events.drop_last();
    assert forall|j: int| 0 <= j < prev.len() implies prev[j] == events[j] by {}
    let n = tx.shares@.len() as int;
    assert(tx.shares@.len() == tx.shares.len());
    match tx.phase_after(prev) {
        Phase::Polling(_) => {
            assert(prev[0] == events[0]);
            if tx.command is Some {
                assert(prev[n + 1] == events[n + 1]);
            }
            assert forall|j: int| 1 <= j <= n implies #[trigger] events[j] matches Event::Shared(Ok(_)) by {
                assert(prev[j] matches Event::Shared(Ok(_)));
            }
        },
        Phase::Commanding => {
            assert(prev[0] == events[0]);
            assert forall|j: int| 1 <= j <= n implies #[trigger] events[j] matches Event::Shared(Ok(_)) by {
                assert(prev[j] matches Event::Shared(Ok(_)));
            }
        },
        Phase::Sharing(i) => {
            assert(prev[0] == events[0]);
            assert forall|j: int| 1 <= j <= n implies #[trigger] events[j] matches Event::Shared(Ok(_)) by {
                if j <= i {
                    assert(prev[j] matches Event::Shared(Ok(_)));
                }
            }
        },
        Phase::Begin => {
            assert(events[0] == events.last());
        },
        _ => {},
    }
}

/// A transaction fails only with the error that its last share or its
/// command reported, and says which of the two failed.
pub proof fn lemma_failure_names_the_failing_call<U>(
    tx: &Transaction,
    events: Seq<Event<U>>,
    e: ErrorCode,
)
    requires
        tx.valid_run(events),
        events.len() > 0,
        tx.step_after(events) == Step::<U>::Finish(Outcome::Failed(e))
            || tx.step_after(events) == Step::<U>::Finish(Outcome::ShareFailed(e)),
    ensures
        tx.step_after(events) == Step::<U>::Finish(Outcome::ShareFailed(e)) ==> events.last()
            == Event::<U>::Shared(Err(e)),
        tx.step_after(events) == Step::<U>::Finish(Outcome::Failed(e)) ==> (events.last() matches Event::Replied(r)
            && tx.reply_result(r) == Err::<(), ErrorCode>(e)),
{
}

/// The transaction never yields nor looks for its upcall before every share
/// succeeded and its command, if any, returned a reply that lets it go on, and
/// only if it waits at all.
pub proof fn lemma_no_wait_before_reply<U>(tx: &Transaction, events: Seq<Event<U>>)
    requires
        tx.valid_run(events),
        events.len() > 0,
        tx.step_after(events) is Yield || tx.step_after(events) is Poll,
    ensures
        tx.wait != Wait::NoWait,
        exists|r: Option<CommandReturn>| tx.set_up(events, r),
{
    tx.lemma_run_inv(events);
    match tx.phase_after(events) {
        Phase::Yielding(r) => {
            assert(tx.set_up(events, r));
        },
        Phase::Polling(r) => {
            assert(tx.set_up(events, r));
        },
        _ => {},
    }
}

} // verus!
