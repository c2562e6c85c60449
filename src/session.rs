use vstd::prelude::*;
use std::sync::atomic::{AtomicBool, Ordering};
use std::sync::mpsc::{Receiver, Sender};
use std::sync::Arc;
use crate::card::{
    CMD_CLOSE_UID_REPORT, CMD_OPEN_UID_REPORT, CMD_READ_DATA, CMD_SET_BUZZER, CMD_WRITE_DATA,
};
use crate::dispatcher::NTAGResult;

verus! {

#[verifier::external_type_specification]
#[verifier::external_body]
#[verifier::reject_recursive_types(T)]
pub struct ExSender<T>(Sender<T>);

#[verifier::external_type_specification]
#[verifier::external_body]
#[verifier::reject_recursive_types(T)]
pub struct ExReceiver<T>(Receiver<T>);

/// A command for the dispatcher: command code and payload.
pub type Command = (u8, Vec<u8>);

/// Why a command did not reach the dispatcher, or got no result back.
#[derive(Debug, Clone, Copy, PartialEq, Eq, Structural)]
pub enum BridgeError {
    /// No session was opened: there is no channel to the dispatcher.
    NotOpen,
    /// The dispatcher is gone: its end of a channel was dropped.
    Disconnected,
}

/// Relies on `Sender::send`: true when the command was queued, false when
/// the receiving end is gone. Which of the two comes depends on the other thread.
#[verifier::external_body]
fn queue_command(tx: &Sender<Command>, cmd: Command) -> (r: bool) {
    tx.send(cmd).is_ok()
}

/// Relies on `Receiver::recv`: blocks for the next result, none once the
/// sending end is gone. What arrives depends on the other thread.
#[verifier::external_body]
fn await_result(rx: &Receiver<NTAGResult>) -> (r: Option<NTAGResult>) {
    rx.recv().ok()
}

/// A caller's handle on the reader: the channels to and from the dispatcher
/// thread and the flags that thread reads. Commands go through `&mut`, so at
/// most one is in flight.
pub struct Session {
    pub commands: Option<Sender<Command>>,
    pub results: Option<Receiver<NTAGResult>>,
    pub opened: Arc<AtomicBool>,
    pub polling: Arc<AtomicBool>,
    /// Every command queued to the dispatcher through this handle, in order.
    pub sent: Ghost<Seq<(u8, Seq<u8>)>>,
}

impl Session {
    /// A handle on a dispatcher reached through `commands` and `results`, that
    /// runs while `opened` holds and reads `polling`.
    pub fn new(
        commands: Sender<Command>,
        results: Receiver<NTAGResult>,
        opened: Arc<AtomicBool>,
        polling: Arc<AtomicBool>,
    ) -> (r: Session)
        ensures
            r.commands is Some,
            r.results is Some,
            r.sent@ == Seq::<(u8, Seq<u8>)>::empty(),
    {
        Session {
            commands: Some(commands),
            results: Some(results),
            opened,
            polling,
            sent: Ghost(Seq::empty()),
        }
    }

    /// A handle with no dispatcher behind it.
    pub fn closed() -> (r: Session)
        ensures
            r.commands is None,
            r.results is None,
            r.sent@ == Seq::<(u8, Seq<u8>)>::empty(),
    {
        Session {
            commands: None,
            results: None,
            opened: Arc::new(AtomicBool::new(false)),
            polling: Arc::new(AtomicBool::new(true)),
            sent: Ghost(Seq::empty()),
        }
    }
}

/// Whether both channels to the dispatcher exist.
pub open spec fn connected(s: &Session) -> bool {
    s.commands is Some && s.results is Some
}

/// Whether the session is open, as the dispatcher sees it.
pub fn is_opened(s: &Session) -> bool {
    s.opened.load(Ordering::SeqCst)
}

/// Tells the dispatcher to stop: it sees this on its next turn and exits.
/// Returns whether the signal was given.
pub fn close_port(s: &Session) -> (r: bool)
    ensures
        r,
{
    s.opened.store(false, Ordering::SeqCst);
    true
}

/// Ends the session; see `close_port`.
pub fn close(s: &Session) -> (r: bool)
    ensures
        r,
{
    close_port(s)
}

/// Sets whether the UID is to be polled.
pub fn set_loop(s: &Session, lp: bool) {
    s.polling.store(lp, Ordering::SeqCst);
}

/// A result from the dispatcher with its payload turned back into the order
/// the caller gave: the dispatcher takes a write's bytes from the end.
pub fn restore_order(result: NTAGResult) -> (r: NTAGResult)
    ensures
        r.0 == result.0,
        r.1 == result.1,
        r.2@ == result.2@.reverse(),
{
    let (code, success, data) = result;
    let n = data.len();
    let mut out: Vec<u8> = Vec::with_capacity(n);
    let mut i: usize = 0;
    while i < n
        invariant
            i <= n,
            n == data@.len(),
            out@.len() == i,
            forall|j: int| 0 <= j < i ==> out@[j] == data@[n - 1 - j],
        decreases n - i,
    {
        out.push(data[n - 1 - i]);
        i = i + 1;
    }
    proof {
        assert(out@ =~= data@.reverse());
    }
    (code, success, out)
}

/// Queues `(cmd, data)` for the dispatcher and waits for its result, whose
/// payload comes back in the caller's order.
pub fn send_cmd(s: &mut Session, cmd: u8, data: Vec<u8>) -> (r: Result<NTAGResult, BridgeError>)
    ensures
        final(s).commands == old(s).commands,
        final(s).results == old(s).results,
        !connected(old(s)) <==> r == Err::<NTAGResult, BridgeError>(BridgeError::NotOpen),
        !connected(old(s)) ==> final(s).sent@ == old(s).sent@,
        r is Ok ==> final(s).sent@ == old(s).sent@.push((cmd, data@)),
        r is Err ==> final(s).sent@ == old(s).sent@ || final(s).sent@ == old(s).sent@.push(
            (cmd, data@),
        ),
{
    if s.commands.is_none() || s.results.is_none() {
        return Err(BridgeError::NotOpen);
    }
    let ghost entry = (cmd, data@);
    let queued = match &s.commands {
        Some(tx) => queue_command(tx, (cmd, data)),
        None => false,
    };
    if !queued {
        return Err(BridgeError::Disconnected);
    }
    proof {
        s.sent@ = s.sent@.push(entry);
    }
    let result = match &s.results {
        Some(rx) => await_result(rx),
        None => None,
    };
    match result {
        Some(res) => Ok(restore_order(res)),
        None => Err(BridgeError::Disconnected),
    }
}

/// Queues `(cmd, data)` for the dispatcher without waiting: the result is
/// success with no payload once the command is queued.
pub fn send_cmd_no_resp(s: &mut Session, cmd: u8, data: Vec<u8>) -> (r: Result<NTAGResult, BridgeError>)
    ensures
        final(s).commands == old(s).commands,
        final(s).results == old(s).results,
        old(s).commands is None <==> r == Err::<NTAGResult, BridgeError>(BridgeError::NotOpen),
        r matches Ok(res) ==> res.0 == cmd && res.1 && res.2@.len() == 0
            && final(s).sent@ == old(s).sent@.push((cmd, data@)),
        r is Err ==> final(s).sent@ == old(s).sent@,
{
    let ghost entry = (cmd, data@);
    let queued = match &s.commands {
        Some(tx) => queue_command(tx, (cmd, data)),
        None => {
            return Err(BridgeError::NotOpen);
        },
    };
    if !queued {
        return Err(BridgeError::Disconnected);
    }
    proof {
        s.sent@ = s.sent@.push(entry);
    }
    Ok((cmd, true, Vec::new()))
}

/// Reads `len` bytes from the card.
pub fn read_data(s: &mut Session, len: u8) -> (r: Result<NTAGResult, BridgeError>)
    ensures
        final(s).commands == old(s).commands,
        final(s).results == old(s).results,
        !connected(old(s)) <==> r == Err::<NTAGResult, BridgeError>(BridgeError::NotOpen),
        !connected(old(s)) ==> final(s).sent@ == old(s).sent@,
        r is Ok ==> final(s).sent@ == old(s).sent@.push((CMD_READ_DATA, seq![len])),
        r is Err ==> final(s).sent@ == old(s).sent@ || final(s).sent@ == old(s).sent@.push(
            (CMD_READ_DATA, seq![len]),
        ),
{
    let mut payload: Vec<u8> = Vec::new();
    payload.push(len);
    proof {
        assert(payload@ =~= seq![len]);
    }
    send_cmd(s, CMD_READ_DATA, payload)
}

/// Sets the buzzer to `data`.
pub fn set_buzzer(s: &mut Session, data: u8) -> (r: Result<NTAGResult, BridgeError>)
    ensures
        final(s).commands == old(s).commands,
        final(s).results == old(s).results,
        !connected(old(s)) <==> r == Err::<NTAGResult, BridgeError>(BridgeError::NotOpen),
        !connected(old(s)) ==> final(s).sent@ == old(s).sent@,
        r is Ok ==> final(s).sent@ == old(s).sent@.push((CMD_SET_BUZZER, seq![data])),
        r is Err ==> final(s).sent@ == old(s).sent@ || final(s).sent@ == old(s).sent@.push(
            (CMD_SET_BUZZER, seq![data]),
        ),
{
    let mut payload: Vec<u8> = Vec::new();
    payload.push(data);
    proof {
        assert(payload@ =~= seq![data]);
    }
    send_cmd(s, CMD_SET_BUZZER, payload)
}

/// Switches the reader's own UID reports off.
pub fn close_uid_report(s: &mut Session) -> (r: Result<NTAGResult, BridgeError>)
    ensures
        final(s).commands == old(s).commands,
        final(s).results == old(s).results,
        old(s).commands is None <==> r == Err::<NTAGResult, BridgeError>(BridgeError::NotOpen),
        r matches Ok(res) ==> res.0 == CMD_CLOSE_UID_REPORT && res.1 && res.2@.len() == 0
            && final(s).sent@ == old(s).sent@.push((CMD_CLOSE_UID_REPORT, Seq::<u8>::empty())),
        r is Err ==> final(s).sent@ == old(s).sent@,
{
    send_cmd_no_resp(s, CMD_CLOSE_UID_REPORT, Vec::new())
}

/// Switches the reader's own UID reports on.
pub fn open_uid_report(s: &mut Session) -> (r: Result<NTAGResult, BridgeError>)
    ensures
        final(s).commands == old(s).commands,
        final(s).results == old(s).results,
        old(s).commands is None <==> r == Err::<NTAGResult, BridgeError>(BridgeError::NotOpen),
        r matches Ok(res) ==> res.0 == CMD_OPEN_UID_REPORT && res.1 && res.2@.len() == 0
            && final(s).sent@ == old(s).sent@.push((CMD_OPEN_UID_REPORT, Seq::<u8>::empty())),
        r is Err ==> final(s).sent@ == old(s).sent@,
{
    send_cmd_no_resp(s, CMD_OPEN_UID_REPORT, Vec::new())
}

/// Writes `data` to the card.
pub fn write_data(s: &mut Session, data: Vec<u8>) -> (r: Result<NTAGResult, BridgeError>)
    ensures
        final(s).commands == old(s).commands,
        final(s).results == old(s).results,
        !connected(old(s)) <==> r == Err::<NTAGResult, BridgeError>(BridgeError::NotOpen),
        !connected(old(s)) ==> final(s).sent@ == old(s).sent@,
        r is Ok ==> final(s).sent@ == old(s).sent@.push((CMD_WRITE_DATA, data@)),
        r is Err ==> final(s).sent@ == old(s).sent@ || final(s).sent@ == old(s).sent@.push(
            (CMD_WRITE_DATA, data@),
        ),
{
    send_cmd(s, CMD_WRITE_DATA, data)
}

} // verus!
