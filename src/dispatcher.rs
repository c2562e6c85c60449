use vstd::prelude::*;
use crate::card::{
    read_data_code, read_uid_code, write_data_code, CardType, CMD_CLOSE_UID_REPORT,
    CMD_OPEN_UID_REPORT, CMD_READ_DATA, CMD_SET_BUZZER, CMD_WRITE_DATA, FN_CODE_SET_BUZZER,
    FN_CODE_UID_REPORT_SET, UID_REPORT_OFF, UID_REPORT_ON,
};
use crate::codec::{InboundFrame, ST_CODE_SUCCESS};
use crate::exchange::ExchangeError;

verus! {

/// First page of the card that reads and writes use.
pub const FIRST_PAGE: u8 = 4;

/// Page at which reads and writes stop.
pub const LAST_PAGE: u8 = 39;

/// Bytes in one page of the card.
pub const PAGE_SIZE: usize = 4;

/// A reply to a caller: command or function code, success, payload.
pub type NTAGResult = (u8, bool, Vec<u8>);

/// Whether an exchange ended in a reply that reports success.
pub open spec fn outcome_ok(o: Result<InboundFrame, ExchangeError>) -> bool {
    o matches Ok(f) && f.st_code == ST_CODE_SUCCESS
}

/// The data of an exchange's reply; empty when there was none.
pub open spec fn outcome_data(o: Result<InboundFrame, ExchangeError>) -> Seq<u8> {
    match o {
        Ok(f) => f.data@,
        Err(_) => Seq::empty(),
    }
}

/// Whether `o` reports success, and copies of its data.
fn outcome_parts(o: &Result<InboundFrame, ExchangeError>) -> (r: (bool, Vec<u8>))
    ensures
        r.0 == outcome_ok(*o),
        r.1@ == outcome_data(*o),
{
    match o {
        Ok(f) => (f.st_code == ST_CODE_SUCCESS, f.data.clone()),
        Err(_) => (false, Vec::new()),
    }
}

/// The UID to keep after a poll that ended in `outcome`: the reply's data
/// when the reader reports success, else none.
pub fn uid_after_poll(outcome: &Result<InboundFrame, ExchangeError>) -> (r: Option<Vec<u8>>)
    ensures
        outcome_ok(*outcome) ==> (r matches Some(uid) && uid@ == outcome_data(*outcome)),
        !outcome_ok(*outcome) ==> r is None,
{
    match outcome {
        Ok(f) => {
            if f.st_code == ST_CODE_SUCCESS {
                Some(f.data.clone())
            } else {
                None
            }
        },
        Err(_) => None,
    }
}

/// When the UID is polled: every `interval_ms` milliseconds of a clock that
/// the caller reads.
pub struct Poller {
    pub card: CardType,
    pub interval_ms: u64,
    pub last_poll_ms: u64,
}

impl Poller {
    /// A poller for `card` that polls every `interval_ms`, counting from `now_ms`.
    pub fn new(card: CardType, interval_ms: u64, now_ms: u64) -> (r: Poller)
        ensures
            r.card == card,
            r.interval_ms == interval_ms,
            r.last_poll_ms == now_ms,
    {
        Poller { card, interval_ms, last_poll_ms: now_ms }
    }

    /// Whether at `now_ms` a poll is due.
    pub fn poll_due(&self, now_ms: u64) -> (r: bool)
        ensures
            r == (now_ms >= self.last_poll_ms && now_ms - self.last_poll_ms >= self.interval_ms),
    {
        now_ms >= self.last_poll_ms && now_ms - self.last_poll_ms >= self.interval_ms
    }

    /// Starts a poll at `now_ms`: the function code that reads the UID, sent
    /// with no payload.
    pub fn start_poll(&mut self, now_ms: u64) -> (r: u8)
        ensures
            r == read_uid_code(old(self).card),
            final(self).card == old(self).card,
            final(self).interval_ms == old(self).interval_ms,
            final(self).last_poll_ms == now_ms,
    {
        self.last_poll_ms = now_ms;
        self.card.fn_code_read_uid()
    }
}

/// What the dispatcher does next for a command.
#[derive(Debug)]
pub enum Action {
    /// Send a frame and wait for its reply, then report it with `on_outcome`.
    Exchange { fn_code: u8, payload: Vec<u8> },
    /// Send a frame without waiting for a reply, then call `on_notified`.
    Notify { fn_code: u8, payload: Vec<u8> },
    /// Hand this result to the caller; the command is done.
    Reply(NTAGResult),
    /// The command is done and owes the caller nothing.
    Done,
}

pub ghost enum ActionView {
    Exchange { fn_code: u8, payload: Seq<u8> },
    Notify { fn_code: u8, payload: Seq<u8> },
    Reply { code: u8, success: bool, payload: Seq<u8> },
    Done,
}

impl View for Action {
    type V = ActionView;

    open spec fn view(&self) -> ActionView {
        match self {
            Action::Exchange { fn_code, payload } => ActionView::Exchange {
                fn_code: *fn_code,
                payload: payload@,
            },
            Action::Notify { fn_code, payload } => ActionView::Notify {
                fn_code: *fn_code,
                payload: payload@,
            },
            Action::Reply(r) => ActionView::Reply { code: r.0, success: r.1, payload: r.2@ },
            Action::Done => ActionView::Done,
        }
    }
}

/// A command in progress on the dispatcher.
#[derive(Debug)]
pub enum Job {
    /// Writing `rest`, from its last byte back, a page at a time from `page` on.
    Write { rest: Vec<u8>, page: u8, failed: bool },
    /// Reading `total` bytes, of which `got` have come, a page at a time from `page` on.
    Read { total: usize, got: Vec<u8>, page: u8, failed: bool },
    /// Setting the buzzer to `setting`; `result` once the reader answered.
    Buzzer { setting: Option<u8>, result: Option<bool> },
    /// Switching the reader's UID reports on or off; `sent` once done.
    Report { enable: bool, sent: bool },
}

pub ghost enum JobView {
    Write { rest: Seq<u8>, page: u8, failed: bool },
    Read { total: nat, got: Seq<u8>, page: u8, failed: bool },
    Buzzer { setting: Option<u8>, result: Option<bool> },
    Report { enable: bool, sent: bool },
}

impl View for Job {
    type V = JobView;

    open spec fn view(&self) -> JobView {
        match self {
            Job::Write { rest, page, failed } => JobView::Write {
                rest: rest@,
                page: *page,
                failed: *failed,
            },
            Job::Read { total, got, page, failed } => JobView::Read {
                total: *total as nat,
                got: got@,
                page: *page,
                failed: *failed,
            },
            Job::Buzzer { setting, result } => JobView::Buzzer {
                setting: *setting,
                result: *result,
            },
            Job::Report { enable, sent } => JobView::Report { enable: *enable, sent: *sent },
        }
    }
}

/// The `k`-th byte of `rest` counted from its end, or zero past its start.
pub open spec fn tail_byte(rest: Seq<u8>, k: int) -> u8 {
    if k < rest.len() {
        rest[rest.len() - 1 - k]
    } else {
        0
    }
}

/// What is written to `page`: the page number, then the last four bytes of
/// `rest` from the end back, zero-filled.
pub open spec fn write_page_payload(rest: Seq<u8>, page: u8) -> Seq<u8> {
    seq![page, tail_byte(rest, 0), tail_byte(rest, 1), tail_byte(rest, 2), tail_byte(rest, 3)]
}

/// `rest` without its last page's worth of bytes.
pub open spec fn drop_page(rest: Seq<u8>) -> Seq<u8> {
    if rest.len() > 4 {
        rest.subrange(0, rest.len() - 4)
    } else {
        Seq::empty()
    }
}

/// How many bytes of a page's reply `data` a read keeps, having `got` of `total`:
/// at most a page, at most what is missing, at most what came.
pub open spec fn read_take(total: nat, got: nat, data_len: nat) -> nat {
    let missing = if got < total {
        (total - got) as nat
    } else {
        0nat
    };
    let page_len = if data_len < 4 {
        data_len
    } else {
        4nat
    };
    if missing < page_len {
        missing
    } else {
        page_len
    }
}

/// The job a command with `cmd` and `payload` starts, if `cmd` is known.
pub open spec fn start_spec(cmd: u8, payload: Seq<u8>) -> Option<JobView> {
    if cmd == CMD_WRITE_DATA {
        Some(JobView::Write { rest: payload, page: FIRST_PAGE, failed: false })
    } else if cmd == CMD_READ_DATA {
        Some(
            JobView::Read {
                total: if payload.len() > 0 {
                    payload[0] as nat
                } else {
                    0
                },
                got: Seq::empty(),
                page: FIRST_PAGE,
                failed: payload.len() == 0,
            },
        )
    } else if cmd == CMD_SET_BUZZER {
        Some(
            JobView::Buzzer {
                setting: if payload.len() > 0 {
                    Some(payload[0])
                } else {
                    None
                },
                result: None,
            },
        )
    } else if cmd == CMD_CLOSE_UID_REPORT {
        Some(JobView::Report { enable: false, sent: false })
    } else if cmd == CMD_OPEN_UID_REPORT {
        Some(JobView::Report { enable: true, sent: false })
    } else {
        None
    }
}

/// What a job in state `j` does next, for a card of type `card`.
pub open spec fn next_spec(j: JobView, card: CardType) -> ActionView {
    match j {
        JobView::Write { rest, page, failed } => {
            if failed {
                ActionView::Reply { code: CMD_WRITE_DATA, success: false, payload: Seq::empty() }
            } else if rest.len() == 0 || page >= LAST_PAGE {
                ActionView::Reply { code: CMD_WRITE_DATA, success: true, payload: Seq::empty() }
            } else {
                ActionView::Exchange {
                    fn_code: write_data_code(card),
                    payload: write_page_payload(rest, page),
                }
            }
        },
        JobView::Read { total, got, page, failed } => {
            if failed {
                ActionView::Reply { code: CMD_READ_DATA, success: false, payload: got }
            } else if got.len() >= total {
                ActionView::Reply { code: CMD_READ_DATA, success: true, payload: got }
            } else if page > LAST_PAGE {
                ActionView::Reply { code: CMD_READ_DATA, success: false, payload: got }
            } else {
                ActionView::Exchange { fn_code: read_data_code(card), payload: seq![page] }
            }
        },
        JobView::Buzzer { setting, result } => {
            match setting {
                None => ActionView::Reply {
                    code: FN_CODE_SET_BUZZER,
                    success: false,
                    payload: Seq::empty(),
                },
                Some(s) => match result {
                    None => ActionView::Exchange { fn_code: FN_CODE_SET_BUZZER, payload: seq![s] },
                    Some(ok) => ActionView::Reply {
                        code: FN_CODE_SET_BUZZER,
                        success: ok,
                        payload: Seq::empty(),
                    },
                },
            }
        },
        JobView::Report { enable, sent } => {
            if sent {
                ActionView::Done
            } else {
                ActionView::Notify {
                    fn_code: FN_CODE_UID_REPORT_SET,
                    payload: seq![if enable { UID_REPORT_ON } else { UID_REPORT_OFF }],
                }
            }
        },
    }
}

/// The state of job `j` after the exchange it asked for ended with success
/// `ok` and reply data `data`.
pub open spec fn after_outcome(j: JobView, ok: bool, data: Seq<u8>) -> JobView {
    match j {
        JobView::Write { rest, page, failed } => {
            if ok {
                JobView::Write { rest: drop_page(rest), page: (page + 1) as u8, failed }
            } else {
                JobView::Write { rest, page, failed: true }
            }
        },
        JobView::Read { total, got, page, failed } => {
            if ok {
                JobView::Read {
                    total,
                    got: got + data.subrange(0, read_take(total, got.len(), data.len()) as int),
                    page: (page + 1) as u8,
                    failed,
                }
            } else {
                JobView::Read { total, got, page, failed: true }
            }
        },
        JobView::Buzzer { setting, result } => JobView::Buzzer { setting, result: Some(ok) },
        JobView::Report { enable, sent } => j,
    }
}

impl Job {
    pub open spec fn wf(&self) -> bool {
        match self@ {
            JobView::Read { total, got, .. } => got.len() <= total,
            _ => true,
        }
    }

    /// The job that the command `cmd` with `payload` starts; none for an
    /// unknown command.
    pub fn start(cmd: u8, payload: Vec<u8>) -> (r: Option<Job>)
        ensures
            r matches Some(j) ==> j.wf() && start_spec(cmd, payload@) == Some(j@),
            r is None ==> start_spec(cmd, payload@) is None,
    {
        if cmd == CMD_WRITE_DATA {
            Some(Job::Write { rest: payload, page: FIRST_PAGE, failed: false })
        } else if cmd == CMD_READ_DATA {
            if payload.len() > 0 {
                Some(Job::Read { total: payload[0] as usize, got: Vec::new(), page: FIRST_PAGE, failed: false })
            } else {
                Some(Job::Read { total: 0, got: Vec::new(), page: FIRST_PAGE, failed: true })
            }
        } else if cmd == CMD_SET_BUZZER {
            if payload.len() > 0 {
                Some(Job::Buzzer { setting: Some(payload[0]), result: None })
            } else {
                Some(Job::Buzzer { setting: None, result: None })
            }
        } else if cmd == CMD_CLOSE_UID_REPORT {
            Some(Job::Report { enable: false, sent: false })
        } else if cmd == CMD_OPEN_UID_REPORT {
            Some(Job::Report { enable: true, sent: false })
        } else {
            None
        }
    }

    /// What the job does next.
    pub fn next_action(&self, card: CardType) -> (r: Action)
        ensures
            r@ == next_spec(self@, card),
    {
        match self {
            Job::Write { rest, page, failed } => {
                if *failed {
                    Action::Reply((CMD_WRITE_DATA, false, Vec::new()))
                } else if rest.len() == 0 || *page >= LAST_PAGE {
                    Action::Reply((CMD_WRITE_DATA, true, Vec::new()))
                } else {
                    Action::Exchange {
                        fn_code: card.fn_code_write_data(),
                        payload: page_payload(rest, *page),
                    }
                }
            },
            Job::Read { total, got, page, failed } => {
                if *failed {
                    Action::Reply((CMD_READ_DATA, false, got.clone()))
                } else if got.len() >= *total {
                    Action::Reply((CMD_READ_DATA, true, got.clone()))
                } else if *page > LAST_PAGE {
                    Action::Reply((CMD_READ_DATA, false, got.clone()))
                } else {
                    let mut payload: Vec<u8> = Vec::new();
                    payload.push(*page);
                    proof {
                        assert(payload@ =~= seq![*page]);
                    }
                    Action::Exchange { fn_code: card.fn_code_read_data(), payload }
                }
            },
            Job::Buzzer { setting, result } => {
                match setting {
                    None => Action::Reply((FN_CODE_SET_BUZZER, false, Vec::new())),
                    Some(s) => match result {
                        None => {
                            let mut payload: Vec<u8> = Vec::new();
                            payload.push(*s);
                            proof {
                                assert(payload@ =~= seq![*s]);
                            }
                            Action::Exchange { fn_code: FN_CODE_SET_BUZZER, payload }
                        },
                        Some(ok) => Action::Reply((FN_CODE_SET_BUZZER, *ok, Vec::new())),
                    },
                }
            },
            Job::Report { enable, sent } => {
                if *sent {
                    Action::Done
                } else {
                    let mut payload: Vec<u8> = Vec::new();
                    payload.push(if *enable { UID_REPORT_ON } else { UID_REPORT_OFF });
                    proof {
                        assert(payload@ =~= seq![if *enable { UID_REPORT_ON } else { UID_REPORT_OFF }]);
                    }
                    Action::Notify { fn_code: FN_CODE_UID_REPORT_SET, payload }
                }
            },
        }
    }

    /// Takes in how the exchange that `next_action` asked for ended.
    pub fn on_outcome(&mut self, card: CardType, outcome: &Result<InboundFrame, ExchangeError>)
        requires
            old(self).wf(),
            next_spec(old(self)@, card) is Exchange,
        ensures
            final(self).wf(),
            final(self)@ == after_outcome(old(self)@, outcome_ok(*outcome), outcome_data(*outcome)),
    {
        let (ok, data) = outcome_parts(outcome);
        match self {
            Job::Write { rest, page, failed } => {
                if ok {
                    let keep: usize = if rest.len() > PAGE_SIZE { rest.len() - PAGE_SIZE } else { 0 };
                    rest.truncate(keep);
                    *page = *page + 1;
                    proof {
                        assert(rest@ =~= drop_page(old(self)@->Write_rest));
                    }
                } else {
                    *failed = true;
                }
            },
            Job::Read { total, got, page, failed } => {
                if ok {
                    let missing = *total - got.len();
                    let page_len = if data.len() < PAGE_SIZE { data.len() } else { PAGE_SIZE };
                    let take = if missing < page_len { missing } else { page_len };
                    let ghost before = got@;
                    let mut i: usize = 0;
                    while i < take
                        invariant
                            i <= take,
                            take <= data@.len(),
                            got@ == before + data@.subrange(0, i as int),
                        decreases take - i,
                    {
                        got.push(data[i]);
                        i = i + 1;
                        proof {
                            assert(got@ =~= before + data@.subrange(0, i as int));
                        }
                    }
                    *page = *page + 1;
                } else {
                    *failed = true;
                }
            },
            Job::Buzzer { result, .. } => {
                *result = Some(ok);
            },
            Job::Report { .. } => {},
        }
    }

    /// Takes note that the frame that `next_action` asked to send was sent.
    pub fn on_notified(&mut self)
        requires
            old(self)@ is Report,
        ensures
            final(self)@ == (JobView::Report { enable: old(self)@->Report_enable, sent: true }),
    {
        match self {
            Job::Report { sent, .. } => {
                *sent = true;
            },
            _ => {},
        }
    }
}

/// The payload that writes the last page's worth of `rest` to `page`.
fn page_payload(rest: &Vec<u8>, page: u8) -> (r: Vec<u8>)
    ensures
        r@ == write_page_payload(rest@, page),
{
    let n = rest.len();
    let mut out: Vec<u8> = Vec::with_capacity(PAGE_SIZE + 1);
    out.push(page);
    let mut k: usize = 0;
    while k < PAGE_SIZE
        invariant
            k <= PAGE_SIZE,
            n == rest@.len(),
            out@.len() == k + 1,
            out@[0] == page,
            forall|j: int| 0 <= j < k ==> out@[j + 1] == tail_byte(rest@, j),
        decreases PAGE_SIZE - k,
    {
        if k < n {
            out.push(rest[n - 1 - k]);
        } else {
            out.push(0);
        }
        k = k + 1;
    }
    proof {
        assert(out@ =~= write_page_payload(rest@, page));
    }
    out
}

/// Writing six bytes takes exactly two page writes with the card's write code:
/// page 4 gets the last four bytes from the end back, page 5 the first two from
/// the end back and two zeros; then the write reports success.
pub proof fn lemma_write_six_bytes(card: CardType, data: Seq<u8>, r4: Seq<u8>, r5: Seq<u8>)
    requires
        data.len() == 6,
    ensures
        ({
            let j0 = JobView::Write { rest: data, page: FIRST_PAGE, failed: false };
            let j1 = after_outcome(j0, true, r4);
            let j2 = after_outcome(j1, true, r5);
            &&& start_spec(CMD_WRITE_DATA, data) == Some(j0)
            &&& next_spec(j0, card) == (ActionView::Exchange {
                fn_code: write_data_code(card),
                payload: seq![4u8, data[5], data[4], data[3], data[2]],
            })
            &&& next_spec(j1, card) == (ActionView::Exchange {
                fn_code: write_data_code(card),
                payload: seq![5u8, data[1], data[0], 0u8, 0u8],
            })
            &&& next_spec(j2, card) == (ActionView::Reply {
                code: CMD_WRITE_DATA,
                success: true,
                payload: Seq::empty(),
            })
        }),
{
    let rest1 = drop_page(data);
    assert(rest1 =~= data.subrange(0, 2));
    assert(write_page_payload(data, 4) =~= seq![4u8, data[5], data[4], data[3], data[2]]);
    assert(write_page_payload(rest1, 5) =~= seq![5u8, data[1], data[0], 0u8, 0u8]);
    assert(drop_page(rest1).len() == 0);
}

/// Reading ten bytes takes exactly three page reads with the card's read code,
/// of pages 4, 5 and 6; the last page's four bytes are cut to the two still
/// missing, and the read reports success with those ten bytes.
pub proof fn lemma_read_ten_bytes(card: CardType, d4: Seq<u8>, d5: Seq<u8>, d6: Seq<u8>)
    requires
        d4.len() == 4,
        d5.len() == 4,
        d6.len() == 4,
    ensures
        ({
            let j0 = JobView::Read { total: 10, got: Seq::empty(), page: FIRST_PAGE, failed: false };
            let j1 = after_outcome(j0, true, d4);
            let j2 = after_outcome(j1, true, d5);
            let j3 = after_outcome(j2, true, d6);
            &&& start_spec(CMD_READ_DATA, seq![10u8]) == Some(j0)
            &&& next_spec(j0, card) == (ActionView::Exchange {
                fn_code: read_data_code(card),
                payload: seq![4u8],
            })
            &&& next_spec(j1, card) == (ActionView::Exchange {
                fn_code: read_data_code(card),
                payload: seq![5u8],
            })
            &&& next_spec(j2, card) == (ActionView::Exchange {
                fn_code: read_data_code(card),
                payload: seq![6u8],
            })
            &&& next_spec(j3, card) == (ActionView::Reply {
                code: CMD_READ_DATA,
                success: true,
                payload: d4 + d5 + d6.subrange(0, 2),
            })
        }),
{
    let e = Seq::<u8>::empty();
    assert(e + d4.subrange(0, 4) =~= d4);
    assert(d4 + d5.subrange(0, 4) =~= d4 + d5);
    assert(seq![10u8][0] == 10u8);
}

} // verus!
