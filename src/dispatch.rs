use vstd::prelude::*;
use crate::abi::{
    decode, hex_lower, keccak, keccak_of, opt_bytes_view, prefixed_hex, abi_decoded, tokens_view,
    AbiToken, ParamKind, TokenView,
};
use crate::jobs::RunningJobs;
use crate::word::{word_from_be_bytes, word_of, Word};

verus! {

/// A contract log as the chain delivers it.
pub struct ChainLog {
    /// Set where a reorganisation retracted the log; absent counts as retracted.
    pub removed: Option<bool>,
    pub block_number: Option<u64>,
    pub topics: Vec<Vec<u8>>,
    pub data: Vec<u8>,
}

/// This node's identity, fixed after startup.
pub struct NodeConfig {
    pub address: Vec<u8>,
    /// How many executor responses settle a job.
    pub num_selected_executors: u8,
}

/// The registration flag, the resume cursor and the jobs in flight.
pub struct ListenerState {
    pub registered: bool,
    pub last_block_seen: u64,
    pub running: RunningJobs,
}

/// What a `ListenerState` holds, with the running jobs as a set.
pub struct ListenerView {
    pub registered: bool,
    pub cursor: u64,
    pub running: Set<Word>,
}

/// Work that a job log hands out to run beside the dispatcher.
pub enum JobTask {
    /// Watch the job's deadline.
    Timeout { job_id: Word, deadline: Word },
    /// Execute the job's code.
    Execute { job_id: Word, code_hash: String, code_inputs: Vec<u8>, deadline: Word },
}

pub enum TaskView {
    Timeout { job_id: Word, deadline: Word },
    Execute { job_id: Word, code_hash: Seq<char>, code_inputs: Seq<u8>, deadline: Word },
}

pub open spec fn task_view(t: JobTask) -> TaskView {
    match t {
        JobTask::Timeout { job_id, deadline } => TaskView::Timeout { job_id, deadline },
        JobTask::Execute { job_id, code_hash, code_inputs, deadline } => TaskView::Execute {
            job_id,
            code_hash: code_hash@,
            code_inputs: code_inputs@,
            deadline,
        },
    }
}

pub open spec fn tasks_view(ts: Seq<JobTask>) -> Seq<TaskView> {
    ts.map_values(|t: JobTask| task_view(t))
}

/// The fields of a job-created event.
pub struct JobCreated {
    pub job_id: Word,
    pub code_hash: Vec<u8>,
    pub code_inputs: Vec<u8>,
    pub deadline: Word,
    /// Whether the node's address is among the selected executors.
    pub selected: bool,
}

pub struct CreatedView {
    pub job_id: Word,
    pub code_hash: Seq<u8>,
    pub code_inputs: Seq<u8>,
    pub deadline: Word,
    pub selected: bool,
}

pub open spec fn created_view(c: JobCreated) -> CreatedView {
    CreatedView {
        job_id: c.job_id,
        code_hash: c.code_hash@,
        code_inputs: c.code_inputs@,
        deadline: c.deadline,
        selected: c.selected,
    }
}

pub open spec fn opt_created_view(c: Option<JobCreated>) -> Option<CreatedView> {
    match c {
        Some(c) => Some(created_view(c)),
        None => None,
    }
}

pub open spec fn job_created_signature() -> Seq<char> {
    "JobCreated(uint256,address,bytes32,bytes,uint256,address[])"@
}

pub open spec fn job_responded_signature() -> Seq<char> {
    "JobResponded(uint256,bytes,uint256,uint8,uint8)"@
}

pub open spec fn job_created_kinds() -> Seq<ParamKind> {
    seq![ParamKind::FixedBytes(32), ParamKind::Bytes, ParamKind::Uint(256), ParamKind::AddressArray]
}

pub open spec fn job_responded_kinds() -> Seq<ParamKind> {
    seq![ParamKind::Bytes, ParamKind::Uint(256), ParamKind::Uint(8), ParamKind::Uint(8)]
}

/// Whether `me` stands among the well-formed entries of an address list.
pub open spec fn is_selected(addrs: Seq<Option<Seq<u8>>>, me: Seq<u8>) -> bool {
    exists|i: int| 0 <= i < addrs.len() && addrs[i] == Some(me)
}

/// The job-created fields that an id topic and decoded data give, if every
/// field has its expected shape.
pub open spec fn created_of(id_topic: Seq<u8>, toks: Option<Seq<TokenView>>, me: Seq<u8>) -> Option<CreatedView> {
    match toks {
        Some(t) => {
            if id_topic.len() == 32 && t.len() >= 4 && t[0] is FixedBytes && t[1] is Bytes
                && t[2] is Uint && t[2]->Uint_0.len() == 32 && t[3] is Array {
                Some(CreatedView {
                    job_id: word_of(id_topic),
                    code_hash: t[0]->FixedBytes_0,
                    code_inputs: t[1]->Bytes_0,
                    deadline: word_of(t[2]->Uint_0),
                    selected: is_selected(t[3]->Array_0, me),
                })
            } else {
                None
            }
        },
        None => None,
    }
}

/// The job id and output count of a job-responded event, if both have their shape.
pub open spec fn responded_of(id_topic: Seq<u8>, toks: Option<Seq<TokenView>>) -> Option<(Word, Word)> {
    match toks {
        Some(t) => {
            if id_topic.len() == 32 && t.len() >= 4 && t[3] is Uint && t[3]->Uint_0.len() == 32 {
                Some((word_of(id_topic), word_of(t[3]->Uint_0)))
            } else {
                None
            }
        },
        None => None,
    }
}

pub open spec fn is_live(log: ChainLog) -> bool {
    log.removed == Some(false)
}

pub open spec fn topic(log: ChainLog, i: int) -> Seq<u8> {
    if 0 <= i < log.topics@.len() {
        log.topics@[i]@
    } else {
        Seq::empty()
    }
}

pub open spec fn is_job_created(log: ChainLog) -> bool {
    log.topics@.len() > 0 && log.topics@[0]@ == keccak_of(job_created_signature())
}

pub open spec fn is_job_responded(log: ChainLog) -> bool {
    log.topics@.len() > 0 && !is_job_created(log) && log.topics@[0]@ == keccak_of(job_responded_signature())
}

pub open spec fn log_created(log: ChainLog, me: Seq<u8>) -> Option<CreatedView> {
    created_of(topic(log, 1), abi_decoded(job_created_kinds(), log.data@), me)
}

pub open spec fn log_responded(log: ChainLog) -> Option<(Word, Word)> {
    responded_of(topic(log, 1), abi_decoded(job_responded_kinds(), log.data@))
}

/// A timeout watch for every created job; an execution too where the node is selected.
pub open spec fn tasks_for(c: CreatedView) -> Seq<TaskView> {
    let watch = TaskView::Timeout { job_id: c.job_id, deadline: c.deadline };
    if c.selected {
        seq![watch, TaskView::Execute {
            job_id: c.job_id,
            code_hash: "0x"@ + hex_lower(c.code_hash),
            code_inputs: c.code_inputs,
            deadline: c.deadline,
        }]
    } else {
        seq![watch]
    }
}

/// Whether an output count reaches the quorum.
pub open spec fn reaches_quorum(count: Word, quorum: u8) -> bool {
    count == (Word { hi: 0, lo: quorum as u128 })
}

/// Whether the dispatcher acts on a job log at all: live, with a block number
/// no older than the cursor.
pub open spec fn is_fresh(s: ListenerView, log: ChainLog) -> bool {
    is_live(log) && log.block_number is Some && log.block_number->0 >= s.cursor
}

/// The state after a job log, and the tasks it hands out.
pub open spec fn job_log_step(s: ListenerView, me: Seq<u8>, quorum: u8, log: ChainLog) -> (ListenerView, Seq<TaskView>) {
    if !is_fresh(s, log) {
        (s, Seq::empty())
    } else {
        let s1 = ListenerView { cursor: log.block_number->0, ..s };
        if is_job_created(log) {
            match log_created(log, me) {
                Some(c) => (ListenerView { running: s1.running.insert(c.job_id), ..s1 }, tasks_for(c)),
                None => (s1, Seq::empty()),
            }
        } else if is_job_responded(log) {
            match log_responded(log) {
                Some((id, count)) => if reaches_quorum(count, quorum) {
                    (ListenerView { running: s1.running.remove(id), ..s1 }, Seq::empty())
                } else {
                    (s1, Seq::empty())
                },
                None => (s1, Seq::empty()),
            }
        } else {
            (s1, Seq::empty())
        }
    }
}

/// The state after a registration log: a live one registers the node and
/// brings the cursor forward to its block.
pub open spec fn registration_step(s: ListenerView, log: ChainLog) -> ListenerView {
    if !is_live(log) {
        s
    } else {
        let b = match log.block_number {
            Some(b) => if b > s.cursor { b } else { s.cursor },
            None => s.cursor,
        };
        ListenerView { registered: true, cursor: b, ..s }
    }
}

/// The state after a deregistration log: a live one clears the registration.
pub open spec fn deregistration_step(s: ListenerView, log: ChainLog) -> ListenerView {
    if !is_live(log) {
        s
    } else {
        ListenerView { registered: false, ..s }
    }
}

/// Byte-for-byte equality.
pub fn bytes_eq(a: &[u8], b: &[u8]) -> (r: bool)
    ensures
        r == (a@ == b@),
{
    if a.len() != b.len() {
        return false;
    }
    let mut i: usize = 0;
    while i < a.len()
        invariant
            a@.len() == b@.len(),
            i <= a@.len(),
            forall|j: int| 0 <= j < i ==> a@[j] == b@[j],
        decreases a@.len() - i,
    {
        if a[i] != b[i] {
            return false;
        }
        i = i + 1;
    }
    proof {
        assert(a@ =~= b@);
    }
    true
}

fn copy_bytes(b: &Vec<u8>) -> (r: Vec<u8>)
    ensures
        r@ == b@,
{
    let r = b.clone();
    proof {
        assert(r@ =~= b@);
    }
    r
}

/// Whether `me` is among the entries of an address list that are addresses.
pub fn selected_in(addrs: &Vec<Option<Vec<u8>>>, me: &Vec<u8>) -> (r: bool)
    ensures
        r == is_selected(addrs@.map_values(|x: Option<Vec<u8>>| opt_bytes_view(x)), me@),
{
    let ghost v = addrs@.map_values(|x: Option<Vec<u8>>| opt_bytes_view(x));
    let mut i: usize = 0;
    while i < addrs.len()
        invariant
            i <= addrs@.len(),
            v == addrs@.map_values(|x: Option<Vec<u8>>| opt_bytes_view(x)),
            forall|j: int| 0 <= j < i ==> v[j] != Some(me@),
        decreases addrs@.len() - i,
    {
        match &addrs[i] {
            Some(a) => {
                if bytes_eq(a.as_slice(), me.as_slice()) {
                    assert(v[i as int] == Some(me@));
                    return true;
                }
            },
            None => {},
        }
        i = i + 1;
    }
    false
}

/// The job-created fields from an id topic and decoded tokens.
pub fn job_created_from_tokens(id_topic: &Vec<u8>, tokens: &Vec<AbiToken>, me: &Vec<u8>) -> (r: Option<JobCreated>)
    ensures
        opt_created_view(r) == created_of(id_topic@, Some(tokens_view(tokens@)), me@),
{
    if id_topic.len() != 32 || tokens.len() < 4 {
        return None;
    }
    let code_hash = match &tokens[0] {
        AbiToken::FixedBytes(b) => copy_bytes(b),
        _ => return None,
    };
    let code_inputs = match &tokens[1] {
        AbiToken::Bytes(b) => copy_bytes(b),
        _ => return None,
    };
    let deadline = match &tokens[2] {
        AbiToken::Uint(b) => {
            if b.len() != 32 {
                return None;
            }
            word_from_be_bytes(b.as_slice())
        },
        _ => return None,
    };
    let selected = match &tokens[3] {
        AbiToken::Array(a) => selected_in(a, me),
        _ => return None,
    };
    let job_id = word_from_be_bytes(id_topic.as_slice());
    Some(JobCreated { job_id, code_hash, code_inputs, deadline, selected })
}

/// The job id and output count from an id topic and decoded tokens.
pub fn job_responded_from_tokens(id_topic: &Vec<u8>, tokens: &Vec<AbiToken>) -> (r: Option<(Word, Word)>)
    ensures
        r == responded_of(id_topic@, Some(tokens_view(tokens@))),
{
    if id_topic.len() != 32 || tokens.len() < 4 {
        return None;
    }
    match &tokens[3] {
        AbiToken::Uint(b) => {
            if b.len() != 32 {
                return None;
            }
            Some((word_from_be_bytes(id_topic.as_slice()), word_from_be_bytes(b.as_slice())))
        },
        _ => None,
    }
}

fn id_topic(log: &ChainLog) -> (r: Vec<u8>)
    ensures
        r@ == topic(*log, 1),
{
    if log.topics.len() >= 2 {
        copy_bytes(&log.topics[1])
    } else {
        Vec::new()
    }
}

fn job_created_kinds_vec() -> (r: Vec<ParamKind>)
    ensures
        r@ == job_created_kinds(),
{
    let r = vec![ParamKind::FixedBytes(32), ParamKind::Bytes, ParamKind::Uint(256), ParamKind::AddressArray];
    assert(r@ =~= job_created_kinds());
    r
}

fn job_responded_kinds_vec() -> (r: Vec<ParamKind>)
    ensures
        r@ == job_responded_kinds(),
{
    let r = vec![ParamKind::Bytes, ParamKind::Uint(256), ParamKind::Uint(8), ParamKind::Uint(8)];
    assert(r@ =~= job_responded_kinds());
    r
}

/// Decodes a job-created log: its id topic and its data.
pub fn decode_job_created(log: &ChainLog, me: &Vec<u8>) -> (r: Option<JobCreated>)
    ensures
        opt_created_view(r) == log_created(*log, me@),
{
    let id = id_topic(log);
    let kinds = job_created_kinds_vec();
    match decode(&kinds, log.data.as_slice()) {
        Some(tokens) => job_created_from_tokens(&id, &tokens, me),
        None => None,
    }
}

/// Decodes a job-responded log: its job id and output count.
pub fn decode_job_responded(log: &ChainLog) -> (r: Option<(Word, Word)>)
    ensures
        r == log_responded(*log),
{
    let id = id_topic(log);
    let kinds = job_responded_kinds_vec();
    match decode(&kinds, log.data.as_slice()) {
        Some(tokens) => job_responded_from_tokens(&id, &tokens),
        None => None,
    }
}

/// The tasks for a created job.
pub fn tasks_for_created(c: &JobCreated) -> (r: Vec<JobTask>)
    ensures
        tasks_view(r@) == tasks_for(created_view(*c)),
{
    let mut r: Vec<JobTask> = Vec::new();
    r.push(JobTask::Timeout { job_id: c.job_id, deadline: c.deadline });
    if c.selected {
        let code_hash = prefixed_hex(c.code_hash.as_slice());
        r.push(JobTask::Execute {
            job_id: c.job_id,
            code_hash,
            code_inputs: copy_bytes(&c.code_inputs),
            deadline: c.deadline,
        });
    }
    assert(tasks_view(r@) =~= tasks_for(created_view(*c)));
    r
}

impl ListenerState {
    pub open spec fn view(&self) -> ListenerView {
        ListenerView { registered: self.registered, cursor: self.last_block_seen, running: self.running@ }
    }

    pub open spec fn wf(&self) -> bool {
        self.running.wf()
    }

    /// A fresh listener: unregistered, cursor at `starting_block`, no jobs.
    pub fn new(starting_block: u64) -> (r: ListenerState)
        ensures
            r.wf(),
            r@ == (ListenerView { registered: false, cursor: starting_block, running: Set::empty() }),
    {
        ListenerState { registered: false, last_block_seen: starting_block, running: RunningJobs::new() }
    }

    /// Applies a registration log; returns whether the node is now registered by it.
    pub fn handle_registration_log(&mut self, log: &ChainLog) -> (r: bool)
        ensures
            final(self)@ == registration_step(old(self)@, *log),
            final(self).running == old(self).running,
            r == is_live(*log),
    {
        match log.removed {
            Some(false) => {},
            _ => return false,
        }
        self.registered = true;
        match log.block_number {
            Some(b) => {
                if b > self.last_block_seen {
                    self.last_block_seen = b;
                }
            },
            None => {},
        }
        true
    }

    /// Applies a deregistration log; returns whether the dispatch loop stops.
    pub fn handle_deregistration_log(&mut self, log: &ChainLog) -> (r: bool)
        ensures
            final(self)@ == deregistration_step(old(self)@, *log),
            final(self).running == old(self).running,
            r == is_live(*log),
    {
        match log.removed {
            Some(false) => {
                self.registered = false;
                true
            },
            _ => false,
        }
    }

    /// Applies a job-lifecycle log and returns the tasks it hands out.
    pub fn handle_job_log(&mut self, config: &NodeConfig, log: &ChainLog) -> (r: Vec<JobTask>)
        requires
            old(self).wf(),
        ensures
            final(self).wf(),
            (final(self)@, tasks_view(r@)) == job_log_step(
                old(self)@,
                config.address@,
                config.num_selected_executors,
                *log,
            ),
            r@.len() == tasks_view(r@).len(),
    {
        let none: Vec<JobTask> = Vec::new();
        proof {
            assert(tasks_view(none@) =~= Seq::<TaskView>::empty());
        }
        match log.removed {
            Some(false) => {},
            _ => return none,
        }
        let block = match log.block_number {
            Some(b) => b,
            None => return none,
        };
        if block < self.last_block_seen {
            return none;
        }
        self.last_block_seen = block;
        if log.topics.len() == 0 {
            return none;
        }
        let created_sig = keccak("JobCreated(uint256,address,bytes32,bytes,uint256,address[])");
        let responded_sig = keccak("JobResponded(uint256,bytes,uint256,uint8,uint8)");
        if bytes_eq(log.topics[0].as_slice(), created_sig.as_slice()) {
            match decode_job_created(log, &config.address) {
                Some(c) => {
                    self.running.insert(c.job_id);
                    tasks_for_created(&c)
                },
                None => none,
            }
        } else if bytes_eq(log.topics[0].as_slice(), responded_sig.as_slice()) {
            match decode_job_responded(log) {
                Some((id, count)) => {
                    if count.hi == 0 && count.lo == config.num_selected_executors as u128 {
                        self.running.remove(id);
                    }
                    none
                },
                None => none,
            }
        } else {
            none
        }
    }
}

} // verus!

verus! {

/// What the reconnect loop does once a dispatch loop has ended.
#[derive(Clone, Copy, Debug, PartialEq, Eq, Structural)]
pub enum SupervisorStep {
    /// The node was deregistered: the listener ends.
    Exit,
    /// The streams ended: connect again and resume from the cursor.
    Reconnect,
}

impl ListenerState {
    /// Whether the registration gate must wait for a registration log.
    pub fn needs_registration(&self) -> (r: bool)
        ensures
            r == !self.registered,
    {
        !self.registered
    }

    /// The reconnect loop's decision after a dispatch loop has returned.
    pub fn after_dispatch(&self) -> (r: SupervisorStep)
        ensures
            r == (if self.registered { SupervisorStep::Reconnect } else { SupervisorStep::Exit }),
    {
        if self.registered {
            SupervisorStep::Reconnect
        } else {
            SupervisorStep::Exit
        }
    }
}

} // verus!
