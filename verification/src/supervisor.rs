//! The process supervisor: job messages, the input-channel registry and
//! the forwarding decisions of the streaming threads.
//!
//! A job is an externally spawned process supervised in the background.
//! Its output arrives at the multiplexer as tagged messages; its input
//! channel is kept in a registry keyed by the caller-chosen ident, and
//! the entry is dropped when the process terminates. A spawn failure is
//! never reported synchronously: it is turned into a stderr message and
//! an exit message delivered like any other completion.

use vstd::prelude::*;

verus! {

/// A message from a supervised job to the multiplexer thread.
#[derive(Debug)]
pub enum JobMessage {
    /// A chunk read from the process's standard output.
    Stdout(Vec<u8>),
    /// A chunk read from the process's standard error.
    Stderr(Vec<u8>),
    /// The process terminated with this status code.
    Exit(i32),
}

/// Numeric tag of an exit message in the completion callback.
pub const KIND_EXIT: i32 = 0;

/// Numeric tag of a standard-output message in the completion callback.
pub const KIND_STDOUT: i32 = 1;

/// Numeric tag of a standard-error message in the completion callback.
pub const KIND_STDERR: i32 = 2;

/// The numeric tag under which a message's kind is handed to the
/// engine's completion callback.
pub fn message_kind(m: &JobMessage) -> (r: i32)
    ensures
        r == KIND_EXIT <==> m is Exit,
        r == KIND_STDOUT <==> m is Stdout,
        r == KIND_STDERR <==> m is Stderr,
{
    match m {
        JobMessage::Exit(_) => KIND_EXIT,
        JobMessage::Stdout(_) => KIND_STDOUT,
        JobMessage::Stderr(_) => KIND_STDERR,
    }
}

/// The exit code reported for a spawn that failed: the OS error code
/// when one exists, else one.
pub open spec fn failure_exit_code(os_error: Option<i32>) -> i32 {
    match os_error {
        Some(code) => code,
        None => 1,
    }
}

/// The two messages synthesized when a spawn fails: the failure
/// description as a stderr chunk, then an exit message with the OS
/// error code, or one when the OS gave none. A spawn therefore never
/// fails synchronously from the engine's point of view.
pub fn spawn_failure_messages(ident: i32, description: Vec<u8>, os_error: Option<i32>) -> (r: Vec<
    (JobMessage, i32),
>)
    ensures
        r@.len() == 2,
        r@[0].1 == ident,
        r@[1].1 == ident,
        r@[0].0 matches JobMessage::Stderr(d) && d@ == description@,
        r@[1].0 matches JobMessage::Exit(c) && c == failure_exit_code(os_error),
{
    let code = match os_error {
        Some(code) => code,
        None => 1,
    };
    let mut r: Vec<(JobMessage, i32)> = Vec::new();
    r.push((JobMessage::Stderr(description), ident));
    r.push((JobMessage::Exit(code), ident));
    r
}

/// Which stream of a job a forwarding thread serves.
#[derive(Clone, Copy, Debug, PartialEq, Eq, Structural)]
pub enum JobStream {
    Stdout,
    Stderr,
}

/// What one blocking read from a job's pipe produced, as the forwarding
/// thread reports it.
#[derive(Debug)]
pub enum PipeRead {
    /// The read returned this non-empty chunk.
    Data(Vec<u8>),
    /// The read returned zero bytes; end of pipe and process exit are
    /// not distinguishable here.
    Empty,
    /// The read was interrupted by a signal.
    Interrupted,
    /// The read failed for any other reason.
    Failed,
}

/// What a forwarding thread does after one pipe read.
#[derive(Debug)]
pub enum StreamStep {
    /// Enqueue this message for the multiplexer.
    Emit((JobMessage, i32)),
    /// Wait briefly, then read again: a zero-byte read may mean no data
    /// yet rather than termination.
    Pause,
    /// Read again at once.
    Retry,
    /// Stop forwarding this stream; the job is otherwise unaffected.
    Stop,
}

/// Decides one step of a forwarding thread: data is forwarded as a
/// message of the stream's kind under the job's ident, a zero-byte read
/// pauses, an interruption retries, and any other failure quietly ends
/// the stream.
pub fn stream_step(stream: JobStream, ident: i32, read: PipeRead) -> (r: StreamStep)
    ensures
        read matches PipeRead::Data(d) ==> (r matches StreamStep::Emit(m) && m.1 == ident && (
        stream == JobStream::Stdout ==> (m.0 matches JobMessage::Stdout(b) && b@ == d@)) && (stream
            == JobStream::Stderr ==> (m.0 matches JobMessage::Stderr(b) && b@ == d@))),
        read is Empty ==> r is Pause,
        read is Interrupted ==> r is Retry,
        read is Failed ==> r is Stop,
{
    match read {
        PipeRead::Data(d) => {
            let message = match stream {
                JobStream::Stdout => JobMessage::Stdout(d),
                JobStream::Stderr => JobMessage::Stderr(d),
            };
            StreamStep::Emit((message, ident))
        },
        PipeRead::Empty => StreamStep::Pause,
        PipeRead::Interrupted => StreamStep::Retry,
        PipeRead::Failed => StreamStep::Stop,
    }
}

/// The first `n` bytes of a read buffer: the chunk a forwarding thread
/// sends on when a read filled only part of the buffer.
pub fn chunk_prefix(buf: &Vec<u8>, n: usize) -> (r: Vec<u8>)
    requires
        n <= buf@.len(),
    ensures
        r@ == buf@.take(n as int),
{
    let mut r: Vec<u8> = Vec::new();
    let mut i: usize = 0;
    while i < n
        invariant
            i <= n <= buf@.len(),
            r@.len() == i,
            forall|j: int| 0 <= j < i ==> r@[j] == buf@[j],
        decreases n - i,
    {
        r.push(buf[i]);
        i = i + 1;
    }
    proof {
        assert(r@ =~= buf@.take(n as int));
    }
    r
}

/// The map an entry list denotes: each pair in order, a later pair
/// overriding an earlier one with the same ident.
pub open spec fn entries_map<C>(s: Seq<(i32, C)>) -> Map<i32, C>
    decreases s.len(),
{
    if s.len() == 0 {
        Map::empty()
    } else {
        entries_map(s.drop_last()).insert(s.last().0, s.last().1)
    }
}

/// No ident appears twice in an entry list.
pub open spec fn unique_idents<C>(s: Seq<(i32, C)>) -> bool {
    forall|i: int, j: int| 0 <= i < j < s.len() ==> s[i].0 != s[j].0
}

proof fn lemma_entries_map_absent<C>(s: Seq<(i32, C)>, k: i32)
    requires
        forall|i: int| 0 <= i < s.len() ==> s[i].0 != k,
    ensures
        !entries_map(s).contains_key(k),
    decreases s.len(),
{
    if s.len() > 0 {
        lemma_entries_map_absent(s.drop_last(), k);
    }
}

proof fn lemma_entries_map_index<C>(s: Seq<(i32, C)>, idx: int)
    requires
        unique_idents(s),
        0 <= idx < s.len(),
    ensures
        entries_map(s).contains_key(s[idx].0),
        entries_map(s)[s[idx].0] == s[idx].1,
    decreases s.len(),
{
    if idx < s.len() - 1 {
        lemma_entries_map_index(s.drop_last(), idx);
        assert(s[idx].0 != s[s.len() - 1].0);
    }
}

proof fn lemma_entries_map_remove<C>(s: Seq<(i32, C)>, idx: int)
    requires
        unique_idents(s),
        0 <= idx < s.len(),
    ensures
        entries_map(s.remove(idx)) == entries_map(s).remove(s[idx].0),
    decreases s.len(),
{
    let k = s[idx].0;
    if idx == s.len() - 1 {
        assert(s.remove(idx) =~= s.drop_last());
        lemma_entries_map_absent(s.drop_last(), k);
        assert(entries_map(s).remove(k) =~= entries_map(s.drop_last()));
    } else {
        lemma_entries_map_remove(s.drop_last(), idx);
        assert(s.remove(idx).drop_last() =~= s.drop_last().remove(idx));
        assert(s.remove(idx).last() == s.last());
        assert(s[idx].0 != s[s.len() - 1].0);
        assert(entries_map(s).remove(k) =~= entries_map(s.drop_last()).remove(k).insert(
            s.last().0,
            s.last().1,
        ));
    }
}

/// The registry of live jobs: the input channel of each spawned process
/// still running, keyed by the caller-chosen ident. Viewed as the map
/// from ident to channel.
#[derive(Debug)]
pub struct JobRegistry<C> {
    entries: Vec<(i32, C)>,
}

impl<C> View for JobRegistry<C> {
    type V = Map<i32, C>;

    closed spec fn view(&self) -> Map<i32, C> {
        entries_map(self.entries@)
    }
}

impl<C> JobRegistry<C> {
    /// Well-formedness: no ident has two entries. Construction
    /// establishes it and every method keeps it.
    pub closed spec fn wf(&self) -> bool {
        unique_idents(self.entries@)
    }

    /// An empty registry: no job is live.
    pub fn new() -> (r: Self)
        ensures
            r.wf(),
            r@ == Map::<i32, C>::empty(),
    {
        JobRegistry { entries: Vec::new() }
    }

    /// The index of an ident's entry, if it has one.
    fn position(&self, ident: i32) -> (r: Option<usize>)
        ensures
            r matches Some(idx) ==> idx < self.entries@.len() && self.entries@[idx as int].0
                == ident,
            r is None ==> forall|i: int| 0 <= i < self.entries@.len() ==> self.entries@[i].0
                != ident,
    {
        let mut i: usize = 0;
        while i < self.entries.len()
            invariant
                i <= self.entries@.len(),
                forall|j: int| 0 <= j < i ==> self.entries@[j].0 != ident,
            decreases self.entries@.len() - i,
        {
            if self.entries[i].0 == ident {
                return Some(i);
            }
            i = i + 1;
        }
        None
    }

    /// Registers the input channel of a newly spawned job under its
    /// ident. An ident already present is overwritten: the registry
    /// keeps only the most recently registered channel for it.
    pub fn register(&mut self, ident: i32, channel: C)
        requires
            old(self).wf(),
        ensures
            final(self).wf(),
            final(self)@ == old(self)@.insert(ident, channel),
    {
        let ghost s0 = self.entries@;
        match self.position(ident) {
            Some(idx) => {
                let _replaced = self.entries.remove(idx);
                proof {
                    lemma_entries_map_remove(s0, idx as int);
                    assert forall|i: int| 0 <= i < self.entries@.len() implies self.entries@[i].0
                        != ident by {
                        if i < idx {
                            assert(self.entries@[i] == s0[i]);
                        } else {
                            assert(self.entries@[i] == s0[i + 1]);
                        }
                    }
                }
            },
            None => {},
        }
        let ghost s1 = self.entries@;
        proof {
            lemma_entries_map_absent(s1, ident);
        }
        self.entries.push((ident, channel));
        proof {
            assert(self.entries@.drop_last() =~= s1);
            assert(entries_map(self.entries@) =~= entries_map(s0).insert(ident, channel));
        }
    }

    /// Drops a job's entry when its process terminates, handing back its
    /// channel; an ident with no entry yields nothing and changes
    /// nothing.
    pub fn deregister(&mut self, ident: i32) -> (r: Option<C>)
        requires
            old(self).wf(),
        ensures
            final(self).wf(),
            final(self)@ == old(self)@.remove(ident),
            r is Some <==> old(self)@.contains_key(ident),
            r matches Some(c) ==> c == old(self)@[ident],
    {
        let ghost s0 = self.entries@;
        match self.position(ident) {
            Some(idx) => {
                proof {
                    lemma_entries_map_index(s0, idx as int);
                    lemma_entries_map_remove(s0, idx as int);
                }
                let removed = self.entries.remove(idx);
                Some(removed.1)
            },
            None => {
                proof {
                    lemma_entries_map_absent(s0, ident);
                    assert(entries_map(s0).remove(ident) =~= entries_map(s0));
                }
                None
            },
        }
    }

    /// The input channel of a live job: the channel registered for the
    /// ident, or nothing when no job under that ident is live. Writing
    /// to an unknown ident therefore reaches no process and is refused.
    pub fn lookup(&self, ident: i32) -> (r: Option<&C>)
        requires
            self.wf(),
        ensures
            r is Some <==> self@.contains_key(ident),
            r matches Some(c) ==> *c == self@[ident],
    {
        match self.position(ident) {
            Some(idx) => {
                proof {
                    lemma_entries_map_index(self.entries@, idx as int);
                }
                Some(&self.entries[idx].1)
            },
            None => {
                proof {
                    lemma_entries_map_absent(self.entries@, ident);
                }
                None
            },
        }
    }
}

/// Registering twice under one ident keeps only the second channel:
/// whatever the registry held, a registration under `ident` followed by
/// another replaces the first channel entirely.
pub proof fn lemma_register_last_writer_wins<C>(m: Map<i32, C>, ident: i32, first: C, second: C)
    ensures
        m.insert(ident, first).insert(ident, second) == m.insert(ident, second),
        m.insert(ident, first).insert(ident, second)[ident] == second,
{
    assert(m.insert(ident, first).insert(ident, second) =~= m.insert(ident, second));
}

} // verus!
