//! The bounded command history behind the session service: entries for the
//! most recent shell commands, their captured output and exit codes, held in
//! a ring buffer that drops the oldest entry when full.

use vstd::prelude::*;
use ringbuffer::{AllocRingBuffer, RingBuffer};

verus! {

/// One recorded shell command: the command line, its captured output
/// (truncated to a cap), its exit code once known, and timing.
#[derive(Clone, Debug, PartialEq)]
pub struct CommandEntry {
    pub command: String,
    pub output: Vec<u8>,
    pub exit_code: Option<i32>,
    pub duration_ms: Option<u64>,
    pub started_at_ms: u64,
    pub max_output: usize,
}

impl CommandEntry {
    /// A fresh entry for a command that just began.
    pub fn new(command: String, max_output: usize, started_at_ms: u64) -> (r: CommandEntry)
        ensures
            r.command == command,
            r.output@ == Seq::<u8>::empty(),
            r.exit_code is None,
            r.duration_ms is None,
            r.started_at_ms == started_at_ms,
            r.max_output == max_output,
    {
        CommandEntry {
            command,
            output: Vec::new(),
            exit_code: None,
            duration_ms: None,
            started_at_ms,
            max_output,
        }
    }

    /// What the output becomes when `data` arrives: as much of it appended
    /// as the entry's cap leaves room for.
    pub open spec fn spec_output_after(self, data: Seq<u8>) -> Seq<u8> {
        let room = if self.max_output as int > self.output@.len() {
            self.max_output as int - self.output@.len()
        } else {
            0
        };
        let take = if data.len() <= room {
            data.len() as int
        } else {
            room
        };
        self.output@ + data.subrange(0, take)
    }

    /// Append captured output, keeping at most `max_output` bytes.
    pub fn add_output(&mut self, data: &[u8])
        ensures
            final(self).output@ == old(self).spec_output_after(data@),
            final(self).command == old(self).command,
            final(self).exit_code == old(self).exit_code,
            final(self).duration_ms == old(self).duration_ms,
            final(self).started_at_ms == old(self).started_at_ms,
            final(self).max_output == old(self).max_output,
    {
        let room = if self.output.len() >= self.max_output {
            0
        } else {
            self.max_output - self.output.len()
        };
        let take = if data.len() <= room {
            data.len()
        } else {
            room
        };
        proof {
            assert(self.output@ =~= old(self).output@ + data@.subrange(0, 0));
        }
        for i in 0..take
            invariant
                take <= data@.len(),
                self.output@ == old(self).output@ + data@.subrange(0, i as int),
                self.command == old(self).command,
                self.exit_code == old(self).exit_code,
                self.duration_ms == old(self).duration_ms,
                self.started_at_ms == old(self).started_at_ms,
                self.max_output == old(self).max_output,
        {
            self.output.push(data[i]);
            proof {
                assert(self.output@ =~= old(self).output@ + data@.subrange(0, i + 1));
            }
        }
    }

    /// Record the exit code and how long the command ran.
    pub fn set_exit_code(&mut self, code: i32, duration_ms: u64)
        ensures
            *final(self) == (CommandEntry {
                exit_code: Some(code),
                duration_ms: Some(duration_ms),
                ..*old(self)
            }),
    {
        self.exit_code = Some(code);
        self.duration_ms = Some(duration_ms);
    }

    /// Whether the command succeeded.
    pub open spec fn spec_is_success(&self) -> bool {
        self.exit_code == Some(0i32)
    }

    #[verifier::when_used_as_spec(spec_is_success)]
    pub fn is_success(&self) -> (r: bool)
        ensures
            r == self.spec_is_success(),
    {
        match self.exit_code {
            Some(c) => c == 0,
            None => false,
        }
    }
}

/// The ring buffer type of the `ringbuffer` crate, declared so values of it
/// can stand in fields and signatures; Verus sees nothing inside it.
#[verifier::external_type_specification]
#[verifier::external_body]
#[verifier::reject_recursive_types(T)]
pub struct ExAllocRingBuffer<T>(AllocRingBuffer<T>);

/// What a ring buffer of command entries holds, oldest first.
pub uninterp spec fn ring_entries(rb: &AllocRingBuffer<CommandEntry>) -> Seq<CommandEntry>;

/// The bound the ring buffer was created with.
pub uninterp spec fn ring_capacity(rb: &AllocRingBuffer<CommandEntry>) -> nat;

/// Relies on `AllocRingBuffer::new`: an empty buffer holding at most
/// `capacity` entries (it panics on a zero capacity, kept out by requires).
#[verifier::external_body]
fn ring_new(capacity: usize) -> (r: AllocRingBuffer<CommandEntry>)
    requires
        capacity >= 1,
    ensures
        ring_entries(&r) == Seq::<CommandEntry>::empty(),
        ring_capacity(&r) == capacity as nat,
{
    AllocRingBuffer::new(capacity)
}

/// Relies on `RingBuffer::enqueue`: appends the entry, dropping the oldest
/// one when the buffer is at capacity.
#[verifier::external_body]
fn ring_enqueue(rb: &mut AllocRingBuffer<CommandEntry>, e: CommandEntry)
    ensures
        ring_capacity(final(rb)) == ring_capacity(old(rb)),
        ring_entries(final(rb)) == (if ring_entries(old(rb)).len() >= ring_capacity(old(rb)) {
            ring_entries(old(rb)).drop_first().push(e)
        } else {
            ring_entries(old(rb)).push(e)
        }),
{
    let _ = rb.enqueue(e);
}

/// Relies on `RingBuffer::len`.
#[verifier::external_body]
fn ring_len(rb: &AllocRingBuffer<CommandEntry>) -> (r: usize)
    ensures
        r as nat == ring_entries(rb).len(),
{
    rb.len()
}

/// Relies on `RingBuffer::to_vec` and the derived field-wise `Clone` of
/// `CommandEntry`: the entries, oldest first.
#[verifier::external_body]
fn ring_to_vec(rb: &AllocRingBuffer<CommandEntry>) -> (r: Vec<CommandEntry>)
    ensures
        r@ == ring_entries(rb),
{
    rb.to_vec()
}

/// Relies on `RingBuffer::clear`.
#[verifier::external_body]
fn ring_clear(rb: &mut AllocRingBuffer<CommandEntry>)
    ensures
        ring_capacity(final(rb)) == ring_capacity(old(rb)),
        ring_entries(final(rb)) == Seq::<CommandEntry>::empty(),
{
    rb.clear();
}

/// The bounded history: a ring buffer of entries, oldest first, dropping the
/// oldest when the bound is reached.
pub struct CommandHistory {
    ring: AllocRingBuffer<CommandEntry>,
}

impl CommandHistory {
    /// The entries, oldest first.
    pub closed spec fn view(&self) -> Seq<CommandEntry> {
        ring_entries(&self.ring)
    }

    /// The bound the history was created with.
    pub closed spec fn spec_capacity(&self) -> nat {
        ring_capacity(&self.ring)
    }

    /// The history never holds more entries than its bound, and the bound is
    /// positive.
    pub open spec fn wf(&self) -> bool {
        &&& self@.len() <= self.spec_capacity()
        &&& self.spec_capacity() >= 1
    }

    pub fn new(size: usize) -> (r: CommandHistory)
        requires
            size >= 1,
        ensures
            r.wf(),
            r@ == Seq::<CommandEntry>::empty(),
            r.spec_capacity() == size as nat,
    {
        CommandHistory { ring: ring_new(size) }
    }

    /// How many entries are held.
    pub fn len(&self) -> (r: usize)
        ensures
            r as nat == self@.len(),
    {
        ring_len(&self.ring)
    }

    /// Append an entry, dropping the oldest one when full.
    pub fn enqueue(&mut self, e: CommandEntry)
        requires
            old(self).wf(),
        ensures
            final(self).wf(),
            final(self).spec_capacity() == old(self).spec_capacity(),
            final(self)@ == (if old(self)@.len() == old(self).spec_capacity() {
                old(self)@.drop_first().push(e)
            } else {
                old(self)@.push(e)
            }),
    {
        ring_enqueue(&mut self.ring, e);
    }

    /// Drop everything.
    pub fn clear(&mut self)
        ensures
            final(self).spec_capacity() == old(self).spec_capacity(),
            final(self)@ == Seq::<CommandEntry>::empty(),
    {
        ring_clear(&mut self.ring);
    }

    /// A copy of the entries, oldest first.
    pub fn entries(&self) -> (r: Vec<CommandEntry>)
        ensures
            r@ == self@,
    {
        ring_to_vec(&self.ring)
    }

    /// A copy of the most recent `n` entries, oldest of them first.
    pub fn last_entries(&self, n: usize) -> (r: Vec<CommandEntry>)
        ensures
            r@ == (if n as int >= self@.len() {
                self@
            } else {
                self@.skip(self@.len() - n as int)
            }),
    {
        let mut all = ring_to_vec(&self.ring);
        let total = all.len();
        let start = if n >= total {
            0
        } else {
            total - n
        };
        let out = all.split_off(start);
        proof {
            if n as int >= self@.len() {
                assert(out@ =~= self@);
            } else {
                assert(out@ =~= self@.skip(self@.len() - n as int));
            }
        }
        out
    }

    /// Mutate the most recent entry, if any: append output to it, but only
    /// while its exit code is still unknown.
    pub fn add_output_to_last(&mut self, data: &[u8])
        requires
            old(self).wf(),
        ensures
            final(self).wf(),
            final(self).spec_capacity() == old(self).spec_capacity(),
            final(self)@ == (if old(self)@.len() > 0 && old(self)@.last().exit_code is None {
                old(self)@.update(
                    old(self)@.len() - 1,
                    CommandEntry {
                        output: final(self)@.last().output,
                        ..old(self)@.last()
                    },
                )
            } else {
                old(self)@
            }),
            old(self)@.len() > 0 && old(self)@.last().exit_code is None
                ==> final(self)@.last().output@ == old(self)@.last().spec_output_after(data@),
    {
        let mut all = ring_to_vec(&self.ring);
        let total = all.len();
        if total == 0 {
            return ;
        }
        let needs_update = all[total - 1].exit_code.is_none();
        if !needs_update {
            return ;
        }
        let mut last = all.pop().unwrap();
        last.add_output(data);
        all.push(last);
        proof {
            assert(all@ =~= old(self)@.update(
                old(self)@.len() - 1,
                CommandEntry { output: all@.last().output, ..old(self)@.last() },
            ));
        }
        self.rebuild(all);
    }

    /// The duration a finished command gets: the clock now less its start,
    /// or zero if the clock ran backwards.
    pub open spec fn spec_duration_of(entry: CommandEntry, now_ms: u64) -> u64 {
        if now_ms >= entry.started_at_ms {
            (now_ms - entry.started_at_ms) as u64
        } else {
            0u64
        }
    }

    /// Mutate the most recent entry, if any: record its exit code, and its
    /// duration as measured against the given clock value.
    pub fn set_last_exit(&mut self, code: i32, now_ms: u64)
        requires
            old(self).wf(),
        ensures
            final(self).wf(),
            final(self).spec_capacity() == old(self).spec_capacity(),
            final(self)@ == (if old(self)@.len() > 0 {
                old(self)@.update(
                    old(self)@.len() - 1,
                    CommandEntry {
                        exit_code: Some(code),
                        duration_ms: Some(Self::spec_duration_of(old(self)@.last(), now_ms)),
                        ..old(self)@.last()
                    },
                )
            } else {
                old(self)@
            }),
    {
        let mut all = ring_to_vec(&self.ring);
        let total = all.len();
        if total == 0 {
            return ;
        }
        let mut last = all.pop().unwrap();
        let duration_ms = if now_ms >= last.started_at_ms {
            now_ms - last.started_at_ms
        } else {
            0
        };
        last.set_exit_code(code, duration_ms);
        all.push(last);
        proof {
            assert(all@ =~= old(self)@.update(
                old(self)@.len() - 1,
                CommandEntry {
                    exit_code: Some(code),
                    duration_ms: Some(Self::spec_duration_of(old(self)@.last(), now_ms)),
                    ..old(self)@.last()
                },
            ));
        }
        self.rebuild(all);
    }

    /// Replace the held entries with the given ones (at most the bound).
    fn rebuild(&mut self, entries: Vec<CommandEntry>)
        requires
            old(self).wf(),
            entries@.len() <= old(self).spec_capacity(),
        ensures
            final(self).wf(),
            final(self).spec_capacity() == old(self).spec_capacity(),
            final(self)@ == entries@,
    {
        ring_clear(&mut self.ring);
        let ghost orig = entries@;
        let mut remaining = entries;
        proof {
            assert(orig.skip(0) =~= orig);
            assert(ring_entries(&self.ring) =~= orig.subrange(0, 0));
        }
        while remaining.len() > 0
            invariant
                ring_capacity(&self.ring) == old(self).spec_capacity(),
                orig.len() <= old(self).spec_capacity(),
                remaining@.len() <= orig.len(),
                remaining@ == orig.skip(orig.len() - remaining@.len()),
                ring_entries(&self.ring) == orig.subrange(0, orig.len() - remaining@.len()),
            decreases remaining.len(),
        {
            let ghost rem0 = remaining@;
            let ghost done = orig.len() - rem0.len();
            let e = remaining.remove(0);
            proof {
                assert(rem0 == orig.skip(done));
                assert(orig.skip(done)[0] == orig[done]);
                assert(e == orig[done]);
                assert(remaining@ == rem0.remove(0));
                assert(remaining@ =~= orig.skip(done + 1));
                assert(ring_entries(&self.ring).len() < ring_capacity(&self.ring));
            }
            ring_enqueue(&mut self.ring, e);
            proof {
                assert(ring_entries(&self.ring) =~= orig.subrange(0, done + 1));
            }
        }
        proof {
            assert(ring_entries(&self.ring) =~= orig);
        }
    }
}

} // verus!
