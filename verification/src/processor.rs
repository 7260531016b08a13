//! A bounded, per-chat message queue with batch extraction, content
//! sanitisation and running-average processing metrics. The queue is an
//! association list keyed by chat id, with the keys kept unique.

use crate::primitives::chars_to_string;
use crate::primitives::clock_elapsed_nanos;
use crate::primitives::clock_now;
use crate::primitives::now_unix_seconds;
use vstd::prelude::*;
use vstd::std_specs::iter::IteratorSpec;
use vstd::string::StrSliceExecFns;

verus! {

/// One chat message.
#[derive(Debug, Clone)]
pub struct Message {
    pub id: String,
    pub chat_id: String,
    pub sender_id: String,
    pub content: String,
    pub timestamp: u64,
    pub message_type: MessageType,
}

/// What kind of payload a message carries.
#[derive(Debug, Clone, Copy, PartialEq, Eq, Structural)]
pub enum MessageType {
    Text,
    Image,
    File,
    Voice,
    Video,
    System,
}

/// Counters the processor keeps while it runs. Times are in nanoseconds.
#[derive(Debug, Clone, Copy, PartialEq, Eq, Structural)]
pub struct ProcessingMetrics {
    pub messages_processed: u64,
    pub average_processing_time: u64,
    pub peak_memory_usage: u64,
    pub errors_count: u64,
}

/// The first entry for `key`, if any. With unique keys, the entry for `key`.
pub open spec fn chat_lookup(q: Seq<(String, Vec<Message>)>, key: Seq<char>) -> Option<
    Seq<Message>,
>
    decreases q.len(),
{
    if q.len() == 0 {
        None
    } else if q[0].0@ == key {
        Some(q[0].1@)
    } else {
        chat_lookup(q.drop_first(), key)
    }
}

/// No two entries share a key.
pub open spec fn unique_keys(q: Seq<(String, Vec<Message>)>) -> bool {
    forall|i: int, j: int| 0 <= i < j < q.len() ==> (#[trigger] q[i].0@) != (#[trigger] q[j].0@)
}

/// Replacement of every leftmost, non-overlapping occurrence of a pattern,
/// scanning left to right.
pub open spec fn replace_spec(s: Seq<char>, pat: Seq<char>, to: Seq<char>) -> Seq<char>
    recommends
        pat.len() > 0,
    decreases s.len(),
    when pat.len() > 0
{
    if s.len() < pat.len() {
        s
    } else if s.subrange(0, pat.len() as int) == pat {
        to + replace_spec(s.skip(pat.len() as int), pat, to)
    } else {
        seq![s[0]] + replace_spec(s.skip(1), pat, to)
    }
}

/// The string's characters, gathered into a vector.
fn str_to_chars(text: &str) -> (r: Vec<char>)
    ensures
        r@ == text@,
{
    broadcast use vstd::string::axiom_spec_iter, vstd::string::next_postcondition;

    let mut it = text.chars();
    let mut out: Vec<char> = Vec::new();
    loop
        invariant
            it.obeys_prophetic_iter_laws(),
            it.decrease() is Some,
            out@ + it.remaining() == text@,
        ensures
            out@ == text@,
        decreases it.decrease()->0,
    {
        match it.next() {
            Some(c) => {
                out.push(c);
            },
            None => {
                proof {
                    assert(it.remaining().len() == 0);
                    assert(out@ + it.remaining() =~= out@);
                }
                break ;
            },
        }
    }
    out
}

/// Whether the pattern occurs at position `at`.
fn match_at(s: &Vec<char>, pat: &Vec<char>, at: usize) -> (b: bool)
    requires
        at + pat@.len() <= s@.len(),
    ensures
        b <==> s@.subrange(at as int, at as int + pat@.len() as int) == pat@,
{
    let m = pat.len();
    let n = s.len();
    let mut j: usize = 0;
    while j < m
        invariant
            j <= m,
            m == pat@.len(),
            n == s@.len(),
            at + m <= n,
            forall|t: int| 0 <= t < j ==> s@[at + t] == pat@[t],
        decreases m - j,
    {
        if s[at + j] != pat[j] {
            proof {
                assert(s@.subrange(at as int, at as int + m as int)[j as int] != pat@[j as int]);
            }
            return false;
        }
        j = j + 1;
    }
    proof {
        assert(s@.subrange(at as int, at as int + m as int) =~= pat@);
    }
    true
}

/// Rewrites every leftmost, non-overlapping occurrence of `pat` to `to`.
fn replace_chars(s: &Vec<char>, pat: &Vec<char>, to: &Vec<char>) -> (r: Vec<char>)
    requires
        pat@.len() > 0,
    ensures
        r@ == replace_spec(s@, pat@, to@),
{
    let m = pat.len();
    let n = s.len();
    let mut out: Vec<char> = Vec::new();
    let mut i: usize = 0;
    proof {
        assert(s@.skip(0) =~= s@);
        assert(Seq::<char>::empty() + replace_spec(s@, pat@, to@) =~= replace_spec(s@, pat@, to@));
    }
    while i < n
        invariant
            i <= n,
            n == s@.len(),
            m == pat@.len(),
            m > 0,
            replace_spec(s@, pat@, to@) == out@ + replace_spec(s@.skip(i as int), pat@, to@),
        decreases n - i,
    {
        let ghost tail = s@.skip(i as int);
        let ghost out0 = out@;
        if m <= n - i && match_at(s, pat, i) {
            let mut j: usize = 0;
            while j < to.len()
                invariant
                    j <= to@.len(),
                    out@ == out0 + to@.take(j as int),
                decreases to@.len() - j,
            {
                let c = to[j];
                out.push(c);
                proof {
                    assert((out0 + to@.take(j as int)).push(to@[j as int]) =~= out0 + to@.take(
                        j as int + 1,
                    ));
                }
                j = j + 1;
            }
            proof {
                assert(to@.take(to@.len() as int) =~= to@);
                assert(tail.subrange(0, m as int) =~= s@.subrange(i as int, i as int + m as int));
                assert(replace_spec(tail, pat@, to@) == to@ + replace_spec(
                    tail.skip(m as int),
                    pat@,
                    to@,
                ));
                assert(tail.skip(m as int) =~= s@.skip(i as int + m as int));
                assert(out0 + (to@ + replace_spec(s@.skip(i as int + m as int), pat@, to@)) =~= (
                out0 + to@) + replace_spec(s@.skip(i as int + m as int), pat@, to@));
            }
            i = i + m;
        } else {
            let c = s[i];
            out.push(c);
            proof {
                if i + m <= s@.len() {
                    assert(tail.subrange(0, m as int) =~= s@.subrange(i as int, i as int + m as int));
                    assert(tail.subrange(0, m as int) != pat@);
                    assert(replace_spec(tail, pat@, to@) == seq![tail[0]] + replace_spec(
                        tail.skip(1),
                        pat@,
                        to@,
                    ));
                } else {
                    assert(tail.len() < m as int);
                    assert(replace_spec(tail, pat@, to@) == tail);
                    assert(replace_spec(tail.skip(1), pat@, to@) == tail.skip(1));
                    assert(tail =~= seq![tail[0]] + tail.skip(1));
                }
                assert(tail[0] == s@[i as int]);
                assert(tail.skip(1) =~= s@.skip(i as int + 1));
                assert(out0 + (seq![s@[i as int]] + replace_spec(s@.skip(i as int + 1), pat@, to@))
                    =~= out0.push(s@[i as int]) + replace_spec(s@.skip(i as int + 1), pat@, to@));
            }
            i = i + 1;
        }
    }
    proof {
        assert(s@.skip(i as int).len() == 0);
        assert(replace_spec(s@.skip(i as int), pat@, to@) == s@.skip(i as int));
        assert(out@ + s@.skip(i as int) =~= out@);
    }
    out
}

/// Content truncation: at most 10000 characters survive.
pub open spec fn truncate_spec(s: Seq<char>) -> Seq<char> {
    if s.len() <= 10000 {
        s
    } else {
        s.subrange(0, 10000)
    }
}

/// Content sanitisation: the script-tag and injection fragments are rewritten
/// or removed, in this fixed order.
pub open spec fn sanitize_spec(s: Seq<char>) -> Seq<char> {
    replace_spec(
        replace_spec(
            replace_spec(
                replace_spec(replace_spec(s, "<script"@, "&lt;script"@), "</script>"@, "&lt;/script&gt;"@),
                "javascript:"@,
                ""@,
            ),
            "DROP TABLE"@,
            ""@,
        ),
        "SELECT *"@,
        ""@,
    )
}

/// How a processed message relates to the queued one: same identity and
/// kind, content truncated and sanitised. The timestamp is rewritten from
/// the clock and is not constrained.
pub open spec fn processed_from(p: Message, orig: Message) -> bool {
    &&& p.id@ == orig.id@
    &&& p.chat_id@ == orig.chat_id@
    &&& p.sender_id@ == orig.sender_id@
    &&& p.message_type == orig.message_type
    &&& p.content@ == sanitize_spec(truncate_spec(orig.content@))
}

/// One metrics step: one more message, the running average extended with an
/// elapsed time, the peak raised to the current memory usage if above it.
pub open spec fn metrics_updated(m: ProcessingMetrics, elapsed_nanos: u64, mem: u64) -> ProcessingMetrics {
    let n = if m.messages_processed == u64::MAX {
        m.messages_processed as int
    } else {
        m.messages_processed + 1
    };
    ProcessingMetrics {
        messages_processed: n as u64,
        average_processing_time: ((m.average_processing_time * (n - 1) + elapsed_nanos) / n) as u64,
        peak_memory_usage: if mem > m.peak_memory_usage {
            mem
        } else {
            m.peak_memory_usage
        },
        errors_count: m.errors_count,
    }
}

/// Saturating addition on `u64`.
pub open spec fn sat_add(a: u64, b: u64) -> u64 {
    if a + b > u64::MAX {
        u64::MAX
    } else {
        (a + b) as u64
    }
}

/// The approximate memory charge of one chat: 1024 bytes per queued message,
/// saturating.
pub open spec fn chat_mem(n_msgs: nat) -> u64 {
    if n_msgs * 1024 > u64::MAX {
        u64::MAX
    } else {
        (n_msgs * 1024) as u64
    }
}

/// The approximate memory usage of the whole queue: the saturating sum of
/// the per-chat charges.
pub open spec fn mem_usage(q: Seq<(String, Vec<Message>)>) -> u64
    decreases q.len(),
{
    if q.len() == 0 {
        0
    } else {
        sat_add(chat_mem(q[0].1@.len()), mem_usage(q.drop_first()))
    }
}

/// A lookup that returns `None` found no entry with the key at all.
proof fn lemma_lookup_none_no_key(q: Seq<(String, Vec<Message>)>, key: Seq<char>)
    requires
        chat_lookup(q, key) is None,
    ensures
        forall|i: int| 0 <= i < q.len() ==> (#[trigger] q[i].0@) != key,
    decreases q.len(),
{
    if q.len() > 0 {
        lemma_lookup_none_no_key(q.drop_first(), key);
        assert forall|i: int| 0 <= i < q.len() implies (#[trigger] q[i].0@) != key by {
            if i > 0 {
                assert(q.drop_first()[i - 1] == q[i]);
            }
        }
    }
}

/// Skipping a prefix that does not hold the key leaves the lookup unchanged.
proof fn lemma_lookup_skip(q: Seq<(String, Vec<Message>)>, key: Seq<char>, i: int)
    requires
        0 <= i <= q.len(),
        forall|j: int| 0 <= j < i ==> (#[trigger] q[j].0@) != key,
    ensures
        chat_lookup(q, key) == chat_lookup(q.skip(i), key),
    decreases i,
{
    if i == 0 {
        assert(q.skip(0) =~= q);
    } else {
        assert(chat_lookup(q, key) == chat_lookup(q.drop_first(), key));
        assert forall|j: int| 0 <= j < i - 1 implies (#[trigger] q.drop_first()[j].0@) != key by {
            assert(q.drop_first()[j] == q[j + 1]);
        }
        lemma_lookup_skip(q.drop_first(), key, i - 1);
        assert(q.drop_first().skip(i - 1) =~= q.skip(i));
    }
}

/// Replacing the entry at `i` by one with the same key changes exactly that
/// key's lookup, and keeps the keys unique.
proof fn lemma_lookup_update(
    q: Seq<(String, Vec<Message>)>,
    i: int,
    pair: (String, Vec<Message>),
)
    requires
        unique_keys(q),
        0 <= i < q.len(),
        pair.0@ == q[i].0@,
    ensures
        unique_keys(q.update(i, pair)),
        forall|k: Seq<char>|
            #[trigger] chat_lookup(q.update(i, pair), k) == if k == pair.0@ {
                Some(pair.1@)
            } else {
                chat_lookup(q, k)
            },
    decreases q.len(),
{
    let upd = q.update(i, pair);
    assert forall|a: int, b: int| 0 <= a < b < upd.len() implies (#[trigger] upd[a].0@) != (#[trigger] upd[b].0@) by {
        assert(upd[a].0@ == q[a].0@ && upd[b].0@ == q[b].0@);
    }
    if i == 0 {
        assert forall|k: Seq<char>|
            #[trigger] chat_lookup(upd, k) == if k == pair.0@ {
                Some(pair.1@)
            } else {
                chat_lookup(q, k)
            } by {
            assert(upd[0] == pair);
            if k == pair.0@ {
            } else {
                assert(upd.drop_first() =~= q.drop_first());
            }
        }
    } else {
        assert(upd[0] == q[0]);
        assert forall|a: int, b: int|
            0 <= a < b < q.drop_first().len() implies (#[trigger] q.drop_first()[a].0@) != (
        #[trigger] q.drop_first()[b].0@) by {
            assert(q.drop_first()[a] == q[a + 1] && q.drop_first()[b] == q[b + 1]);
        }
        assert(q.drop_first()[i - 1] == q[i]);
        lemma_lookup_update(q.drop_first(), i - 1, pair);
        assert forall|k: Seq<char>|
            #[trigger] chat_lookup(upd, k) == if k == pair.0@ {
                Some(pair.1@)
            } else {
                chat_lookup(q, k)
            } by {
            assert(upd.drop_first() =~= q.drop_first().update(i - 1, pair));
            if k == pair.0@ {
                assert(q[0].0@ != q[i].0@);
                assert(chat_lookup(upd, k) == chat_lookup(upd.drop_first(), k));
            } else {
                if k == q[0].0@ {
                } else {
                    assert(chat_lookup(upd, k) == chat_lookup(upd.drop_first(), k));
                }
            }
        }
    }
}

/// Appending an entry whose key is absent changes exactly that key's lookup,
/// and keeps the keys unique.
proof fn lemma_lookup_push(q: Seq<(String, Vec<Message>)>, pair: (String, Vec<Message>))
    requires
        unique_keys(q),
        chat_lookup(q, pair.0@) is None,
    ensures
        unique_keys(q.push(pair)),
        forall|k: Seq<char>|
            #[trigger] chat_lookup(q.push(pair), k) == if k == pair.0@ {
                Some(pair.1@)
            } else {
                chat_lookup(q, k)
            },
    decreases q.len(),
{
    lemma_lookup_none_no_key(q, pair.0@);
    let ext = q.push(pair);
    assert forall|a: int, b: int| 0 <= a < b < ext.len() implies (#[trigger] ext[a].0@) != (#[trigger] ext[b].0@) by {
        if b < q.len() {
            assert(ext[a] == q[a] && ext[b] == q[b]);
        } else {
            assert(ext[b] == pair && ext[a] == q[a]);
        }
    }
    if q.len() == 0 {
        assert forall|k: Seq<char>|
            #[trigger] chat_lookup(ext, k) == if k == pair.0@ {
                Some(pair.1@)
            } else {
                chat_lookup(q, k)
            } by {
            assert(ext[0] == pair);
            if k == pair.0@ {
                assert(ext[0].0@ == k);
                assert(chat_lookup(ext, k) == Some(ext[0].1@));
            } else {
                assert(ext.drop_first() =~= Seq::<(String, Vec<Message>)>::empty());
                assert(chat_lookup(ext, k) == chat_lookup(ext.drop_first(), k));
            }
        }
    } else {
        assert forall|a: int, b: int|
            0 <= a < b < q.drop_first().len() implies (#[trigger] q.drop_first()[a].0@) != (
        #[trigger] q.drop_first()[b].0@) by {
            assert(q.drop_first()[a] == q[a + 1] && q.drop_first()[b] == q[b + 1]);
        }
        lemma_lookup_push(q.drop_first(), pair);
        assert forall|k: Seq<char>|
            #[trigger] chat_lookup(ext, k) == if k == pair.0@ {
                Some(pair.1@)
            } else {
                chat_lookup(q, k)
            } by {
            assert(ext[0] == q[0]);
            assert(ext.drop_first() =~= q.drop_first().push(pair));
            if k == pair.0@ {
                assert(q[0].0@ != pair.0@);
                assert(chat_lookup(ext, k) == chat_lookup(ext.drop_first(), k));
            } else {
                if k == q[0].0@ {
                } else {
                    assert(chat_lookup(ext, k) == chat_lookup(ext.drop_first(), k));
                }
            }
        }
    }
}

/// The per-chat message queue with its metrics and limits.
pub struct RustMessageProcessor {
    message_queue: Vec<(String, Vec<Message>)>,
    processing_metrics: ProcessingMetrics,
    max_queue_size: usize,
    batch_size: usize,
}

impl RustMessageProcessor {
    /// The queue entries, in insertion order.
    pub closed spec fn queue(&self) -> Seq<(String, Vec<Message>)> {
        self.message_queue@
    }

    /// The metrics as they stand.
    pub closed spec fn metrics(&self) -> ProcessingMetrics {
        self.processing_metrics
    }

    /// The per-chat capacity.
    pub closed spec fn max_size(&self) -> usize {
        self.max_queue_size
    }

    /// The greatest number of messages one batch extracts.
    pub closed spec fn batch_limit(&self) -> usize {
        self.batch_size
    }

    /// The queue's invariant: chat keys are unique.
    pub open spec fn wf(&self) -> bool {
        unique_keys(self.queue())
    }

    /// An empty processor with the given per-chat capacity and batch size.
    pub fn new(max_queue_size: usize, batch_size: usize) -> (r: Self)
        ensures
            r.wf(),
            r.queue().len() == 0,
            forall|k: Seq<char>| #[trigger] chat_lookup(r.queue(), k) is None,
            r.metrics() == (ProcessingMetrics {
                messages_processed: 0,
                average_processing_time: 0,
                peak_memory_usage: 0,
                errors_count: 0,
            }),
            r.max_size() == max_queue_size,
            r.batch_limit() == batch_size,
    {
        RustMessageProcessor {
            message_queue: Vec::new(),
            processing_metrics: ProcessingMetrics {
                messages_processed: 0,
                average_processing_time: 0,
                peak_memory_usage: 0,
                errors_count: 0,
            },
            max_queue_size,
            batch_size,
        }
    }

    /// The index of the chat's entry, if the chat is present.
    fn find_chat(&self, key: &String) -> (r: Option<usize>)
        ensures
            r matches Some(i) ==> i < self.queue().len() && self.queue()[i as int].0@ == key@
                && chat_lookup(self.queue(), key@) == Some(self.queue()[i as int].1@),
            r is None ==> chat_lookup(self.queue(), key@) is None,
    {
        let ghost q = self.queue();
        let mut i: usize = 0;
        while i < self.message_queue.len()
            invariant
                0 <= i <= q.len(),
                q == self.queue(),
                forall|j: int| 0 <= j < i ==> (#[trigger] q[j].0@) != key@,
            decreases q.len() - i,
        {
            if self.message_queue[i].0.eq(key) {
                proof {
                    lemma_lookup_skip(q, key@, i as int);
                    assert(q.skip(i as int)[0] == q[i as int]);
                }
                return Some(i);
            }
            i = i + 1;
        }
        proof {
            lemma_lookup_skip(q, key@, q.len() as int);
            assert(q.skip(q.len() as int) =~= Seq::<(String, Vec<Message>)>::empty());
        }
        None
    }

    /// Appends a message to its chat's queue, rejecting it when the chat is
    /// full; a successful call also takes one metrics step.
    pub fn queue_message(&mut self, message: Message) -> (r: Result<(), String>)
        requires
            old(self).wf(),
        ensures
            final(self).wf(),
            final(self).max_size() == old(self).max_size(),
            final(self).batch_limit() == old(self).batch_limit(),
            ({
                let cur = chat_lookup(old(self).queue(), message.chat_id@);
                let cur_len = match cur {
                    Some(s) => s.len(),
                    None => 0,
                };
                if cur_len >= old(self).max_size() {
                    &&& r matches Err(e) && e@ == "Queue is full"@
                    &&& final(self).queue() == old(self).queue()
                    &&& final(self).metrics() == old(self).metrics()
                } else {
                    &&& r is Ok
                    &&& chat_lookup(final(self).queue(), message.chat_id@) == Some(
                        match cur {
                            Some(s) => s.push(message),
                            None => seq![message],
                        },
                    )
                    &&& forall|k: Seq<char>|
                        k != message.chat_id@ ==> #[trigger] chat_lookup(final(self).queue(), k)
                            == chat_lookup(old(self).queue(), k)
                    &&& exists|t: u64|
                        final(self).metrics() == #[trigger] metrics_updated(
                            old(self).metrics(),
                            t,
                            mem_usage(final(self).queue()),
                        )
                }
            }),
    {
        let start = clock_now();
        let ghost q0 = self.queue();
        match self.find_chat(&message.chat_id) {
            Some(i) => {
                if self.message_queue[i].1.len() >= self.max_queue_size {
                    return Err("Queue is full".to_owned());
                }
                let mut pair = self.message_queue.remove(i);
                pair.1.push(message);
                proof {
                    lemma_lookup_update(q0, i as int, pair);
                }
                self.message_queue.insert(i, pair);
                proof {
                    assert(self.queue() =~= q0.update(i as int, pair));
                }
            },
            None => {
                if self.max_queue_size == 0 {
                    return Err("Queue is full".to_owned());
                }
                let ghost msg0 = message;
                let key = message.chat_id.clone();
                let mut singleton: Vec<Message> = Vec::new();
                singleton.push(message);
                let pair = (key, singleton);
                proof {
                    lemma_lookup_push(q0, pair);
                    assert(pair.1@ =~= seq![msg0]);
                }
                self.message_queue.push(pair);
            },
        }
        let elapsed = clock_elapsed_nanos(&start);
        self.update_metrics(elapsed);
        proof {
            assert(self.metrics() == metrics_updated(
                old(self).metrics(),
                elapsed,
                mem_usage(self.queue()),
            ));
        }
        Ok(())
    }

    /// Extracts and processes the next batch of a chat's queue: up to
    /// `batch_limit` messages leave the front, each comes back truncated,
    /// sanitised and restamped, and one metrics step is taken.
    pub fn process_batch(&mut self, chat_id: &str) -> (r: Result<Vec<Message>, String>)
        requires
            old(self).wf(),
        ensures
            final(self).wf(),
            final(self).max_size() == old(self).max_size(),
            final(self).batch_limit() == old(self).batch_limit(),
            chat_lookup(old(self).queue(), chat_id@) is None ==> {
                &&& r matches Err(e) && e@ == "Chat not found"@
                &&& final(self).queue() == old(self).queue()
                &&& final(self).metrics() == old(self).metrics()
            },
            chat_lookup(old(self).queue(), chat_id@) matches Some(msgs) ==> {
                let m = if old(self).batch_limit() <= msgs.len() {
                    old(self).batch_limit() as int
                } else {
                    msgs.len() as int
                };
                &&& r matches Ok(v) && v@.len() == m && (forall|j: int|
                    0 <= j < m ==> #[trigger] processed_from(v@[j], msgs[j]))
                &&& chat_lookup(final(self).queue(), chat_id@) == Some(msgs.skip(m))
                &&& forall|k: Seq<char>|
                    k != chat_id@ ==> #[trigger] chat_lookup(final(self).queue(), k) == chat_lookup(
                        old(self).queue(),
                        k,
                    )
                &&& exists|t: u64|
                    final(self).metrics() == #[trigger] metrics_updated(
                        old(self).metrics(),
                        t,
                        mem_usage(final(self).queue()),
                    )
            },
    {
        let start = clock_now();
        let ghost q0 = self.queue();
        let key = chat_id.to_owned();
        let i = match self.find_chat(&key) {
            Some(i) => i,
            None => {
                return Err("Chat not found".to_owned());
            },
        };
        let mut pair = self.message_queue.remove(i);
        let ghost msgs0 = pair.1@;
        let batch_size = if self.batch_size <= pair.1.len() {
            self.batch_size
        } else {
            pair.1.len()
        };
        let ghost key0 = pair.0@;
        let mut batch: Vec<Message> = Vec::new();
        while batch.len() < batch_size
            invariant
                batch@.len() <= batch_size <= msgs0.len(),
                pair.0@ == key0,
                pair.1@ =~= msgs0.skip(batch@.len() as int),
                batch@ =~= msgs0.take(batch@.len() as int),
            decreases batch_size - batch.len(),
        {
            let ghost done = batch@.len() as int;
            let next = pair.1.remove(0);
            batch.push(next);
            proof {
                assert(msgs0.skip(done).drop_first() =~= msgs0.skip(done + 1));
                assert(msgs0.skip(done)[0] == msgs0[done]);
                assert(msgs0.take(done).push(msgs0[done]) =~= msgs0.take(done + 1));
            }
        }
        proof {
            lemma_lookup_update(q0, i as int, pair);
        }
        self.message_queue.insert(i, pair);
        proof {
            assert(self.queue() =~= q0.update(i as int, pair));
        }
        let ghost batchv = batch@;
        let processed = self.process_messages(batch);
        proof {
            assert forall|j: int| 0 <= j < batchv.len() implies #[trigger] processed_from(
                processed@[j],
                msgs0[j],
            ) by {
                assert(batchv[j] == msgs0[j]);
                assert(processed_from(processed@[j], batchv[j]));
            }
        }
        let elapsed = clock_elapsed_nanos(&start);
        self.update_metrics(elapsed);
        proof {
            assert(self.metrics() == metrics_updated(
                old(self).metrics(),
                elapsed,
                mem_usage(self.queue()),
            ));
        }
        Ok(processed)
    }

    /// Truncates, sanitises and restamps each message of a batch, in order.
    fn process_messages(&self, messages: Vec<Message>) -> (r: Vec<Message>)
        ensures
            r@.len() == messages@.len(),
            forall|j: int|
                0 <= j < messages@.len() ==> #[trigger] processed_from(r@[j], messages@[j]),
    {
        let ghost all = messages@;
        let mut rest = messages;
        let mut processed: Vec<Message> = Vec::new();
        while rest.len() > 0
            invariant
                processed@.len() + rest@.len() == all.len(),
                rest@ =~= all.skip(processed@.len() as int),
                forall|j: int|
                    0 <= j < processed@.len() ==> #[trigger] processed_from(processed@[j], all[j]),
            decreases rest@.len(),
        {
            let ghost done = processed@.len() as int;
            let m = rest.remove(0);
            proof {
                assert(all.skip(done)[0] == all[done]);
                assert(all.skip(done).drop_first() =~= all.skip(done + 1));
            }
            let sanitized = if m.content.unicode_len() > 10000 {
                let shortened = m.content.as_str().substring_char(0, 10000);
                self.sanitize_content(shortened)
            } else {
                self.sanitize_content(m.content.as_str())
            };
            let fresh = Message {
                id: m.id,
                chat_id: m.chat_id,
                sender_id: m.sender_id,
                content: sanitized,
                timestamp: now_unix_seconds(),
                message_type: m.message_type,
            };
            processed.push(fresh);
        }
        proof {
            assert(all.skip(processed@.len() as int).len() == 0);
        }
        processed
    }

    /// Rewrites the dangerous fragments of a content string.
    pub fn sanitize_content(&self, content: &str) -> (r: String)
        ensures
            r@ == sanitize_spec(content@),
    {
        proof {
            reveal_strlit("<script");
            reveal_strlit("</script>");
            reveal_strlit("javascript:");
            reveal_strlit("DROP TABLE");
            reveal_strlit("SELECT *");
        }
        let cs = str_to_chars(content);
        let s1 = replace_chars(&cs, &str_to_chars("<script"), &str_to_chars("&lt;script"));
        let s2 = replace_chars(&s1, &str_to_chars("</script>"), &str_to_chars("&lt;/script&gt;"));
        let s3 = replace_chars(&s2, &str_to_chars("javascript:"), &str_to_chars(""));
        let s4 = replace_chars(&s3, &str_to_chars("DROP TABLE"), &str_to_chars(""));
        let s5 = replace_chars(&s4, &str_to_chars("SELECT *"), &str_to_chars(""));
        chars_to_string(&s5)
    }

    /// One metrics step with the given elapsed time; nothing else changes.
    fn update_metrics(&mut self, elapsed_nanos: u64)
        ensures
            final(self).metrics() == metrics_updated(
                old(self).metrics(),
                elapsed_nanos,
                mem_usage(old(self).queue()),
            ),
            final(self).queue() == old(self).queue(),
            final(self).max_size() == old(self).max_size(),
            final(self).batch_limit() == old(self).batch_limit(),
    {
        let mem = self.get_memory_usage();
        let m = self.processing_metrics;
        let n: u64 = if m.messages_processed == u64::MAX {
            u64::MAX
        } else {
            m.messages_processed + 1
        };
        proof {
            assert((m.average_processing_time as int) * ((n - 1) as int) + (elapsed_nanos as int)
                <= (u64::MAX as int) * (n as int)) by (nonlinear_arith)
                requires
                    m.average_processing_time <= u64::MAX,
                    elapsed_nanos <= u64::MAX,
                    n >= 1,
            ;
            assert((u64::MAX as int) * (n as int) <= (u64::MAX as int) * (u64::MAX as int))
                by (nonlinear_arith)
                requires
                    1 <= n <= u64::MAX,
            ;
            assert((u64::MAX as int) * (u64::MAX as int) < u128::MAX as int);
        }
        let total: u128 = (m.average_processing_time as u128) * ((n - 1) as u128) + (
        elapsed_nanos as u128);
        proof {
            vstd::arithmetic::div_mod::lemma_div_is_ordered(
                total as int,
                (u64::MAX as int) * (n as int),
                n as int,
            );
            vstd::arithmetic::div_mod::lemma_div_multiples_vanish(u64::MAX as int, n as int);
        }
        let avg: u64 = (total / (n as u128)) as u64;
        self.processing_metrics = ProcessingMetrics {
            messages_processed: n,
            average_processing_time: avg,
            peak_memory_usage: if mem > m.peak_memory_usage {
                mem
            } else {
                m.peak_memory_usage
            },
            errors_count: m.errors_count,
        };
    }

    /// The approximate memory charge of the whole queue, saturating.
    fn get_memory_usage(&self) -> (r: u64)
        ensures
            r == mem_usage(self.queue()),
    {
        let ghost q = self.queue();
        let mut acc: u64 = 0;
        let mut i: usize = self.message_queue.len();
        proof {
            assert(q.skip(q.len() as int).len() == 0);
        }
        while i > 0
            invariant
                0 <= i <= q.len(),
                q == self.queue(),
                acc == mem_usage(q.skip(i as int)),
            decreases i,
        {
            i = i - 1;
            let len64: u64 = self.message_queue[i].1.len() as u64;
            let charge: u64 = if len64 > u64::MAX / 1024 {
                u64::MAX
            } else {
                len64 * 1024
            };
            proof {
                assert(charge == chat_mem(q[i as int].1@.len())) by (nonlinear_arith)
                    requires
                        charge == if len64 > u64::MAX / 1024 {
                            u64::MAX
                        } else {
                            (len64 * 1024) as u64
                        },
                        len64 == q[i as int].1@.len(),
                ;
            }
            acc = if charge > u64::MAX - acc {
                u64::MAX
            } else {
                charge + acc
            };
            proof {
                assert(q.skip(i as int)[0] == q[i as int]);
                assert(q.skip(i as int).drop_first() =~= q.skip(i as int + 1));
            }
        }
        proof {
            assert(q.skip(0) =~= q);
        }
        acc
    }

    /// A copy of the metrics as they stand.
    pub fn get_metrics(&self) -> (r: ProcessingMetrics)
        ensures
            r == self.metrics(),
    {
        self.processing_metrics
    }

    /// Whether a chat's queue is empty; an absent chat counts as empty.
    pub fn is_queue_empty(&self, chat_id: &str) -> (r: Result<bool, String>)
        ensures
            r matches Ok(b) && (b <==> match chat_lookup(self.queue(), chat_id@) {
                Some(s) => s.len() == 0,
                None => true,
            }),
    {
        let key = chat_id.to_owned();
        match self.find_chat(&key) {
            Some(i) => Ok(self.message_queue[i].1.len() == 0),
            None => Ok(true),
        }
    }
}

} // verus!
