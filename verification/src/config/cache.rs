//! The cache of generated commit messages, keyed by the hash of the diff they
//! were generated for.
use vstd::prelude::*;

use std::time::{Duration, SystemTime, SystemTimeError, UNIX_EPOCH};

use crate::text::copy_str;

verus! {

/// How long a cached message stays usable: seven days, in seconds.
pub const CACHE_EXPIRY_SECONDS: u64 = 604800;

/// One cached commit message.
#[derive(Debug)]
pub struct CommitMsg {
    hash: u64,
    commit_msg: String,
    timestamp: u64,
}

/// The mathematical value of a [`CommitMsg`].
pub struct CommitMsgView {
    pub hash: u64,
    pub msg: Seq<char>,
    pub timestamp: u64,
}

impl View for CommitMsg {
    type V = CommitMsgView;

    closed spec fn view(&self) -> CommitMsgView {
        CommitMsgView { hash: self.hash, msg: self.commit_msg@, timestamp: self.timestamp }
    }
}

/// A message is expired when more than `expiry_seconds` have passed since it was stored.
pub open spec fn spec_is_expired(m: CommitMsgView, now: u64, expiry_seconds: u64) -> bool {
    now - m.timestamp > expiry_seconds
}

impl CommitMsg {
    /// A message for the diff with hash `hash`, stored at `timestamp`.
    pub fn new(hash: u64, commit_msg: String, timestamp: u64) -> (r: Self)
        ensures
            r@ == (CommitMsgView { hash, msg: commit_msg@, timestamp }),
    {
        CommitMsg { hash, commit_msg, timestamp }
    }

    /// Whether more than `expiry_seconds` have passed between storing and `now`.
    pub fn is_expired(&self, now: u64, expiry_seconds: u64) -> (r: bool)
        requires
            self@.timestamp <= now,
        ensures
            r == spec_is_expired(self@, now, expiry_seconds),
    {
        let elapsed = now - self.timestamp;
        elapsed > expiry_seconds
    }

    /// The message text.
    pub fn get_msg(&self) -> (r: String)
        ensures
            r@ == self@.msg,
    {
        copy_str(self.commit_msg.as_str())
    }

    /// The hash of the diff this message was generated for.
    pub fn hash(&self) -> (r: u64)
        ensures
            r == self@.hash,
    {
        self.hash
    }

    /// When this message was stored, in seconds since the Unix epoch.
    pub fn timestamp(&self) -> (r: u64)
        ensures
            r == self@.timestamp,
    {
        self.timestamp
    }

    /// A copy of this message.
    pub fn duplicate(&self) -> (r: CommitMsg)
        ensures
            r@ == self@,
    {
        CommitMsg {
            hash: self.hash,
            commit_msg: copy_str(self.commit_msg.as_str()),
            timestamp: self.timestamp,
        }
    }
}

/// The messages of `s` that satisfy `keep`, in order.
pub open spec fn keep_if(s: Seq<CommitMsgView>, keep: spec_fn(CommitMsgView) -> bool) -> Seq<
    CommitMsgView,
>
    decreases s.len(),
{
    if s.len() == 0 {
        s
    } else if keep(s[0]) {
        seq![s[0]] + keep_if(s.drop_first(), keep)
    } else {
        keep_if(s.drop_first(), keep)
    }
}

/// The messages of `s` stored for another diff than `hash`.
pub open spec fn without_hash(s: Seq<CommitMsgView>, hash: u64) -> Seq<CommitMsgView> {
    keep_if(s, |m: CommitMsgView| m.hash != hash)
}

/// The messages of `s` that are not expired at `now`.
pub open spec fn unexpired(s: Seq<CommitMsgView>, now: u64, expiry_seconds: u64) -> Seq<
    CommitMsgView,
> {
    keep_if(s, |m: CommitMsgView| !spec_is_expired(m, now, expiry_seconds))
}

/// The first message of `s` stored for the diff with hash `hash`.
pub open spec fn lookup(s: Seq<CommitMsgView>, hash: u64) -> Option<CommitMsgView>
    decreases s.len(),
{
    if s.len() == 0 {
        None
    } else if s[0].hash == hash {
        Some(s[0])
    } else {
        lookup(s.drop_first(), hash)
    }
}

/// What storing a message does to the list: earlier messages for its diff go,
/// and it is appended.
pub open spec fn spec_store(s: Seq<CommitMsgView>, m: CommitMsgView) -> Seq<CommitMsgView> {
    without_hash(s, m.hash).push(m)
}

/// Filtering distributes over concatenation.
pub proof fn lemma_keep_if_concat(
    a: Seq<CommitMsgView>,
    b: Seq<CommitMsgView>,
    keep: spec_fn(CommitMsgView) -> bool,
)
    ensures
        keep_if(a + b, keep) == keep_if(a, keep) + keep_if(b, keep),
    decreases a.len(),
{
    if a.len() == 0 {
        assert(a + b =~= b);
        assert(keep_if(a, keep) + keep_if(b, keep) =~= keep_if(b, keep));
    } else {
        assert((a + b).drop_first() =~= a.drop_first() + b);
        lemma_keep_if_concat(a.drop_first(), b, keep);
        if keep(a[0]) {
            assert(seq![a[0]] + (keep_if(a.drop_first(), keep) + keep_if(b, keep)) =~= (seq![a[0]]
                + keep_if(a.drop_first(), keep)) + keep_if(b, keep));
        }
    }
}

/// Every message that a filter keeps satisfies it, and it keeps only messages of the list.
pub proof fn lemma_keep_if_members(s: Seq<CommitMsgView>, keep: spec_fn(CommitMsgView) -> bool)
    ensures
        forall|i: int| 0 <= i < keep_if(s, keep).len() ==> keep(#[trigger] keep_if(s, keep)[i]),
        keep_if(s, keep).len() <= s.len(),
    decreases s.len(),
{
    if s.len() > 0 {
        lemma_keep_if_members(s.drop_first(), keep);
        let rest = keep_if(s.drop_first(), keep);
        if keep(s[0]) {
            assert forall|i: int| 0 <= i < keep_if(s, keep).len() implies keep(
                #[trigger] keep_if(s, keep)[i],
            ) by {
                if i > 0 {
                    assert(keep_if(s, keep)[i] == rest[i - 1]);
                }
            }
        }
    }
}

/// A lookup in a concatenation finds the match of the first part, else that of the second.
pub proof fn lemma_lookup_concat(a: Seq<CommitMsgView>, b: Seq<CommitMsgView>, hash: u64)
    ensures
        lookup(a + b, hash) == (if lookup(a, hash) is Some {
            lookup(a, hash)
        } else {
            lookup(b, hash)
        }),
    decreases a.len(),
{
    if a.len() == 0 {
        assert(a + b =~= b);
    } else {
        assert((a + b).drop_first() =~= a.drop_first() + b);
        assert((a + b)[0] == a[0]);
        lemma_lookup_concat(a.drop_first(), b, hash);
    }
}

/// Removing the messages of one diff leaves the lookups of other diffs as they were,
/// and leaves none for that diff.
pub proof fn lemma_lookup_without(s: Seq<CommitMsgView>, removed: u64, hash: u64)
    ensures
        lookup(without_hash(s, removed), hash) == (if hash == removed {
            None
        } else {
            lookup(s, hash)
        }),
    decreases s.len(),
{
    if s.len() > 0 {
        lemma_lookup_without(s.drop_first(), removed, hash);
        let rest = without_hash(s.drop_first(), removed);
        if s[0].hash != removed {
            let w = seq![s[0]] + rest;
            assert(without_hash(s, removed) == w);
            assert(w[0] == s[0]);
            assert(w.drop_first() =~= rest);
        } else {
            assert(without_hash(s, removed) == rest);
        }
    }
}

/// The cache of commit messages.
#[derive(Debug)]
pub struct Cache {
    commit_msgs: Vec<CommitMsg>,
}

/// The views of a list of messages.
pub open spec fn msgs_view(v: Seq<CommitMsg>) -> Seq<CommitMsgView> {
    v.map_values(|m: CommitMsg| m@)
}

impl View for Cache {
    type V = Seq<CommitMsgView>;

    closed spec fn view(&self) -> Seq<CommitMsgView> {
        msgs_view(self.commit_msgs@)
    }
}

impl Default for Cache {
    fn default() -> (r: Cache)
        ensures
            r@ == Seq::<CommitMsgView>::empty(),
    {
        let r = Cache { commit_msgs: Vec::new() };
        assert(r@ =~= Seq::<CommitMsgView>::empty());
        r
    }
}

/// Why the current time cannot be read.
#[derive(Clone, Copy, Debug, PartialEq, Eq, Structural)]
pub enum ClockError {
    /// The system clock is set before the Unix epoch.
    BeforeEpoch,
}

impl Cache {
    /// A cache holding `msgs`, in order.
    pub fn from_messages(msgs: Vec<CommitMsg>) -> (r: Cache)
        ensures
            r@ == msgs_view(msgs@),
    {
        Cache { commit_msgs: msgs }
    }

    /// The cached messages, in order.
    pub fn messages(&self) -> (r: &Vec<CommitMsg>)
        ensures
            msgs_view(r@) == self@,
    {
        &self.commit_msgs
    }

    /// The first message cached for the diff with hash `hash`.
    pub fn get_commit_message(&self, hash: u64) -> (r: Option<&CommitMsg>)
        ensures
            match lookup(self@, hash) {
                Some(m) => r matches Some(c) && c@ == m,
                None => r is None,
            },
    {
        let ghost s = self@;
        let mut i: usize = 0;
        assert(s.skip(0) =~= s);
        while i < self.commit_msgs.len()
            invariant
                i <= self.commit_msgs.len(),
                s == msgs_view(self.commit_msgs@),
                lookup(s, hash) == lookup(s.skip(i as int), hash),
            decreases self.commit_msgs.len() - i,
        {
            assert(s.skip(i as int)[0] == self.commit_msgs@[i as int]@);
            if self.commit_msgs[i].hash == hash {
                return Some(&self.commit_msgs[i]);
            }
            assert(s.skip(i as int).drop_first() =~= s.skip(i + 1));
            i = i + 1;
        }
        None
    }

    /// Store a message: earlier messages for the same diff are dropped and the
    /// new one is appended.
    pub fn store_commit_message(&mut self, commit_msg: CommitMsg)
        ensures
            final(self)@ == spec_store(old(self)@, commit_msg@),
    {
        let hash = commit_msg.hash;
        let ghost s = self@;
        let ghost keep = |m: CommitMsgView| m.hash != hash;
        let mut kept: Vec<CommitMsg> = Vec::new();
        let mut i: usize = 0;
        while i < self.commit_msgs.len()
            invariant
                i <= self.commit_msgs.len(),
                s == msgs_view(self.commit_msgs@),
                keep == (|m: CommitMsgView| m.hash != hash),
                msgs_view(kept@) == keep_if(s.take(i as int), keep),
            decreases self.commit_msgs.len() - i,
        {
            let m = &self.commit_msgs[i];
            assert(s[i as int] == m@);
            proof {
                assert(s.take(i + 1) =~= s.take(i as int) + seq![s[i as int]]);
                lemma_keep_if_concat(s.take(i as int), seq![s[i as int]], keep);
                assert(seq![s[i as int]].drop_first() =~= Seq::<CommitMsgView>::empty());
            }
            let ghost before = kept@;
            if m.hash != hash {
                assert(keep(s[i as int]));
                assert(keep_if(Seq::<CommitMsgView>::empty(), keep) =~= Seq::<CommitMsgView>::empty());
                kept.push(m.duplicate());
                assert(msgs_view(kept@) =~= msgs_view(before) + seq![s[i as int]]);
            } else {
                assert(!keep(s[i as int]));
                assert(keep_if(Seq::<CommitMsgView>::empty(), keep) =~= Seq::<CommitMsgView>::empty());
                assert(keep_if(seq![s[i as int]], keep) =~= Seq::<CommitMsgView>::empty());
                assert(msgs_view(kept@) =~= msgs_view(before) + Seq::<CommitMsgView>::empty());
            }
            i = i + 1;
        }
        assert(s.take(i as int) =~= s);
        let ghost before = msgs_view(kept@);
        kept.push(commit_msg);
        assert(msgs_view(kept@) =~= before.push(commit_msg@));
        self.commit_msgs = kept;
    }

    /// Drop the messages that are expired at `now`.
    pub fn remove_expired(&mut self, now: u64, expiry_seconds: u64)
        requires
            forall|i: int| 0 <= i < old(self)@.len() ==> (#[trigger] old(self)@[i]).timestamp <= now,
        ensures
            final(self)@ == unexpired(old(self)@, now, expiry_seconds),
    {
        let ghost s = self@;
        let ghost keep = |m: CommitMsgView| !spec_is_expired(m, now, expiry_seconds);
        let mut kept: Vec<CommitMsg> = Vec::new();
        let mut i: usize = 0;
        while i < self.commit_msgs.len()
            invariant
                i <= self.commit_msgs.len(),
                s == msgs_view(self.commit_msgs@),
                keep == (|m: CommitMsgView| !spec_is_expired(m, now, expiry_seconds)),
                forall|k: int| 0 <= k < s.len() ==> (#[trigger] s[k]).timestamp <= now,
                msgs_view(kept@) == keep_if(s.take(i as int), keep),
            decreases self.commit_msgs.len() - i,
        {
            let m = &self.commit_msgs[i];
            assert(s[i as int] == m@);
            proof {
                assert(s.take(i + 1) =~= s.take(i as int) + seq![s[i as int]]);
                lemma_keep_if_concat(s.take(i as int), seq![s[i as int]], keep);
                assert(seq![s[i as int]].drop_first() =~= Seq::<CommitMsgView>::empty());
            }
            let ghost before = kept@;
            if !m.is_expired(now, expiry_seconds) {
                assert(keep(s[i as int]));
                assert(keep_if(Seq::<CommitMsgView>::empty(), keep) =~= Seq::<CommitMsgView>::empty());
                kept.push(m.duplicate());
                assert(msgs_view(kept@) =~= msgs_view(before) + seq![s[i as int]]);
            } else {
                assert(!keep(s[i as int]));
                assert(keep_if(Seq::<CommitMsgView>::empty(), keep) =~= Seq::<CommitMsgView>::empty());
                assert(keep_if(seq![s[i as int]], keep) =~= Seq::<CommitMsgView>::empty());
                assert(msgs_view(kept@) =~= msgs_view(before) + Seq::<CommitMsgView>::empty());
            }
            i = i + 1;
        }
        assert(s.take(i as int) =~= s);
        self.commit_msgs = kept;
    }
}

/// Reading back what was stored: after storing a message, a lookup of its
/// diff's hash finds exactly that message, and lookups of other hashes find
/// what they found before.
pub proof fn lemma_store_then_lookup(s: Seq<CommitMsgView>, m: CommitMsgView, hash: u64)
    ensures
        lookup(spec_store(s, m), hash) == (if hash == m.hash {
            Some(m)
        } else {
            lookup(s, hash)
        }),
{
    lemma_lookup_concat(without_hash(s, m.hash), seq![m], hash);
    lemma_lookup_without(s, m.hash, hash);
    assert(without_hash(s, m.hash).push(m) =~= without_hash(s, m.hash) + seq![m]);
    assert(seq![m].drop_first() =~= Seq::<CommitMsgView>::empty());
    assert(lookup(Seq::<CommitMsgView>::empty(), hash) is None);
    assert(lookup(seq![m], hash) == (if m.hash == hash {
        Some(m)
    } else {
        None::<CommitMsgView>
    }));
}

/// After storing a message, the cache holds exactly one message for its diff.
pub proof fn lemma_store_unique(s: Seq<CommitMsgView>, m: CommitMsgView)
    ensures
        forall|i: int|
            0 <= i < spec_store(s, m).len() && (#[trigger] spec_store(s, m)[i]).hash == m.hash ==> i
                == spec_store(s, m).len() - 1,
{
    let keep = |x: CommitMsgView| x.hash != m.hash;
    lemma_keep_if_members(s, keep);
    let w = without_hash(s, m.hash);
    assert forall|i: int|
        0 <= i < spec_store(s, m).len() && (#[trigger] spec_store(s, m)[i]).hash == m.hash implies i
        == spec_store(s, m).len() - 1 by {
        if i < w.len() {
            assert(spec_store(s, m)[i] == w[i]);
            assert(keep(w[i]));
        }
    }
}

/// After dropping expired messages, none left is expired, and every message
/// that was not expired is still there.
pub proof fn lemma_remove_expired(s: Seq<CommitMsgView>, now: u64, expiry_seconds: u64)
    ensures
        forall|i: int|
            0 <= i < unexpired(s, now, expiry_seconds).len() ==> !spec_is_expired(
                #[trigger] unexpired(s, now, expiry_seconds)[i],
                now,
                expiry_seconds,
            ),
        forall|i: int|
            0 <= i < s.len() && !spec_is_expired(#[trigger] s[i], now, expiry_seconds)
                ==> unexpired(s, now, expiry_seconds).contains(s[i]),
    decreases s.len(),
{
    let keep = |m: CommitMsgView| !spec_is_expired(m, now, expiry_seconds);
    lemma_keep_if_members(s, keep);
    if s.len() > 0 {
        lemma_remove_expired(s.drop_first(), now, expiry_seconds);
        let rest = unexpired(s.drop_first(), now, expiry_seconds);
        assert forall|i: int|
            0 <= i < s.len() && !spec_is_expired(#[trigger] s[i], now, expiry_seconds)
            implies unexpired(s, now, expiry_seconds).contains(s[i]) by {
            if i == 0 {
                assert(unexpired(s, now, expiry_seconds)[0] == s[0]);
            } else {
                assert(s[i] == s.drop_first()[i - 1]);
                let j = choose|j: int| 0 <= j < rest.len() && rest[j] == s[i];
                if keep(s[0]) {
                    assert(unexpired(s, now, expiry_seconds)[j + 1] == s[i]);
                } else {
                    assert(unexpired(s, now, expiry_seconds)[j] == s[i]);
                }
            }
        }
    }
}

/// std's `SystemTime`, opaque here.
#[verifier::external_type_specification]
#[verifier::external_body]
pub struct ExSystemTime(SystemTime);

/// The error of `SystemTime::duration_since`, opaque here.
#[verifier::external_type_specification]
#[verifier::external_body]
pub struct ExSystemTimeError(SystemTimeError);

/// `SystemTime::now`: the current time of the system clock. Nothing is
/// claimed of it: it rests on the clock.
#[verifier::external_body]
fn system_now() -> SystemTime {
    SystemTime::now()
}

/// `SystemTime::duration_since` the Unix epoch; an error when the time lies
/// before it. Nothing is claimed of which it is, since that rests on the time given.
#[verifier::external_body]
fn duration_since_epoch(t: SystemTime) -> Result<Duration, SystemTimeError> {
    t.duration_since(UNIX_EPOCH)
}

/// `Duration::as_secs`: the whole seconds of a duration. Nothing is claimed
/// of the value, as a `Duration` is opaque here.
#[verifier::external_body]
fn whole_seconds(d: Duration) -> u64 {
    d.as_secs()
}

/// Returns the current timestamp in seconds since the Unix epoch, or
/// `BeforeEpoch` when the system clock is set before it. The value rests on
/// the clock, so no clause states it.
pub fn get_now_timestamp() -> (r: Result<u64, ClockError>) {
    let now = system_now();
    match duration_since_epoch(now) {
        Ok(d) => Ok(whole_seconds(d)),
        Err(_) => Err(ClockError::BeforeEpoch),
    }
}

} // verus!
