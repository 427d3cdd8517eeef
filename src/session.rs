use vstd::prelude::*;

use crate::conversation::LogItem;
use crate::gpt2::GPT2MessageHandler;
use crate::gpt3::GPT3MessageHandler;

verus! {

/// Identity of one conversation scope: a guild and a channel in it.
#[derive(Clone, Copy, Debug, PartialEq, Eq, Structural, Hash)]
pub struct ChatTarget {
    pub guild_id: u64,
    pub channel_id: u64,
}

/// The target of a message: its guild and channel. A direct message has no
/// guild and so no target.
pub fn get_chat_target_from_message(guild_id: Option<u64>, channel_id: u64) -> (r: Option<
    ChatTarget,
>)
    ensures
        r == match guild_id {
            Some(g) => Some(ChatTarget { guild_id: g, channel_id }),
            None => None,
        },
{
    match guild_id {
        Some(guild_id) => Some(ChatTarget { guild_id, channel_id }),
        None => None,
    }
}

/// The live state of one target, by the kind of engine that serves it.
#[derive(Debug)]
pub enum Session {
    GPT2(GPT2MessageHandler),
    GPT3(GPT3MessageHandler),
}

/// A session after its log was cleared: same kind, same configuration.
pub open spec fn is_reset_of(after: Session, before: Session) -> bool {
    match (after, before) {
        (Session::GPT3(a), Session::GPT3(b)) => {
            &&& a.message_log@.len() == 0
            &&& a.transformer == b.transformer
            &&& a.configuration == b.configuration
            &&& a.token_count == b.token_count
        },
        (Session::GPT2(a), Session::GPT2(b)) => {
            &&& a.message_log@.len() == 0
            &&& a.transformer == b.transformer
        },
        _ => false,
    }
}

/// A session after `item` was recorded: a remote session's log gains the
/// entry; a local session keeps nothing.
pub open spec fn is_record_of(after: Session, before: Session, item: LogItem) -> bool {
    match (after, before) {
        (Session::GPT3(a), Session::GPT3(b)) => {
            &&& a.message_log@ == b.message_log@.push(item)
            &&& a.transformer == b.transformer
            &&& a.configuration == b.configuration
            &&& a.token_count == b.token_count
        },
        (Session::GPT2(a), Session::GPT2(b)) => a == b,
        _ => false,
    }
}

impl Session {
    pub fn reset(&mut self)
        ensures
            is_reset_of(*final(self), *old(self)),
    {
        match self {
            Session::GPT2(session) => session.reset(),
            Session::GPT3(session) => session.reset(),
        }
    }

    pub fn record(&mut self, log_item: LogItem)
        ensures
            is_record_of(*final(self), *old(self), log_item),
    {
        match self {
            Session::GPT2(_) => {},
            Session::GPT3(session) => session.record(log_item),
        }
    }
}

/// Why a registry operation was refused.
#[derive(Debug, Clone, Copy, PartialEq, Eq, Structural)]
pub enum SessionError {
    /// The target already has a session.
    AlreadyExists,
    /// The target has no session.
    NotFound,
}

impl SessionError {
    /// The text shown to whoever asked for the operation.
    pub fn message(&self) -> (r: &'static str)
        ensures
            *self == SessionError::AlreadyExists ==> r@ == "Chat target already has a session"@,
            *self == SessionError::NotFound ==> r@ == "Chat target does not has a session"@,
    {
        match self {
            SessionError::AlreadyExists => "Chat target already has a session",
            SessionError::NotFound => "Chat target does not has a session",
        }
    }
}

/// What `create` makes of a registry holding `m`, and what it answers.
pub open spec fn create_outcome(m: Map<ChatTarget, Session>, target: ChatTarget, session: Session) -> (
    Map<ChatTarget, Session>,
    Result<(), SessionError>,
) {
    if m.contains_key(target) {
        (m, Err(SessionError::AlreadyExists))
    } else {
        (m.insert(target, session), Ok(()))
    }
}

/// `after` has the targets of `before`, and the same sessions but for `target`'s.
pub open spec fn only_changed(
    after: Map<ChatTarget, Session>,
    before: Map<ChatTarget, Session>,
    target: ChatTarget,
) -> bool {
    after.dom() == before.dom() && after.remove(target) == before.remove(target)
}

/// Whether some entry of `s` belongs to `k`.
pub open spec fn has_key(s: Seq<(ChatTarget, Session)>, k: ChatTarget) -> bool {
    exists|i: int| 0 <= i < s.len() && s[i].0 == k
}

/// No two entries of `s` belong to one target.
pub open spec fn keys_unique(s: Seq<(ChatTarget, Session)>) -> bool {
    forall|i: int, j: int| 0 <= i < s.len() && 0 <= j < s.len() && s[i].0 == s[j].0 ==> i == j
}

/// The entries of `s` as a map from target to session.
pub open spec fn map_of(s: Seq<(ChatTarget, Session)>) -> Map<ChatTarget, Session> {
    Map::new(
        |k: ChatTarget| has_key(s, k),
        |k: ChatTarget| s[choose|i: int| 0 <= i < s.len() && s[i].0 == k].1,
    )
}

proof fn lemma_map_of_at(s: Seq<(ChatTarget, Session)>, i: int)
    requires
        keys_unique(s),
        0 <= i < s.len(),
    ensures
        map_of(s).contains_key(s[i].0),
        map_of(s)[s[i].0] == s[i].1,
{
    let k = s[i].0;
    assert(has_key(s, k));
    let c = choose|j: int| 0 <= j < s.len() && s[j].0 == k;
    assert(c == i);
}

proof fn lemma_map_of_push(s: Seq<(ChatTarget, Session)>, k: ChatTarget, v: Session)
    requires
        keys_unique(s),
        !has_key(s, k),
    ensures
        keys_unique(s.push((k, v))),
        map_of(s.push((k, v))) == map_of(s).insert(k, v),
{
    let t = s.push((k, v));
    assert(keys_unique(t));
    assert forall|q: ChatTarget| #[trigger] map_of(t).contains_key(q) <==> map_of(s).insert(
        k,
        v,
    ).contains_key(q) by {
        if has_key(t, q) && q != k {
            let j = choose|j: int| 0 <= j < t.len() && t[j].0 == q;
            assert(s[j].0 == q);
        }
        if has_key(s, q) {
            let j = choose|j: int| 0 <= j < s.len() && s[j].0 == q;
            assert(t[j].0 == q);
        }
        if q == k {
            assert(t[s.len() as int].0 == q);
        }
    }
    assert forall|q: ChatTarget| #[trigger] map_of(t).contains_key(q) implies map_of(t)[q]
        == map_of(s).insert(k, v)[q] by {
        let j = choose|j: int| 0 <= j < t.len() && t[j].0 == q;
        lemma_map_of_at(t, j);
        if q != k {
            assert(j < s.len());
            lemma_map_of_at(s, j);
        }
    }
    assert(map_of(t) =~= map_of(s).insert(k, v));
}

proof fn lemma_map_of_remove(s: Seq<(ChatTarget, Session)>, i: int)
    requires
        keys_unique(s),
        0 <= i < s.len(),
    ensures
        keys_unique(s.remove(i)),
        map_of(s.remove(i)) == map_of(s).remove(s[i].0),
{
    let k = s[i].0;
    let t = s.remove(i);
    assert forall|a: int, b: int|
        0 <= a < t.len() && 0 <= b < t.len() && t[a].0 == t[b].0 implies a == b by {
        let a2 = if a < i {
            a
        } else {
            a + 1
        };
        let b2 = if b < i {
            b
        } else {
            b + 1
        };
        assert(s[a2].0 == s[b2].0);
    }
    assert forall|q: ChatTarget| #[trigger] map_of(t).contains_key(q) <==> map_of(s).remove(
        k,
    ).contains_key(q) by {
        if has_key(t, q) {
            let j = choose|j: int| 0 <= j < t.len() && t[j].0 == q;
            let j2 = if j < i {
                j
            } else {
                j + 1
            };
            assert(s[j2].0 == q);
            assert(j2 != i);
        }
        if has_key(s, q) && q != k {
            let j = choose|j: int| 0 <= j < s.len() && s[j].0 == q;
            assert(j != i);
            let j2 = if j < i {
                j
            } else {
                j - 1
            };
            assert(t[j2].0 == q);
        }
    }
    assert forall|q: ChatTarget| #[trigger] map_of(t).contains_key(q) implies map_of(t)[q]
        == map_of(s).remove(k)[q] by {
        let j = choose|j: int| 0 <= j < t.len() && t[j].0 == q;
        lemma_map_of_at(t, j);
        let j2 = if j < i {
            j
        } else {
            j + 1
        };
        assert(s[j2] == t[j]);
        lemma_map_of_at(s, j2);
    }
    assert(map_of(t) =~= map_of(s).remove(k));
}

/// The sessions of all targets, at most one per target.
#[derive(Debug)]
pub struct SessionRegistry {
    entries: Vec<(ChatTarget, Session)>,
}

impl View for SessionRegistry {
    type V = Map<ChatTarget, Session>;

    closed spec fn view(&self) -> Map<ChatTarget, Session> {
        map_of(self.entries@)
    }
}

impl SessionRegistry {
    #[verifier::type_invariant]
    spec fn well_formed(self) -> bool {
        keys_unique(self.entries@)
    }

    pub fn new() -> (r: Self)
        ensures
            r@ == Map::<ChatTarget, Session>::empty(),
    {
        let r = SessionRegistry { entries: Vec::new() };
        assert(map_of(r.entries@) =~= Map::<ChatTarget, Session>::empty());
        r
    }

    /// Where the entry of `target` stands, if there is one.
    fn find(&self, target: ChatTarget) -> (r: Option<usize>)
        ensures
            match r {
                Some(i) => i < self.entries@.len() && self.entries@[i as int].0 == target,
                None => !has_key(self.entries@, target),
            },
    {
        let mut i: usize = 0;
        while i < self.entries.len()
            invariant
                i <= self.entries@.len(),
                forall|j: int| 0 <= j < i ==> self.entries@[j].0 != target,
            decreases self.entries@.len() - i,
        {
            if self.entries[i].0 == target {
                return Some(i);
            }
            i = i + 1;
        }
        None
    }

    pub fn contains_key(&self, target: ChatTarget) -> (r: bool)
        ensures
            r == self@.contains_key(target),
    {
        self.find(target).is_some()
    }

    pub fn get(&self, target: ChatTarget) -> (r: Option<&Session>)
        ensures
            r is Some <==> self@.contains_key(target),
            r is Some ==> *r.unwrap() == self@[target],
    {
        proof {
            use_type_invariant(self);
        }
        match self.find(target) {
            Some(i) => {
                proof {
                    lemma_map_of_at(self.entries@, i as int);
                }
                Some(&self.entries[i].1)
            },
            None => None,
        }
    }

    /// Gives `target` the session `session`, unless it already has one; then
    /// nothing changes.
    pub fn create(&mut self, target: ChatTarget, session: Session) -> (r: Result<(), SessionError>)
        ensures
            (final(self)@, r) == create_outcome(old(self)@, target, session),
    {
        proof {
            use_type_invariant(&*self);
        }
        if let Some(i) = self.find(target) {
            proof {
                lemma_map_of_at(self.entries@, i as int);
            }
            return Err(SessionError::AlreadyExists);
        }
        let mut entries = Vec::new();
        std::mem::swap(&mut entries, &mut self.entries);
        proof {
            lemma_map_of_push(entries@, target, session);
        }
        entries.push((target, session));
        self.entries = entries;
        Ok(())
    }

    /// Takes the session of `target` out of the registry, if it has one.
    pub fn remove(&mut self, target: ChatTarget) -> (r: Option<Session>)
        ensures
            r is Some <==> old(self)@.contains_key(target),
            r is Some ==> r.unwrap() == old(self)@[target],
            final(self)@ == old(self)@.remove(target),
    {
        proof {
            use_type_invariant(&*self);
        }
        match self.find(target) {
            Some(i) => {
                let mut entries = Vec::new();
                std::mem::swap(&mut entries, &mut self.entries);
                proof {
                    lemma_map_of_at(entries@, i as int);
                    lemma_map_of_remove(entries@, i as int);
                }
                let (_, session) = entries.remove(i);
                self.entries = entries;
                Some(session)
            },
            None => {
                assert(self@ =~= self@.remove(target));
                None
            },
        }
    }

    /// Clears the log of `target`'s session.
    pub fn reset(&mut self, target: ChatTarget) -> (r: Result<(), SessionError>)
        ensures
            !old(self)@.contains_key(target) ==> r == Err::<(), SessionError>(
                SessionError::NotFound,
            ) && final(self)@ == old(self)@,
            old(self)@.contains_key(target) ==> r is Ok && only_changed(final(self)@, old(self)@, target)
                && is_reset_of(final(self)@[target], old(self)@[target]),
    {
        match self.remove(target) {
            Some(mut session) => {
                session.reset();
                let _ = self.create(target, session);
                assert(self@.dom() =~= old(self)@.dom());
                assert(self@.remove(target) =~= old(self)@.remove(target));
                Ok(())
            },
            None => {
                Err(SessionError::NotFound)
            },
        }
    }

    /// Appends `log_item` to the log of `target`'s session.
    pub fn record(&mut self, target: ChatTarget, log_item: LogItem) -> (r: Result<(), SessionError>)
        ensures
            !old(self)@.contains_key(target) ==> r == Err::<(), SessionError>(
                SessionError::NotFound,
            ) && final(self)@ == old(self)@,
            old(self)@.contains_key(target) ==> r is Ok && only_changed(final(self)@, old(self)@, target)
                && is_record_of(final(self)@[target], old(self)@[target], log_item),
    {
        match self.remove(target) {
            Some(mut session) => {
                session.record(log_item);
                let _ = self.create(target, session);
                assert(self@.dom() =~= old(self)@.dom());
                assert(self@.remove(target) =~= old(self)@.remove(target));
                Ok(())
            },
            None => {
                Err(SessionError::NotFound)
            },
        }
    }
}

/// Law: at most one session per target. Of two `create` calls for one target,
/// whatever the registry held before, the second is refused with
/// `AlreadyExists` and leaves the registry, and the first one's session, as
/// the first call left them.
pub proof fn lemma_create_unique(
    before: Map<ChatTarget, Session>,
    target: ChatTarget,
    first: Session,
    second: Session,
)
    ensures
        ({
            let (middle, r1) = create_outcome(before, target, first);
            let (after, r2) = create_outcome(middle, target, second);
            &&& !(r1 is Ok && r2 is Ok)
            &&& r2 == Err::<(), SessionError>(SessionError::AlreadyExists)
            &&& after == middle
            &&& middle.contains_key(target)
        }),
{
}

/// `create` called for `target` once with each of `sessions`, in turn: the
/// registry afterwards, and the answers in order.
pub open spec fn create_all(
    m: Map<ChatTarget, Session>,
    target: ChatTarget,
    sessions: Seq<Session>,
) -> (Map<ChatTarget, Session>, Seq<Result<(), SessionError>>)
    decreases sessions.len(),
{
    if sessions.len() == 0 {
        (m, Seq::empty())
    } else {
        let (m1, rs) = create_all(m, target, sessions.drop_last());
        let (m2, r) = create_outcome(m1, target, sessions.last());
        (m2, rs.push(r))
    }
}

/// Law: of any number of `create` calls for one target, however the lock
/// that serialises them orders them, at most one succeeds: the first, and
/// only when the target had no session. Every other call is refused with
/// `AlreadyExists`, and the target keeps the first call's session.
pub proof fn lemma_creates_one_wins(
    before: Map<ChatTarget, Session>,
    target: ChatTarget,
    sessions: Seq<Session>,
)
    ensures
        ({
            let (after, rs) = create_all(before, target, sessions);
            &&& rs.len() == sessions.len()
            &&& forall|i: int|
                0 <= i < rs.len() ==> (#[trigger] rs[i] is Ok <==> (i == 0
                    && !before.contains_key(target)))
            &&& forall|i: int|
                0 <= i < rs.len() && #[trigger] rs[i] is Err ==> rs[i] == Err::<(), SessionError>(
                    SessionError::AlreadyExists,
                )
            &&& after == (if sessions.len() == 0 || before.contains_key(target) {
                before
            } else {
                before.insert(target, sessions[0])
            })
        }),
    decreases sessions.len(),
{
    if sessions.len() > 0 {
        let p = sessions.drop_last();
        lemma_creates_one_wins(before, target, p);
        if p.len() > 0 {
            assert(p[0] == sessions[0]);
        }
        let (m1, rs1) = create_all(before, target, p);
        let (m2, r) = create_outcome(m1, target, sessions.last());
        let rs = rs1.push(r);
        assert forall|i: int| 0 <= i < rs.len() implies (#[trigger] rs[i] is Ok <==> (i == 0
            && !before.contains_key(target))) by {
            if i < rs1.len() {
                assert(rs[i] == rs1[i]);
            }
        }
        assert forall|i: int|
            0 <= i < rs.len() && #[trigger] rs[i] is Err implies rs[i] == Err::<(), SessionError>(
                SessionError::AlreadyExists,
            ) by {
            if i < rs1.len() {
                assert(rs[i] == rs1[i]);
            }
        }
    }
}

} // verus!
