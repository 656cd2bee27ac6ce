//! The session registry: one entry per session id, in order of first registration.
use vstd::prelude::*;

verus! {

/// A call session that the backend asked for.
#[derive(Debug, Clone)]
pub struct SessionInfo {
    pub session_id: String,
    pub room_id: String,
    /// Creation time, in seconds since the Unix epoch.
    pub created_at: u64,
}

/// What a registry entry holds: session id, room id, creation time.
pub struct SessionView {
    pub id: Seq<char>,
    pub room: Seq<char>,
    pub created_at: u64,
}

impl View for SessionInfo {
    type V = SessionView;

    open spec fn view(&self) -> SessionView {
        SessionView { id: self.session_id@, room: self.room_id@, created_at: self.created_at }
    }
}

/// Whether `s` holds an entry for `id`.
pub open spec fn has_id(s: Seq<SessionView>, id: Seq<char>) -> bool {
    exists|i: int| 0 <= i < s.len() && #[trigger] s[i].id == id
}

/// The position of the entry for `id` in `s`, which holds at most one.
pub open spec fn position_of(s: Seq<SessionView>, id: Seq<char>) -> int
    recommends
        has_id(s, id),
{
    choose|i: int| 0 <= i < s.len() && #[trigger] s[i].id == id
}

/// No two entries of `s` share a session id.
pub open spec fn ids_distinct(s: Seq<SessionView>) -> bool {
    forall|i: int, j: int| 0 <= i < s.len() && 0 <= j < s.len() && i != j ==> #[trigger] s[i].id != #[trigger] s[j].id
}

/// `s` with `e` registered: the entry of the same id replaced in place, or `e` appended.
pub open spec fn registered(s: Seq<SessionView>, e: SessionView) -> Seq<SessionView> {
    if has_id(s, e.id) {
        s.update(position_of(s, e.id), e)
    } else {
        s.push(e)
    }
}

/// `s` without the entry for `id`, if there is one.
pub open spec fn destroyed(s: Seq<SessionView>, id: Seq<char>) -> Seq<SessionView> {
    if has_id(s, id) {
        s.remove(position_of(s, id))
    } else {
        s
    }
}

/// Active sessions keyed by session id.
#[derive(Debug, Clone)]
pub struct SessionRegistry {
    sessions: Vec<SessionInfo>,
}

impl View for SessionRegistry {
    type V = Seq<SessionView>;

    closed spec fn view(&self) -> Seq<SessionView> {
        self.sessions@.map_values(|e: SessionInfo| e@)
    }
}

impl SessionRegistry {
    /// Each session id occurs at most once.
    pub open spec fn wf(&self) -> bool {
        ids_distinct(self@)
    }

    pub fn new() -> (r: Self)
        ensures
            r.wf(),
            r@ == Seq::<SessionView>::empty(),
    {
        SessionRegistry { sessions: Vec::new() }
    }

    /// The position of the entry for `id`, if any.
    fn find(&self, id: &str) -> (r: Option<usize>)
        requires
            self.wf(),
        ensures
            r is None <==> !has_id(self@, id@),
            r matches Some(i) ==> i == position_of(self@, id@) && i < self@.len(),
    {
        let mut i: usize = 0;
        while i < self.sessions.len()
            invariant
                self.wf(),
                i <= self.sessions.len(),
                forall|j: int| 0 <= j < i ==> #[trigger] self@[j].id != id@,
            decreases self.sessions.len() - i,
        {
            if str_equal(self.sessions[i].session_id.as_str(), id) {
                proof {
                    assert(self@[i as int].id == id@);
                    assert(has_id(self@, id@));
                    let p = position_of(self@, id@);
                    assert(0 <= p < self@.len() && self@[p].id == id@);
                    if p != i as int {
                        assert(self@[p].id != self@[i as int].id);
                    }
                }
                return Some(i);
            }
            i = i + 1;
        }
        None
    }

    /// Inserts the session, or replaces the entry of the same id.
    pub fn register(&mut self, session: SessionInfo)
        requires
            old(self).wf(),
        ensures
            final(self).wf(),
            final(self)@ == registered(old(self)@, session@),
    {
        let ghost e = session@;
        match self.find(session.session_id.as_str()) {
            Some(i) => {
                self.sessions.set(i, session);
                proof {
                    assert(self@ =~= registered(old(self)@, e));
                }
            },
            None => {
                self.sessions.push(session);
                proof {
                    assert(self@ =~= registered(old(self)@, e));
                }
            },
        }
    }

    /// Removes the entry for `session_id`; returns whether there was one.
    pub fn destroy(&mut self, session_id: &str) -> (r: bool)
        requires
            old(self).wf(),
        ensures
            final(self).wf(),
            r == has_id(old(self)@, session_id@),
            final(self)@ == destroyed(old(self)@, session_id@),
    {
        match self.find(session_id) {
            Some(i) => {
                self.sessions.remove(i);
                proof {
                    assert(self@ =~= destroyed(old(self)@, session_id@));
                }
                true
            },
            None => false,
        }
    }

    /// Number of active sessions.
    pub fn count(&self) -> (r: usize)
        ensures
            r == self@.len(),
    {
        self.sessions.len()
    }

    /// Whether an entry for `session_id` exists.
    pub fn contains(&self, session_id: &str) -> (r: bool)
        requires
            self.wf(),
        ensures
            r == has_id(self@, session_id@),
    {
        self.find(session_id).is_some()
    }
}

/// Whether two strings hold the same characters.
pub fn str_equal(a: &str, b: &str) -> (r: bool)
    ensures
        r == (a@ == b@),
{
    let n = a.unicode_len();
    if n != b.unicode_len() {
        return false;
    }
    let mut i: usize = 0;
    while i < n
        invariant
            n == a@.len(),
            n == b@.len(),
            i <= n,
            a@.subrange(0, i as int) == b@.subrange(0, i as int),
        decreases n - i,
    {
        if a.get_char(i) != b.get_char(i) {
            assert(a@[i as int] != b@[i as int]);
            assert(a@.subrange(0, i + 1)[i as int] == a@[i as int]);
            return false;
        }
        assert(a@.subrange(0, i + 1) =~= a@.subrange(0, i as int).push(a@[i as int]));
        assert(b@.subrange(0, i + 1) =~= b@.subrange(0, i as int).push(b@[i as int]));
        i = i + 1;
    }
    assert(a@ =~= a@.subrange(0, n as int));
    assert(b@ =~= b@.subrange(0, n as int));
    true
}

/// A session registered under an id that the registry did not hold, then
/// destroyed under the same id, leaves the count as it was.
pub proof fn lemma_create_destroy_restores_count(s: Seq<SessionView>, e: SessionView)
    requires
        ids_distinct(s),
        !has_id(s, e.id),
    ensures
        destroyed(registered(s, e), e.id).len() == s.len(),
        destroyed(registered(s, e), e.id) == s,
{
    let t = s.push(e);
    assert(t[s.len() as int].id == e.id);
    assert(has_id(t, e.id));
    let p = position_of(t, e.id);
    assert(p == s.len()) by {
        if p != s.len() {
            assert(t[p].id == e.id);
            assert(s[p].id == e.id);
        }
    }
    assert(t.remove(p) =~= s);
}

/// Destroying an id that the registry does not hold reports so and changes nothing.
pub proof fn lemma_destroy_absent_is_noop(s: Seq<SessionView>, id: Seq<char>)
    requires
        !has_id(s, id),
    ensures
        destroyed(s, id) == s,
{
}

} // verus!
