//! The match cursor: a forward-only scan over the database's headers,
//! scoped to one tag and an optional exact-match key.
//!
//! The native cursor is driven by the caller. Before each advance the caller
//! asks `wants_record`; when it says so, the caller pulls the next header
//! from the native cursor and hands it (or its absence) to `advance`. When
//! the cursor is dropped, `release` says whether the native cursor must be
//! freed now, which is so exactly once.
use crate::tag::Tag;
use vstd::prelude::*;

verus! {

/// Where a cursor stands in its life.
#[derive(Copy, Clone, Debug, PartialEq, Eq, Structural)]
pub enum CursorState {
    /// Opened; nothing read yet.
    Created,
    /// The last advance yielded a record.
    Active,
    /// An advance found no more records. This is final for advancing.
    Exhausted,
    /// The native cursor has been freed.
    Released,
}

/// Whether an advance in this state still reads from the native cursor.
pub open spec fn is_live(s: CursorState) -> bool {
    s is Created || s is Active
}

/// The state after one advance, given whether the native cursor had a record.
pub open spec fn next_state(s: CursorState, fetched: bool) -> CursorState {
    if is_live(s) {
        if fetched {
            CursorState::Active
        } else {
            CursorState::Exhausted
        }
    } else {
        s
    }
}

/// The state after the first `n` advances, where `fetched[k]` says whether
/// the native cursor had a record at advance `k`.
pub open spec fn state_after(s: CursorState, fetched: Seq<bool>, n: nat) -> CursorState
    decreases n,
{
    if n == 0 {
        s
    } else {
        next_state(state_after(s, fetched, (n - 1) as nat), fetched[n - 1])
    }
}

/// Whether advance `i` hands out a record.
pub open spec fn yields_at(s: CursorState, fetched: Seq<bool>, i: nat) -> bool {
    is_live(state_after(s, fetched, i)) && fetched[i as int]
}

/// What a cursor is: its tag, its key, and where it stands.
pub struct CursorView {
    pub tag: Tag,
    pub key: Option<Seq<char>>,
    pub state: CursorState,
}

/// A key the native matcher accepts: it holds no null character.
pub open spec fn valid_key(key: Seq<char>) -> bool {
    !key.contains('\0')
}

/// A cursor over the headers whose `tag` field equals `key`, or over all
/// headers where there is no key.
pub struct MatchIterator {
    tag: Tag,
    key: Option<String>,
    state: CursorState,
}

impl View for MatchIterator {
    type V = CursorView;

    closed spec fn view(&self) -> CursorView {
        CursorView {
            tag: self.tag,
            key: match self.key {
                Some(k) => Some(k@),
                None => None,
            },
            state: self.state,
        }
    }
}

impl MatchIterator {
    /// A cursor scoped to `tag`, restricted to exact matches of `key` if there
    /// is one.
    pub fn new(tag: Tag, key: Option<&str>) -> (r: Self)
        requires
            key matches Some(k) ==> valid_key(k@),
        ensures
            r@.tag == tag,
            r@.key == (match key {
                Some(k) => Some(k@),
                None => None::<Seq<char>>,
            }),
            r@.state == CursorState::Created,
    {
        let key = match key {
            Some(k) => Some(k.to_owned()),
            None => None,
        };
        MatchIterator { tag, key, state: CursorState::Created }
    }

    /// The tag the cursor is scoped to.
    pub fn tag(&self) -> (r: Tag)
        ensures
            r == self@.tag,
    {
        self.tag
    }

    /// The key records must match exactly, if any.
    pub fn key(&self) -> (r: Option<&str>)
        ensures
            r is None <==> self@.key is None,
            r matches Some(k) ==> self@.key == Some(k@),
    {
        match &self.key {
            Some(k) => Some(k.as_str()),
            None => None,
        }
    }

    /// Where the cursor stands.
    pub fn state(&self) -> (r: CursorState)
        ensures
            r == self@.state,
    {
        self.state
    }

    /// Whether the next advance reads from the native cursor. Once the cursor
    /// is exhausted or released it never does again.
    pub fn wants_record(&self) -> (r: bool)
        ensures
            r == is_live(self@.state),
    {
        match self.state {
            CursorState::Created | CursorState::Active => true,
            CursorState::Exhausted | CursorState::Released => false,
        }
    }

    /// Moves to the next record. `fetched` is what the native cursor returned,
    /// if it was read. A live cursor hands the record out, or becomes
    /// exhausted when there is none; an exhausted or released one hands out
    /// nothing, whatever is passed, and stays as it is.
    pub fn advance<R>(&mut self, fetched: Option<R>) -> (r: Option<R>)
        ensures
            final(self)@.tag == old(self)@.tag,
            final(self)@.key == old(self)@.key,
            final(self)@.state == next_state(old(self)@.state, fetched is Some),
            r == (if is_live(old(self)@.state) {
                fetched
            } else {
                None::<R>
            }),
    {
        match self.state {
            CursorState::Created | CursorState::Active => {
                match fetched {
                    Some(record) => {
                        self.state = CursorState::Active;
                        Some(record)
                    },
                    None => {
                        self.state = CursorState::Exhausted;
                        None
                    },
                }
            },
            CursorState::Exhausted | CursorState::Released => None,
        }
    }

    /// Marks the cursor released. Returns whether the native cursor must be
    /// freed now: true on the first call, false on any later one.
    pub fn release(&mut self) -> (r: bool)
        ensures
            r == !(old(self)@.state is Released),
            final(self)@.state == CursorState::Released,
            final(self)@.tag == old(self)@.tag,
            final(self)@.key == old(self)@.key,
    {
        let first = !matches!(self.state, CursorState::Released);
        self.state = CursorState::Released;
        first
    }
}

/// A cursor that is no longer live stays as it is, whatever the native cursor
/// would return.
pub proof fn lemma_dead_state_is_final(s: CursorState, fetched: Seq<bool>, i: nat, j: nat)
    requires
        i <= j,
        !is_live(state_after(s, fetched, i)),
    ensures
        state_after(s, fetched, j) == state_after(s, fetched, i),
    decreases j - i,
{
    if j > i {
        lemma_dead_state_is_final(s, fetched, i, (j - 1) as nat);
    }
}

/// Exhaustion is final: once an advance hands out no record, no later
/// advance hands one out, whatever the native cursor returns.
pub proof fn lemma_no_record_after_end(s: CursorState, fetched: Seq<bool>, i: nat, j: nat)
    requires
        i < j < fetched.len(),
        !yields_at(s, fetched, i),
    ensures
        !yields_at(s, fetched, j),
        !is_live(state_after(s, fetched, j)),
{
    assert(!is_live(state_after(s, fetched, i + 1)));
    lemma_dead_state_is_final(s, fetched, i + 1, j);
}

/// Advancing an exhausted cursor any number of times keeps it exhausted and
/// hands out nothing.
pub proof fn lemma_exhausted_stays_exhausted(fetched: Seq<bool>, n: nat)
    requires
        n <= fetched.len(),
    ensures
        state_after(CursorState::Exhausted, fetched, n) == CursorState::Exhausted,
        n < fetched.len() ==> !yields_at(CursorState::Exhausted, fetched, n),
{
    lemma_dead_state_is_final(CursorState::Exhausted, fetched, 0, n);
}

/// However many records a fresh cursor has handed out, it is not yet
/// released, so dropping it frees the native cursor; once released, a second
/// release frees nothing and no advance reads again.
pub proof fn lemma_released_exactly_once(fetched: Seq<bool>, n: nat, again: bool)
    ensures
        !(state_after(CursorState::Created, fetched, n) is Released),
        next_state(CursorState::Released, again) == CursorState::Released,
        !is_live(CursorState::Released),
    decreases n,
{
    if n > 0 {
        lemma_released_exactly_once(fetched, (n - 1) as nat, again);
    }
}

} // verus!
