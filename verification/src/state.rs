//! The registry of streaming sessions.

use vstd::prelude::*;

verus! {

/// `tokio::sync::oneshot::Sender`: the sending half of a channel that
/// carries one value.
#[verifier::external_type_specification]
#[verifier::external_body]
#[verifier::reject_recursive_types(T)]
pub struct ExOneshotSender<T>(tokio::sync::oneshot::Sender<T>);

/// One streaming session: the sender that cancels its listener, and what
/// describes it.
pub struct PubsubItem {
    /// Fires the cancellation of the session's listener.
    pub tx: tokio::sync::oneshot::Sender<()>,
    /// The token of the session.
    pub name: String,
    /// The host that the listener is connected to.
    pub host: String,
    /// The kind of the session: `pubsub` or `monitor`.
    pub types: String,
    /// The local address of the tunnel that the listener goes through.
    pub proxy: Option<String>,
    /// When the session started, as local wall-clock text.
    pub created_at: String,
}

impl PubsubItem {
    /// A session.
    pub fn new(
        tx: tokio::sync::oneshot::Sender<()>,
        name: String,
        host: String,
        types: String,
        proxy: Option<String>,
        created_at: String,
    ) -> (item: PubsubItem)
        ensures
            item.tx == tx,
            item.name == name,
            item.host == host,
            item.types == types,
            item.proxy == proxy,
            item.created_at == created_at,
    {
        PubsubItem { tx, name, host, types, proxy, created_at }
    }
}

/// Fires a cancellation signal. The signal is lost where the listener is
/// gone already, which is no error.
///
/// Trusted: wraps `tokio::sync::oneshot::Sender::send`. Nothing is returned
/// and nothing is claimed.
#[verifier::external_body]
pub(crate) fn fire(tx: tokio::sync::oneshot::Sender<()>) {
    let _ = tx.send(());
}

/// Whether no token occurs twice among the sessions.
pub open spec fn tokens_distinct(entries: Seq<(String, PubsubItem)>) -> bool {
    forall|i: int, j: int| 0 <= i < j < entries.len() ==> entries[i].0@ != entries[j].0@
}

/// Whether `token` is the token of the session at index `i`.
pub open spec fn token_at(entries: Seq<(String, PubsubItem)>, token: Seq<char>, i: int) -> bool {
    0 <= i < entries.len() && entries[i].0@ == token
}

/// The map that a list of sessions stands for: each token goes to the
/// session that stands beside it.
pub open spec fn sessions_of(entries: Seq<(String, PubsubItem)>) -> Map<Seq<char>, PubsubItem> {
    Map::new(
        |token: Seq<char>| exists|i: int| token_at(entries, token, i),
        |token: Seq<char>| entries[choose|i: int| token_at(entries, token, i)].1,
    )
}

/// The tokens of a list of sessions, in order.
pub open spec fn tokens_of(entries: Seq<(String, PubsubItem)>) -> Seq<Seq<char>> {
    Seq::new(entries.len(), |i: int| entries[i].0@)
}

/// A list of sessions in which no token occurs twice stands for a map with
/// as many tokens as there are sessions.
pub proof fn lemma_one_token_per_session(entries: Seq<(String, PubsubItem)>)
    requires
        tokens_distinct(entries),
    ensures
        sessions_of(entries).dom().finite(),
        sessions_of(entries).dom().len() == entries.len(),
{
    let tokens = tokens_of(entries);
    assert(tokens.no_duplicates());
    assert forall|token: Seq<char>|
        sessions_of(entries).dom().contains(token) <==> tokens.to_set().contains(token) by {
        if sessions_of(entries).dom().contains(token) {
            let i = choose|i: int| token_at(entries, token, i);
            assert(tokens[i] == token);
        }
        if tokens.to_set().contains(token) {
            let i = choose|i: int| 0 <= i < tokens.len() && tokens[i] == token;
            assert(token_at(entries, token, i));
        }
    }
    assert(sessions_of(entries).dom() =~= tokens.to_set());
    tokens.unique_seq_to_set();
    vstd::seq_lib::seq_to_set_is_finite(tokens);
}

/// The streaming sessions that are live, each under its token.
pub struct PubsubManager {
    entries: Vec<(String, PubsubItem)>,
}

impl View for PubsubManager {
    type V = Map<Seq<char>, PubsubItem>;

    closed spec fn view(&self) -> Map<Seq<char>, PubsubItem> {
        sessions_of(self.entries@)
    }
}

impl PubsubManager {
    #[verifier::type_invariant]
    spec fn well_formed(self) -> bool {
        tokens_distinct(self.entries@)
    }

    /// A registry without sessions.
    pub fn new() -> (manager: PubsubManager)
        ensures
            manager@ == Map::<Seq<char>, PubsubItem>::empty(),
    {
        let manager = PubsubManager { entries: Vec::new() };
        assert(manager@ =~= Map::<Seq<char>, PubsubItem>::empty());
        manager
    }

    /// The index at which the session under `name` stands, if there is one.
    fn position(&self, name: &String) -> (at: Option<usize>)
        ensures
            match at {
                Some(i) => token_at(self.entries@, name@, i as int),
                None => forall|i: int| !token_at(self.entries@, name@, i),
            },
    {
        let mut i: usize = 0;
        while i < self.entries.len()
            invariant
                i <= self.entries.len(),
                forall|k: int| 0 <= k < i ==> self.entries@[k].0@ != name@,
            decreases self.entries.len() - i,
        {
            if self.entries[i].0 == *name {
                return Some(i);
            }
            i += 1;
        }
        None
    }

    /// Tells whether a session is live under `name`.
    pub fn contains(&self, name: &str) -> (b: bool)
        ensures
            b == self@.contains_key(name@),
    {
        let owned = name.to_string();
        self.position(&owned).is_some()
    }

    /// The number of live sessions.
    pub fn len(&self) -> (n: usize)
        ensures
            self@.dom().finite(),
            n == self@.dom().len(),
    {
        proof {
            use_type_invariant(self);
            lemma_one_token_per_session(self.entries@);
        }
        self.entries.len()
    }

    /// Registers a session under `name`, in place of one that stood there.
    pub fn add(&mut self, name: String, item: PubsubItem)
        ensures
            final(self)@ == old(self)@.insert(name@, item),
    {
        proof {
            use_type_invariant(&*self);
        }
        let ghost before = self.entries@;
        let at = self.position(&name);
        let mut taken = PubsubManager { entries: Vec::new() };
        std::mem::swap(self, &mut taken);
        let mut entries = taken.entries;
        assert(entries@ == before);
        let ghost k = name@;
        match at {
            Some(i) => {
                entries.set(i, (name, item));
                proof {
                    let after = entries@;
                    assert(tokens_distinct(after)) by {
                        assert forall|a: int, b: int| 0 <= a < b < after.len() implies after[a].0@
                            != after[b].0@ by {
                            assert(before[a].0@ != before[b].0@);
                        }
                    }
                    assert forall|q: Seq<char>, n: int| token_at(after, q, n) <==> token_at(
                        before,
                        q,
                        n,
                    ) by {}
                    assert forall|q: Seq<char>| #[trigger]
                        sessions_of(before).insert(k, item).contains_key(q) implies sessions_of(
                        after,
                    ).contains_key(q) && sessions_of(after)[q] == sessions_of(before).insert(
                        k,
                        item,
                    )[q] by {
                        if q == k {
                            assert(token_at(after, q, i as int));
                            let c = choose|n: int| token_at(after, q, n);
                            assert(c == i);
                        } else {
                            let b = choose|n: int| token_at(before, q, n);
                            assert(token_at(after, q, b));
                            let c = choose|n: int| token_at(after, q, n);
                            assert(c == b);
                        }
                    }
                    assert(sessions_of(after) =~= sessions_of(before).insert(k, item));
                }
            },
            None => {
                entries.push((name, item));
                proof {
                    let after = entries@;
                    let last = before.len() as int;
                    assert(token_at(after, k, last));
                    assert(tokens_distinct(after)) by {
                        assert forall|a: int, b: int| 0 <= a < b < after.len() implies after[a].0@
                            != after[b].0@ by {
                            if b < last {
                                assert(before[a].0@ != before[b].0@);
                            } else {
                                assert(!token_at(before, k, a));
                            }
                        }
                    }
                    assert forall|q: Seq<char>, n: int| token_at(before, q, n) implies token_at(
                        after,
                        q,
                        n,
                    ) by {}
                    assert forall|q: Seq<char>| #[trigger]
                        sessions_of(before).insert(k, item).contains_key(q) implies sessions_of(
                        after,
                    ).contains_key(q) && sessions_of(after)[q] == sessions_of(before).insert(
                        k,
                        item,
                    )[q] by {
                        if q == k {
                            let c = choose|n: int| token_at(after, q, n);
                            if c < last {
                                assert(token_at(before, k, c));
                            }
                            assert(c == last);
                        } else {
                            let b = choose|n: int| token_at(before, q, n);
                            assert(token_at(after, q, b));
                            let c = choose|n: int| token_at(after, q, n);
                            assert(c == b);
                        }
                    }
                    assert forall|q: Seq<char>| #[trigger]
                        sessions_of(after).contains_key(q) implies sessions_of(before).insert(
                        k,
                        item,
                    ).contains_key(q) by {
                        let c = choose|n: int| token_at(after, q, n);
                        if c < last {
                            assert(token_at(before, q, c));
                        }
                    }
                    assert(sessions_of(after) =~= sessions_of(before).insert(k, item));
                }
            },
        }
        *self = PubsubManager { entries };
    }

    /// Cancels the session under `name`: takes it out of the registry and
    /// fires its cancellation signal. Where no session stands under `name`
    /// nothing happens. Tells whether there was a session to cancel.
    pub fn close(&mut self, name: &str) -> (cancelled: bool)
        ensures
            cancelled == old(self)@.contains_key(name@),
            final(self)@ == old(self)@.remove(name@),
    {
        proof {
            use_type_invariant(&*self);
        }
        let ghost before = self.entries@;
        let ghost k = name@;
        let owned = name.to_string();
        match self.position(&owned) {
            Some(i) => {
                let mut taken = PubsubManager { entries: Vec::new() };
                std::mem::swap(self, &mut taken);
                let mut entries = taken.entries;
                assert(entries@ == before);
                let (_, item) = entries.remove(i);
                proof {
                    let after = entries@;
                    assert(after == before.remove(i as int));
                    assert(tokens_distinct(after)) by {
                        assert forall|a: int, b: int| 0 <= a < b < after.len() implies after[a].0@
                            != after[b].0@ by {
                            let a0 = if a < i { a } else { a + 1 };
                            let b0 = if b < i { b } else { b + 1 };
                            assert(before[a0].0@ != before[b0].0@);
                        }
                    }
                    assert forall|q: Seq<char>| #[trigger]
                        sessions_of(before).remove(k).contains_key(q) implies sessions_of(
                        after,
                    ).contains_key(q) && sessions_of(after)[q] == sessions_of(before).remove(k)[q] by {
                        let b = choose|n: int| token_at(before, q, n);
                        assert(b != i);
                        let b1 = if b < i { b } else { b - 1 };
                        assert(token_at(after, q, b1));
                        let c = choose|n: int| token_at(after, q, n);
                        assert(c == b1);
                    }
                    assert forall|q: Seq<char>| #[trigger]
                        sessions_of(after).contains_key(q) implies sessions_of(before).remove(
                        k,
                    ).contains_key(q) by {
                        let c = choose|n: int| token_at(after, q, n);
                        let c0 = if c < i { c } else { c + 1 };
                        assert(token_at(before, q, c0));
                        assert(q != k) by {
                            if q == k {
                                assert(before[c0].0@ == before[i as int].0@);
                            }
                        }
                    }
                    assert(sessions_of(after) =~= sessions_of(before).remove(k));
                }
                *self = PubsubManager { entries };
                fire(item.tx);
                true
            },
            None => {
                assert(self@ =~= self@.remove(k));
                false
            },
        }
    }
}

/// Cancelling a session twice is the same as cancelling it once: after the
/// first cancellation no session stands under the token, and the second
/// leaves the registry as it is.
pub proof fn lemma_cancel_twice(sessions: Map<Seq<char>, PubsubItem>, name: Seq<char>)
    ensures
        !sessions.remove(name).contains_key(name),
        sessions.remove(name).remove(name) == sessions.remove(name),
{
    assert(sessions.remove(name).remove(name) =~= sessions.remove(name));
}

} // verus!
