//! The registry of live browser sessions, keyed by account.

use vstd::prelude::*;
use vstd::string::*;

verus! {

struct Entry<S> {
    account: String,
    session: S,
}

/// A map from account identifier to that account's live session.
///
/// The registry holds at most one session per account: inserting for an
/// account that already has one replaces it. The session type is chosen by the
/// embedding program (a browser process with its open tab).
pub struct SessionRegistry<S> {
    entries: Vec<Entry<S>>,
}

impl<S> SessionRegistry<S> {
    /// The accounts of the stored entries, in storage order.
    pub closed spec fn accounts(&self) -> Seq<Seq<char>> {
        self.entries@.map_values(|e: Entry<S>| e.account@)
    }

    /// The registry as a map from account to session.
    pub closed spec fn view(&self) -> Map<Seq<char>, S> {
        Map::new(
            |a: Seq<char>| self.accounts().contains(a),
            |a: Seq<char>| self.entries@[self.accounts().index_of(a)].session,
        )
    }

    /// No account appears in two entries.
    pub closed spec fn wf(&self) -> bool {
        forall|i: int, j: int|
            0 <= i < self.entries@.len() && 0 <= j < self.entries@.len() && #[trigger] self.entries@[i].account@
                == #[trigger] self.entries@[j].account@ ==> i == j
    }

    proof fn lemma_lookup(&self, i: int)
        requires
            self.wf(),
            0 <= i < self.entries@.len(),
        ensures
            self.view().contains_key(self.entries@[i].account@),
            self.view()[self.entries@[i].account@] == self.entries@[i].session,
    {
        let a = self.entries@[i].account@;
        assert(self.accounts()[i] == a);
        let k = self.accounts().index_of(a);
        assert(self.accounts()[k] == a);
        assert(self.entries@[k].account@ == a);
    }

    /// An empty registry.
    pub fn new() -> (r: Self)
        ensures
            r.wf(),
            r.view() == Map::<Seq<char>, S>::empty(),
    {
        let r = SessionRegistry { entries: Vec::new() };
        assert(r.view() =~= Map::<Seq<char>, S>::empty());
        r
    }

    /// The number of live sessions.
    pub fn len(&self) -> (r: usize)
        requires
            self.wf(),
        ensures
            r == self.view().len(),
    {
        proof {
            self.lemma_one_session_per_account();
        }
        self.entries.len()
    }

    /// At any moment the registry holds at most one session per account: no
    /// account appears twice among the stored entries, and there are exactly
    /// as many entries as accounts with a session.
    pub proof fn lemma_one_session_per_account(&self)
        requires
            self.wf(),
        ensures
            self.accounts().no_duplicates(),
            self.accounts().to_set() == self.view().dom(),
            self.accounts().len() == self.view().len(),
    {
        assert(self.view().dom() =~= self.accounts().to_set());
        assert(self.accounts().no_duplicates()) by {
            assert forall|i: int, j: int|
                0 <= i < self.accounts().len() && 0 <= j < self.accounts().len() && i != j implies self.accounts()[i]
                != self.accounts()[j] by {
                assert(self.accounts()[i] == self.entries@[i].account@);
                assert(self.accounts()[j] == self.entries@[j].account@);
            }
        }
        self.accounts().unique_seq_to_set();
        assert(self.accounts().len() == self.entries@.len());
    }

    fn position(&self, account: &String) -> (r: Option<usize>)
        requires
            self.wf(),
        ensures
            match r {
                Some(i) => i < self.entries@.len() && self.entries@[i as int].account@ == account@,
                None => !self.view().contains_key(account@),
            },
    {
        let mut i: usize = 0;
        while i < self.entries.len()
            invariant
                i <= self.entries@.len(),
                forall|k: int| 0 <= k < i ==> self.entries@[k].account@ != account@,
            decreases self.entries@.len() - i,
        {
            if self.entries[i].account == *account {
                return Some(i);
            }
            i = i + 1;
        }
        proof {
            if self.accounts().contains(account@) {
                let k = self.accounts().index_of(account@);
                assert(self.accounts()[k] == self.entries@[k].account@);
            }
        }
        None
    }

    /// The session of `account`, if one is registered.
    pub fn get(&self, account: &str) -> (r: Option<&S>)
        requires
            self.wf(),
        ensures
            match r {
                Some(s) => self.view().contains_key(account@) && *s == self.view()[account@],
                None => !self.view().contains_key(account@),
            },
    {
        let key = String::from_str(account);
        match self.position(&key) {
            Some(i) => {
                proof {
                    self.lemma_lookup(i as int);
                }
                Some(&self.entries[i].session)
            },
            None => None,
        }
    }

    /// Whether `account` has a registered session.
    pub fn contains(&self, account: &str) -> (r: bool)
        requires
            self.wf(),
        ensures
            r == self.view().contains_key(account@),
    {
        let key = String::from_str(account);
        match self.position(&key) {
            Some(i) => {
                proof {
                    self.lemma_lookup(i as int);
                }
                true
            },
            None => false,
        }
    }

    /// Registers `session` for `account`, replacing (and returning) the one
    /// registered before, if any.
    pub fn insert(&mut self, account: String, session: S) -> (r: Option<S>)
        requires
            old(self).wf(),
        ensures
            final(self).wf(),
            final(self).view() == old(self).view().insert(account@, session),
            match r {
                Some(s) => old(self).view().contains_key(account@) && s == old(self).view()[account@],
                None => !old(self).view().contains_key(account@),
            },
    {
        let previous = self.remove(account.as_str());
        let ghost a = account@;
        let ghost before = *self;
        self.entries.push(Entry { account, session });
        proof {
            assert(self.entries@.drop_last() =~= before.entries@);
            before.lemma_pushed(a, session, *self);
        }
        previous
    }

    proof fn lemma_pushed(&self, a: Seq<char>, session: S, after: Self)
        requires
            self.wf(),
            !self.view().contains_key(a),
            after.entries@.len() == self.entries@.len() + 1,
            after.entries@.drop_last() == self.entries@,
            after.entries@.last().account@ == a,
            after.entries@.last().session == session,
        ensures
            after.wf(),
            after.view() == self.view().insert(a, session),
    {
        let n = self.entries@.len() as int;
        assert forall|i: int| 0 <= i < n implies after.entries@[i] == self.entries@[i] by {
            assert(after.entries@.drop_last()[i] == after.entries@[i]);
        }
        assert forall|i: int| 0 <= i < n implies self.entries@[i].account@ != a by {
            assert(self.accounts()[i] == self.entries@[i].account@);
        }
        assert forall|i: int, j: int|
            0 <= i < after.entries@.len() && 0 <= j < after.entries@.len() && #[trigger] after.entries@[i].account@
                == #[trigger] after.entries@[j].account@ implies i == j by {
        }
        assert(after.accounts() =~= self.accounts().push(a));
        assert forall|b: Seq<char>| after.view().contains_key(b) <==> self.view().insert(a, session).contains_key(b) by {
            if self.accounts().contains(b) {
                let k = self.accounts().index_of(b);
                assert(after.accounts()[k] == b);
            }
            if b == a {
                assert(after.accounts()[n] == a);
            }
        }
        assert forall|b: Seq<char>| after.view().contains_key(b) implies after.view()[b] == self.view().insert(
            a,
            session,
        )[b] by {
            let k = after.accounts().index_of(b);
            assert(after.accounts()[k] == b);
            if b != a {
                assert(k < n);
                self.lemma_lookup(k);
            } else {
                assert(k == n);
            }
        }
        assert(after.view() =~= self.view().insert(a, session));
    }

    /// Removes and returns the session of `account`, if one is registered.
    pub fn remove(&mut self, account: &str) -> (r: Option<S>)
        requires
            old(self).wf(),
        ensures
            final(self).wf(),
            final(self).view() == old(self).view().remove(account@),
            match r {
                Some(s) => old(self).view().contains_key(account@) && s == old(self).view()[account@],
                None => !old(self).view().contains_key(account@),
            },
    {
        let key = String::from_str(account);
        match self.position(&key) {
            Some(i) => {
                proof {
                    self.lemma_lookup(i as int);
                }
                let ghost before = *self;
                let removed = self.entries.remove(i);
                proof {
                    before.lemma_removed(i as int, *self);
                }
                Some(removed.session)
            },
            None => {
                assert(self.view() =~= self.view().remove(account@));
                None
            },
        }
    }

    proof fn lemma_removed(&self, i: int, after: Self)
        requires
            self.wf(),
            0 <= i < self.entries@.len(),
            after.entries@ == self.entries@.remove(i),
        ensures
            after.wf(),
            after.view() == self.view().remove(self.entries@[i].account@),
    {
        let a = self.entries@[i].account@;
        let n = self.entries@.len();
        assert forall|x: int, y: int|
            0 <= x < after.entries@.len() && 0 <= y < after.entries@.len() && #[trigger] after.entries@[x].account@
                == #[trigger] after.entries@[y].account@ implies x == y by {
            let x0 = if x < i { x } else { x + 1 };
            let y0 = if y < i { y } else { y + 1 };
            assert(after.entries@[x] == self.entries@[x0]);
            assert(after.entries@[y] == self.entries@[y0]);
        }
        assert forall|b: Seq<char>| after.view().contains_key(b) <==> self.view().remove(a).contains_key(b) by {
            if after.accounts().contains(b) {
                let k = after.accounts().index_of(b);
                let k0 = if k < i { k } else { k + 1 };
                assert(after.entries@[k] == self.entries@[k0]);
                assert(self.accounts()[k0] == b);
                assert(b != a);
            }
            if self.accounts().contains(b) && b != a {
                let k0 = self.accounts().index_of(b);
                assert(self.accounts()[k0] == b);
                assert(k0 != i);
                let k = if k0 < i { k0 } else { k0 - 1 };
                assert(after.entries@[k] == self.entries@[k0]);
                assert(after.accounts()[k] == b);
            }
        }
        assert forall|b: Seq<char>| after.view().contains_key(b) implies after.view()[b] == self.view()[b] by {
            let k = after.accounts().index_of(b);
            assert(after.accounts()[k] == b);
            let k0 = if k < i { k } else { k + 1 };
            assert(after.entries@[k] == self.entries@[k0]);
            assert(self.accounts()[k0] == b);
            self.lemma_lookup(k0);
        }
        assert(after.view() =~= self.view().remove(a));
    }
}

/// The accounts that have a workflow running, so that two workflows never
/// drive the same account's tab at once.
pub struct AccountLocks {
    held: SessionRegistry<()>,
}

impl AccountLocks {
    /// The accounts currently held.
    pub closed spec fn view(&self) -> Set<Seq<char>> {
        self.held.view().dom()
    }

    pub closed spec fn wf(&self) -> bool {
        self.held.wf()
    }

    /// No account is held.
    pub fn new() -> (r: Self)
        ensures
            r.wf(),
            r.view() == Set::<Seq<char>>::empty(),
    {
        let r = AccountLocks { held: SessionRegistry::new() };
        assert(r.view() =~= Set::<Seq<char>>::empty());
        r
    }

    /// Takes `account` for a workflow; false, and nothing changes, when a
    /// workflow already holds it.
    pub fn try_acquire(&mut self, account: &str) -> (r: bool)
        requires
            old(self).wf(),
        ensures
            final(self).wf(),
            r == !old(self).view().contains(account@),
            final(self).view() == old(self).view().insert(account@),
    {
        if self.held.contains(account) {
            assert(self.view().insert(account@) =~= self.view());
            false
        } else {
            self.held.insert(account.to_string(), ());
            assert(self.view() =~= old(self).view().insert(account@));
            true
        }
    }

    /// Gives `account` back once its workflow is over.
    pub fn release(&mut self, account: &str)
        requires
            old(self).wf(),
        ensures
            final(self).wf(),
            final(self).view() == old(self).view().remove(account@),
    {
        self.held.remove(account);
        assert(self.view() =~= old(self).view().remove(account@));
    }
}

} // verus!
