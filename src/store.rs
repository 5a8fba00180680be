//! The credential store: one record per email, looked up by exact match.
use crate::models::UserRecord;
use vstd::prelude::*;

verus! {

/// An in-process credential store. Its view maps each registered email to the
/// stored password hash; an insert for an email already present is refused.
pub struct UserStore {
    users: Vec<UserRecord>,
    contents: Ghost<Map<Seq<char>, Seq<char>>>,
}

impl View for UserStore {
    type V = Map<Seq<char>, Seq<char>>;

    closed spec fn view(&self) -> Map<Seq<char>, Seq<char>> {
        self.contents@
    }
}

impl UserStore {
    /// The records hold each email at most once, and are exactly the view.
    pub closed spec fn wf(&self) -> bool {
        &&& forall|i: int, j: int|
            0 <= i < j < self.users@.len() ==> self.users@[i].email@ != self.users@[j].email@
        &&& forall|i: int|
            0 <= i < self.users@.len() ==> #[trigger] self.contents@.contains_key(self.users@[i].email@)
                && self.contents@[self.users@[i].email@] == self.users@[i].password_hash@
        &&& forall|e: Seq<char>|
            #[trigger] self.contents@.contains_key(e) ==> exists|i: int|
                0 <= i < self.users@.len() && self.users@[i].email@ == e
    }

    /// An empty store.
    pub fn new() -> (r: UserStore)
        ensures
            r.wf(),
            r@ == Map::<Seq<char>, Seq<char>>::empty(),
    {
        UserStore { users: Vec::new(), contents: Ghost(Map::empty()) }
    }

    /// Number of registered accounts.
    pub fn len(&self) -> (r: usize)
        requires
            self.wf(),
        ensures
            r == self@.len(),
    {
        proof { self.lemma_len(); }
        self.users.len()
    }

    proof fn lemma_len(&self)
        requires
            self.wf(),
        ensures
            self@.len() == self.users@.len(),
            self@.dom().finite(),
    {
        let emails = Seq::new(self.users@.len(), |i: int| self.users@[i].email@);
        assert(emails.no_duplicates()) by {
            assert forall|i: int, j: int| 0 <= i < emails.len() && 0 <= j < emails.len() && i != j
                implies emails[i] != emails[j] by {
                if j < i {
                    assert(self.users@[j].email@ != self.users@[i].email@);
                }
            }
        }
        assert(self@.dom() =~= emails.to_set()) by {
            assert forall|e: Seq<char>| self@.dom().contains(e) implies emails.to_set().contains(e) by {
                let i = choose|i: int| 0 <= i < self.users@.len() && self.users@[i].email@ == e;
                assert(emails[i] == e);
            }
            assert forall|e: Seq<char>| emails.to_set().contains(e) implies self@.dom().contains(e) by {
                let i = choose|i: int| 0 <= i < emails.len() && emails[i] == e;
                assert(self.contents@.contains_key(self.users@[i].email@));
            }
        }
        emails.unique_seq_to_set();
    }

    /// The record stored for an email, if any.
    pub fn find_user_by_email(&self, email: &String) -> (r: Option<UserRecord>)
        requires
            self.wf(),
        ensures
            r is Some <==> self@.contains_key(email@),
            r matches Some(rec) ==> rec.email@ == email@ && rec.password_hash@ == self@[email@],
    {
        let mut i: usize = 0;
        while i < self.users.len()
            invariant
                self.wf(),
                i <= self.users@.len(),
                forall|k: int| 0 <= k < i ==> self.users@[k].email@ != email@,
            decreases self.users@.len() - i,
        {
            if self.users[i].email == *email {
                let rec = UserRecord {
                    email: self.users[i].email.clone(),
                    password_hash: self.users[i].password_hash.clone(),
                };
                return Some(rec);
            }
            i += 1;
        }
        proof {
            if self@.contains_key(email@) {
                let k = choose|k: int| 0 <= k < self.users@.len() && self.users@[k].email@ == email@;
                assert(self.users@[k].email@ != email@);
            }
        }
        None
    }

    /// Inserts a record unless its email is already present. Returns the number
    /// of records added: 1, or 0 with the store unchanged.
    pub fn insert_user(&mut self, record: UserRecord) -> (r: u64)
        requires
            old(self).wf(),
        ensures
            final(self).wf(),
            old(self)@.contains_key(record.email@) ==> r == 0 && final(self)@ == old(self)@,
            !old(self)@.contains_key(record.email@) ==> r == 1
                && final(self)@ == old(self)@.insert(record.email@, record.password_hash@),
    {
        match self.find_user_by_email(&record.email) {
            Some(_) => 0,
            None => {
                let ghost e = record.email@;
                let ghost h = record.password_hash@;
                let ghost old_users = self.users@;
                self.users.push(record);
                self.contents = Ghost(self.contents@.insert(e, h));
                proof {
                    assert(self.users@[old_users.len() as int].email@ == e);
                    assert forall|f: Seq<char>| #[trigger] self.contents@.contains_key(f) implies exists|i: int|
                        0 <= i < self.users@.len() && self.users@[i].email@ == f by {
                        if f != e {
                            let i = choose|i: int| 0 <= i < old_users.len() && old_users[i].email@ == f;
                            assert(self.users@[i].email@ == f);
                        }
                    }
                    assert forall|i: int| 0 <= i < self.users@.len() implies #[trigger] self.contents@.contains_key(self.users@[i].email@)
                        && self.contents@[self.users@[i].email@] == self.users@[i].password_hash@ by {
                        if i < old_users.len() {
                            assert(self.users@[i] == old_users[i]);
                        }
                    }
                }
                1
            },
        }
    }
}

} // verus!
