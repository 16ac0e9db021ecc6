//! Repositories of users that answer queries by index and by predicate.

use vstd::prelude::*;
use vstd::string::*;

verus! {

/// A user record.
#[derive(Debug, Clone)]
pub struct User {
    pub name: String,
    pub age: u32,
}

/// The items of `items` that `keep` marks, in their order.
pub open spec fn select<T>(items: Seq<T>, keep: Seq<bool>) -> Seq<T>
    decreases items.len(),
{
    if items.len() == 0 {
        Seq::empty()
    } else {
        let rest = select(items.drop_last(), keep.drop_last());
        if keep.last() {
            rest.push(items.last())
        } else {
            rest
        }
    }
}

/// True when `keep` holds, for each item, an answer that `predicate` can
/// give on it.
pub open spec fn answers<T, F: Fn(&T) -> bool>(predicate: F, items: Seq<T>, keep: Seq<bool>) -> bool {
    &&& keep.len() == items.len()
    &&& forall|i: int| 0 <= i < items.len() ==> call_ensures(predicate, (&items[i],), #[trigger] keep[i])
}

/// The values that a vector of references points to.
pub open spec fn targets<T>(refs: Seq<&T>) -> Seq<T> {
    Seq::new(refs.len(), |i: int| *refs[i])
}

/// The three users that every new repository holds.
pub open spec fn is_initial(users: Seq<User>) -> bool {
    &&& users.len() == 3
    &&& users[0].name@ == "Alice"@ && users[0].age == 30
    &&& users[1].name@ == "Bob"@ && users[1].age == 25
    &&& users[2].name@ == "Charlie"@ && users[2].age == 35
}

/// The users that a new repository starts with.
fn initial_users() -> (users: Vec<User>)
    ensures
        is_initial(users@),
{
    let mut users: Vec<User> = Vec::new();
    users.push(User { name: "Alice".to_owned(), age: 30 });
    users.push(User { name: "Bob".to_owned(), age: 25 });
    users.push(User { name: "Charlie".to_owned(), age: 35 });
    users
}

/// The item at index `id`, if there is one.
fn find_in<T>(items: &Vec<T>, id: u32) -> (r: Option<&T>)
    ensures
        r == (if id < items@.len() { Some(&items@[id as int]) } else { None }),
{
    if (id as usize) < items.len() {
        Some(&items[id as usize])
    } else {
        None
    }
}

/// A reference to every item, in order.
fn all_of<T>(items: &Vec<T>) -> (r: Vec<&T>)
    ensures
        targets(r@) == items@,
{
    let mut out: Vec<&T> = Vec::new();
    let mut i: usize = 0;
    while i < items.len()
        invariant
            i <= items.len(),
            out@.len() == i,
            forall|j: int| 0 <= j < i ==> *#[trigger] out@[j] == items@[j],
        decreases items.len() - i,
    {
        out.push(&items[i]);
        i = i + 1;
    }
    out
}

/// A reference to every item on which `predicate` answers true, in order.
fn filter_of<T, F: Fn(&T) -> bool>(items: &Vec<T>, predicate: F) -> (r: Vec<&T>)
    requires
        forall|i: int| 0 <= i < items@.len() ==> #[trigger] call_requires(predicate, (&items@[i],)),
    ensures
        exists|keep: Seq<bool>| answers(predicate, items@, keep) && targets(r@) == select(items@, keep),
{
    let mut out: Vec<&T> = Vec::new();
    let ghost mut keep: Seq<bool> = Seq::empty();
    let mut i: usize = 0;
    while i < items.len()
        invariant
            i <= items.len(),
            forall|j: int| 0 <= j < items@.len() ==> #[trigger] call_requires(predicate, (&items@[j],)),
            answers(predicate, items@.take(i as int), keep),
            targets(out@) == select(items@.take(i as int), keep),
        decreases items.len() - i,
    {
        let item = &items[i];
        let kept = predicate(item);
        proof {
            let before = items@.take(i as int);
            let after = items@.take(i as int + 1);
            let keep_after = keep.push(kept);
            assert(after.drop_last() =~= before);
            assert(keep_after.drop_last() =~= keep);
            keep = keep_after;
        }
        if kept {
            out.push(item);
        }
        i = i + 1;
    }
    assert(items@.take(i as int) =~= items@);
    out
}

/// A collection of records that can be asked for one record, for all of
/// them, or for those that satisfy a predicate.
pub trait Queryable<T> {
    /// The records, in the order in which queries see them.
    spec fn items(&self) -> Seq<T>;

    /// The record at index `id`, if there is one.
    fn find_by_id(&self, id: u32) -> (r: Option<&T>)
        ensures
            r == (if id < self.items().len() { Some(&self.items()[id as int]) } else { None }),
    ;

    /// Every record, in order.
    fn find_all(&self) -> (r: Vec<&T>)
        ensures
            targets(r@) == self.items(),
    ;

    /// The records on which `predicate` answers true, in order.
    fn filter<F: Fn(&T) -> bool>(&self, predicate: F) -> (r: Vec<&T>)
        requires
            forall|i: int| 0 <= i < self.items().len() ==> #[trigger] call_requires(predicate, (&self.items()[i],)),
        ensures
            exists|keep: Seq<bool>| answers(predicate, self.items(), keep) && targets(r@) == select(self.items(), keep),
    ;

    /// The number of records.
    fn count(&self) -> (n: usize)
        ensures
            n == self.items().len(),
    ;
}

/// Queries that every `Queryable` answers by filtering.
pub trait QueryableExt<T>: Queryable<T> {
    /// The first record on which `predicate` answers true.
    fn find_first<F: Fn(&T) -> bool>(&self, predicate: F) -> (r: Option<&T>)
        requires
            forall|i: int|
                0 <= i < self.items().len() ==> #[trigger] call_requires(predicate, (&self.items()[i],)),
        ensures
            exists|keep: Seq<bool>|
                {
                    &&& answers(predicate, self.items(), keep)
                    &&& r == (if select(self.items(), keep).len() > 0 {
                        Some(&select(self.items(), keep)[0])
                    } else {
                        None
                    })
                },
    {
        let found: Vec<&T> = self.filter(predicate);
        if found.len() > 0 {
            Some(found[0])
        } else {
            None
        }
    }

    /// True when `predicate` answers true on some record.
    fn exists_where<F: Fn(&T) -> bool>(&self, predicate: F) -> (r: bool)
        requires
            forall|i: int|
                0 <= i < self.items().len() ==> #[trigger] call_requires(predicate, (&self.items()[i],)),
        ensures
            exists|keep: Seq<bool>|
                answers(predicate, self.items(), keep) && r == (select(self.items(), keep).len() > 0),
    {
        let found: Vec<&T> = self.filter(predicate);
        found.len() > 0
    }

    /// The number of records on which `predicate` answers true.
    fn count_where<F: Fn(&T) -> bool>(&self, predicate: F) -> (n: usize)
        requires
            forall|i: int|
                0 <= i < self.items().len() ==> #[trigger] call_requires(predicate, (&self.items()[i],)),
        ensures
            exists|keep: Seq<bool>|
                answers(predicate, self.items(), keep) && n == select(self.items(), keep).len(),
    {
        let found: Vec<&T> = self.filter(predicate);
        found.len()
    }
}

impl<T, Q: Queryable<T>> QueryableExt<T> for Q {

}

/// A selection holds a record exactly if the record is marked, and never
/// more records than there are.
pub proof fn lemma_select_bounds<T>(items: Seq<T>, keep: Seq<bool>)
    requires
        keep.len() == items.len(),
    ensures
        select(items, keep).len() <= items.len(),
        forall|i: int| 0 <= i < items.len() && keep[i] ==> select(items, keep).contains(#[trigger] items[i]),
        forall|x: T|
            select(items, keep).contains(x) ==> exists|i: int|
                0 <= i < items.len() && keep[i] && items[i] == x,
    decreases items.len(),
{
    if items.len() > 0 {
        let front = items.drop_last();
        let marks = keep.drop_last();
        let last = items.len() - 1;
        lemma_select_bounds(front, marks);
        let rest = select(front, marks);
        let all = select(items, keep);
        assert forall|i: int| 0 <= i < items.len() && keep[i] implies all.contains(
            #[trigger] items[i],
        ) by {
            if i < last {
                assert(front[i] == items[i] && marks[i] == keep[i]);
                assert(rest.contains(front[i]));
                let k = choose|k: int| 0 <= k < rest.len() && rest[k] == front[i];
                assert(all[k] == items[i]);
            } else {
                assert(all[all.len() - 1] == items[i]);
            }
        }
        assert forall|x: T| all.contains(x) implies exists|i: int|
            0 <= i < items.len() && keep[i] && items[i] == x by {
            let k = choose|k: int| 0 <= k < all.len() && all[k] == x;
            if k < rest.len() {
                assert(rest[k] == x);
                assert(rest.contains(x));
                let i = choose|i: int| 0 <= i < front.len() && marks[i] && front[i] == x;
                assert(keep[i] && items[i] == x);
            } else {
                assert(keep[last] && items[last] == x);
            }
        }
    }
}

/// A fixed set of users.
pub struct UserRepository {
    users: Vec<User>,
}

impl UserRepository {
    /// The users held.
    pub closed spec fn view(&self) -> Seq<User> {
        self.users@
    }

    /// A repository of Alice (30), Bob (25) and Charlie (35).
    pub fn new() -> (repo: UserRepository)
        ensures
            is_initial(repo@),
    {
        UserRepository { users: initial_users() }
    }
}

impl Queryable<User> for UserRepository {
    open spec fn items(&self) -> Seq<User> {
        self@
    }

    fn find_by_id(&self, id: u32) -> (r: Option<&User>) {
        find_in(&self.users, id)
    }

    fn find_all(&self) -> (r: Vec<&User>) {
        all_of(&self.users)
    }

    fn filter<F: Fn(&User) -> bool>(&self, predicate: F) -> (r: Vec<&User>) {
        assert(self.items() == self.users@);
        filter_of(&self.users, predicate)
    }

    fn count(&self) -> (n: usize) {
        self.users.len()
    }
}

/// A set of users that can grow, shrink and change. A user's id is its
/// index, so a `delete` lowers the id of every user behind the deleted one.
pub struct AdvancedUserRepository {
    users: Vec<User>,
    next_id: u32,
}

impl AdvancedUserRepository {
    /// The users held.
    pub closed spec fn view(&self) -> Seq<User> {
        self.users@
    }

    /// The id that the next `insert` returns.
    pub closed spec fn spec_next_id(&self) -> u32 {
        self.next_id
    }

    /// The id that the next `insert` returns.
    #[verifier::when_used_as_spec(spec_next_id)]
    pub fn next_id(&self) -> (id: u32)
        ensures
            id == self.spec_next_id(),
    {
        self.next_id
    }

    /// A repository of Alice (30), Bob (25) and Charlie (35).
    pub fn new() -> (repo: AdvancedUserRepository)
        ensures
            is_initial(repo@),
            repo.next_id() == 3,
    {
        AdvancedUserRepository { users: initial_users(), next_id: 3 }
    }

    /// Appends `user` and returns the id given to it.
    pub fn insert(&mut self, user: User) -> (id: u32)
        requires
            old(self).next_id() < u32::MAX,
        ensures
            id == old(self).next_id(),
            final(self).next_id() == id + 1,
            final(self)@ == old(self)@.push(user),
    {
        let id: u32 = self.next_id;
        self.users.push(user);
        self.next_id = self.next_id + 1;
        id
    }

    /// Lets `updater` change the user at index `id`; false when there is
    /// none.
    pub fn update<F: FnOnce(&mut User)>(&mut self, id: u32, updater: F) -> (found: bool)
        requires
            forall|u: &mut User| call_requires(updater, (u,)),
        ensures
            found == (id < old(self)@.len()),
            final(self)@.len() == old(self)@.len(),
            final(self).next_id() == old(self).next_id(),
            forall|i: int| 0 <= i < old(self)@.len() && i != id ==> final(self)@[i] == old(self)@[i],
            found ==> exists|user: &mut User|
                {
                    &&& mut_ref_current(user) == old(self)@[id as int]
                    &&& mut_ref_future(user) == final(self)@[id as int]
                    &&& #[trigger] call_ensures(updater, (user,), ())
                },
    {
        if (id as usize) < self.users.len() {
            updater(&mut self.users[id as usize]);
            true
        } else {
            false
        }
    }

    /// Removes the user at index `id`; false when there is none.
    pub fn delete(&mut self, id: u32) -> (found: bool)
        ensures
            found == (id < old(self)@.len()),
            found ==> final(self)@ == old(self)@.remove(id as int),
            !found ==> final(self)@ == old(self)@,
            final(self).next_id() == old(self).next_id(),
    {
        if (id as usize) < self.users.len() {
            self.users.remove(id as usize);
            true
        } else {
            false
        }
    }
}

impl Queryable<User> for AdvancedUserRepository {
    open spec fn items(&self) -> Seq<User> {
        self@
    }

    fn find_by_id(&self, id: u32) -> (r: Option<&User>) {
        find_in(&self.users, id)
    }

    fn find_all(&self) -> (r: Vec<&User>) {
        all_of(&self.users)
    }

    fn filter<F: Fn(&User) -> bool>(&self, predicate: F) -> (r: Vec<&User>) {
        assert(self.items() == self.users@);
        filter_of(&self.users, predicate)
    }

    fn count(&self) -> (n: usize) {
        self.users.len()
    }
}

} // verus!
