//! The admins of the farm: a list of accounts in which none stands twice.

use crate::errors::Error;
use crate::structs::Address;
use vstd::prelude::*;

verus! {

/// Whether `i` is the first place at which `address` stands in `list`.
pub open spec fn is_first_index(list: Seq<Seq<u8>>, address: Seq<u8>, i: int) -> bool {
    &&& 0 <= i < list.len()
    &&& list[i] == address
    &&& forall|j: int| 0 <= j < i ==> list[j] != address
}

/// The list with `address` at its end, unless it stands in the list already.
pub open spec fn inserted(list: Seq<Seq<u8>>, address: Seq<u8>) -> Seq<Seq<u8>> {
    if list.contains(address) {
        list
    } else {
        list.push(address)
    }
}

/// The list without `address`: the last account takes the place at which
/// `address` first stood.
pub open spec fn swap_removed(list: Seq<Seq<u8>>, address: Seq<u8>) -> Seq<Seq<u8>> {
    if list.contains(address) {
        let i = choose|i: int| is_first_index(list, address, i);
        list.update(i, list.last()).drop_last()
    } else {
        list
    }
}

/// The list after each of `addresses` was inserted, in their order.
pub open spec fn inserted_all(list: Seq<Seq<u8>>, addresses: Seq<Seq<u8>>) -> Seq<Seq<u8>>
    decreases addresses.len(),
{
    if addresses.len() == 0 {
        list
    } else {
        inserted(inserted_all(list, addresses.drop_last()), addresses.last())
    }
}

/// The list after each of `addresses` was removed, in their order.
pub open spec fn swap_removed_all(list: Seq<Seq<u8>>, addresses: Seq<Seq<u8>>) -> Seq<Seq<u8>>
    decreases addresses.len(),
{
    if addresses.len() == 0 {
        list
    } else {
        swap_removed(swap_removed_all(list, addresses.drop_last()), addresses.last())
    }
}

/// Inserting keeps a list free of repetitions; the list then holds the
/// account, and what it held before.
pub proof fn lemma_inserted_keeps_distinct(list: Seq<Seq<u8>>, address: Seq<u8>)
    requires
        list.no_duplicates(),
    ensures
        inserted(list, address).no_duplicates(),
        forall|other: Seq<u8>|
            inserted(list, address).contains(other) <==> list.contains(other) || other
                == address,
{
    let after = inserted(list, address);
    if !list.contains(address) {
        assert(after[list.len() as int] == address);
        assert forall|other: Seq<u8>| list.contains(other) implies after.contains(other) by {
            let i = choose|i: int| 0 <= i < list.len() && list[i] == other;
            assert(after[i] == other);
        }
        assert forall|other: Seq<u8>| after.contains(other) implies list.contains(other) || other
            == address by {
            let i = choose|i: int| 0 <= i < after.len() && after[i] == other;
            if i < list.len() {
                assert(list[i] == other);
            }
        }
    }
}

/// Removing keeps a list free of repetitions; the list then holds what it
/// held before but the account.
pub proof fn lemma_swap_removed_keeps_distinct(list: Seq<Seq<u8>>, address: Seq<u8>)
    requires
        list.no_duplicates(),
    ensures
        swap_removed(list, address).no_duplicates(),
        forall|other: Seq<u8>|
            swap_removed(list, address).contains(other) <==> list.contains(other) && other
                != address,
{
    let after = swap_removed(list, address);
    if list.contains(address) {
        let k = choose|k: int| 0 <= k < list.len() && list[k] == address;
        let least = choose|j: int| is_first_index(list, address, j);
        assert(is_first_index(list, address, k));
        let last = list.len() - 1;
        assert(least == k);
        assert forall|other: Seq<u8>|
            other != address && list.contains(other) implies after.contains(other) by {
            let i = choose|i: int| 0 <= i < list.len() && list[i] == other;
            if i == last {
                assert(after[k] == other);
            } else {
                assert(after[i] == other);
            }
        }
        assert forall|other: Seq<u8>| after.contains(other) implies list.contains(other) && other
            != address by {
            let i = choose|i: int| 0 <= i < after.len() && after[i] == other;
            if i == k {
                assert(list[last] == other);
            } else {
                assert(list[i] == other);
            }
        }
    } else {
        assert forall|other: Seq<u8>| list.contains(other) implies other != address by {}
    }
}

/// A list holds what the list without its last account holds, and that last
/// account.
proof fn lemma_contains_front_or_last(list: Seq<Seq<u8>>)
    requires
        list.len() > 0,
    ensures
        forall|other: Seq<u8>|
            list.contains(other) <==> list.drop_last().contains(other) || other == list.last(),
{
    let front = list.drop_last();
    assert forall|other: Seq<u8>| list.contains(other) implies front.contains(other) || other
        == list.last() by {
        let i = choose|i: int| 0 <= i < list.len() && list[i] == other;
        if i < front.len() {
            assert(front[i] == other);
        }
    }
    assert forall|other: Seq<u8>| front.contains(other) implies list.contains(other) by {
        let i = choose|i: int| 0 <= i < front.len() && front[i] == other;
        assert(list[i] == other);
    }
    assert(list[list.len() - 1] == list.last());
}

/// Inserting accounts one after the other keeps a list free of repetitions;
/// the list then holds them, and what it held before.
pub proof fn lemma_inserted_all_keeps_distinct(list: Seq<Seq<u8>>, addresses: Seq<Seq<u8>>)
    requires
        list.no_duplicates(),
    ensures
        inserted_all(list, addresses).no_duplicates(),
        forall|other: Seq<u8>|
            inserted_all(list, addresses).contains(other) <==> list.contains(other)
                || addresses.contains(other),
    decreases addresses.len(),
{
    if addresses.len() > 0 {
        let front = addresses.drop_last();
        let before = inserted_all(list, front);
        lemma_inserted_all_keeps_distinct(list, front);
        lemma_inserted_keeps_distinct(before, addresses.last());
        lemma_contains_front_or_last(addresses);
    }
}

/// Removing accounts one after the other keeps a list free of repetitions;
/// the list then holds what it held before but them.
pub proof fn lemma_swap_removed_all_keeps_distinct(list: Seq<Seq<u8>>, addresses: Seq<Seq<u8>>)
    requires
        list.no_duplicates(),
    ensures
        swap_removed_all(list, addresses).no_duplicates(),
        forall|other: Seq<u8>|
            swap_removed_all(list, addresses).contains(other) <==> list.contains(other)
                && !addresses.contains(other),
    decreases addresses.len(),
{
    if addresses.len() > 0 {
        let front = addresses.drop_last();
        let before = swap_removed_all(list, front);
        lemma_swap_removed_all_keeps_distinct(list, front);
        lemma_swap_removed_keeps_distinct(before, addresses.last());
        lemma_contains_front_or_last(addresses);
    }
}

/// The first place at which `address` stands in `list`.
fn position(list: &Vec<Address>, address: &Address) -> (place: Option<usize>)
    ensures
        match place {
            Some(i) => is_first_index(list.deep_view(), address@, i as int),
            None => !list.deep_view().contains(address@),
        },
{
    let mut i: usize = 0;
    while i < list.len()
        invariant
            i <= list.len(),
            forall|j: int| 0 <= j < i ==> list.deep_view()[j] != address@,
        decreases list.len() - i,
    {
        if list[i].equals(address) {
            return Some(i);
        }
        i = i + 1;
    }
    None
}

/// The admins of the farm, in the order in which they are listed. No account
/// is listed twice.
#[derive(Debug)]
pub struct AdminsModule {
    admins: Vec<Address>,
}

impl View for AdminsModule {
    type V = Seq<Seq<u8>>;

    closed spec fn view(&self) -> Seq<Seq<u8>> {
        self.admins.deep_view()
    }
}

impl AdminsModule {
    #[verifier::type_invariant]
    spec fn listed_once(self) -> bool {
        self.admins.deep_view().no_duplicates()
    }

    /// No admins.
    pub fn new() -> (module: AdminsModule)
        ensures
            module@ == Seq::<Seq<u8>>::empty(),
    {
        let module = AdminsModule { admins: Vec::new() };
        proof {
            assert(module@ =~= Seq::<Seq<u8>>::empty());
        }
        module
    }

    /// Whether `address` is an admin.
    pub fn is_admin(&self, address: &Address) -> (listed: bool)
        ensures
            listed == self@.contains(address@),
    {
        position(&self.admins, address).is_some()
    }

    /// Refuses an account that is no admin.
    pub fn require_is_admin(&self, address: &Address) -> (allowed: Result<(), Error>)
        ensures
            allowed == if self@.contains(address@) {
                Ok::<(), Error>(())
            } else {
                Err::<(), Error>(Error::NotAdmin)
            },
    {
        if self.is_admin(address) {
            Ok(())
        } else {
            Err(Error::NotAdmin)
        }
    }

    /// Makes each of `addresses` an admin: afterwards the admins are those
    /// that were and those of `addresses`. One that is an admin already stays
    /// where it stands; a new one is listed last.
    pub fn add_admin(&mut self, addresses: &Vec<Address>)
        ensures
            final(self)@ == inserted_all(old(self)@, addresses.deep_view()),
            forall|address: Seq<u8>|
                final(self)@.contains(address) <==> old(self)@.contains(address)
                    || addresses.deep_view().contains(address),
    {
        proof {
            use_type_invariant(&*self);
            lemma_inserted_all_keeps_distinct(self@, addresses.deep_view());
        }
        let mut list: Vec<Address> = Vec::new();
        std::mem::swap(&mut list, &mut self.admins);
        let mut i: usize = 0;
        while i < addresses.len()
            invariant
                i <= addresses.len(),
                list.deep_view() == inserted_all(old(self)@, addresses.deep_view().take(i as int)),
            decreases addresses.len() - i,
        {
            let ghost before = list.deep_view();
            if position(&list, &addresses[i]).is_none() {
                list.push(addresses[i].clone());
                proof {
                    assert(list.deep_view() =~= before.push(addresses[i as int]@));
                }
            }
            proof {
                let all = addresses.deep_view();
                assert(all.take(i + 1).drop_last() =~= all.take(i as int));
                assert(all.take(i + 1).last() == addresses[i as int]@);
            }
            i = i + 1;
        }
        proof {
            let all = addresses.deep_view();
            assert(all.take(addresses.len() as int) =~= all);
        }
        self.admins = list;
    }

    /// Takes each of `addresses` from the admins: afterwards the admins are
    /// those that were, but those of `addresses`. The last admin moves to the
    /// place of one that leaves.
    pub fn remove_admin(&mut self, addresses: &Vec<Address>)
        ensures
            final(self)@ == swap_removed_all(old(self)@, addresses.deep_view()),
            forall|address: Seq<u8>|
                final(self)@.contains(address) <==> old(self)@.contains(address)
                    && !addresses.deep_view().contains(address),
    {
        proof {
            use_type_invariant(&*self);
            lemma_swap_removed_all_keeps_distinct(self@, addresses.deep_view());
        }
        let mut list: Vec<Address> = Vec::new();
        std::mem::swap(&mut list, &mut self.admins);
        let mut i: usize = 0;
        while i < addresses.len()
            invariant
                i <= addresses.len(),
                list.deep_view() == swap_removed_all(
                    old(self)@,
                    addresses.deep_view().take(i as int),
                ),
            decreases addresses.len() - i,
        {
            let ghost before = list.deep_view();
            let place: Option<usize> = position(&list, &addresses[i]);
            match place {
                Some(k) => {
                    proof {
                        let least = choose|j: int| is_first_index(before, addresses[i as int]@, j);
                        assert(is_first_index(before, addresses[i as int]@, k as int));
                        assert(least == k);
                    }
                    list.swap_remove(k);
                    proof {
                        assert(list.deep_view() =~= before.update(
                            k as int,
                            before.last(),
                        ).drop_last());
                    }
                },
                None => {},
            }
            proof {
                let all = addresses.deep_view();
                assert(all.take(i + 1).drop_last() =~= all.take(i as int));
                assert(all.take(i + 1).last() == addresses[i as int]@);
            }
            i = i + 1;
        }
        proof {
            let all = addresses.deep_view();
            assert(all.take(addresses.len() as int) =~= all);
        }
        self.admins = list;
    }

    /// The admins, in the order in which they are listed, each once.
    pub fn admins(&self) -> (list: Vec<Address>)
        ensures
            list.deep_view() == self@,
            self@.no_duplicates(),
    {
        proof {
            use_type_invariant(&*self);
        }
        let mut list: Vec<Address> = Vec::new();
        let mut i: usize = 0;
        while i < self.admins.len()
            invariant
                i <= self.admins.len(),
                list.deep_view() == self@.take(i as int),
            decreases self.admins.len() - i,
        {
            let ghost before = list.deep_view();
            list.push(self.admins[i].clone());
            proof {
                assert(list.deep_view() =~= before.push(self.admins[i as int]@));
                assert(self@.take(i + 1) =~= self@.take(i as int).push(self@[i as int]));
            }
            i = i + 1;
        }
        proof {
            assert(self@.take(self.admins.len() as int) =~= self@);
        }
        list
    }
}

} // verus!
