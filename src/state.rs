use vstd::prelude::*;

use crate::address::Address;
use crate::error::HookError;

verus! {

/// The whitelist record: the owners allowed to transfer, in insertion order,
/// and the bump that re-derives the record's address from its seed.
#[derive(Clone, Debug, PartialEq, Eq)]
pub struct Whitelist {
    pub address: Vec<Address>,
    pub bump: u8,
}

/// Bytes of the account tag that prefixes every record.
pub const DISCRIMINATOR_LEN: usize = 8;

/// Bytes of the length prefix of the address sequence.
pub const LENGTH_PREFIX_LEN: usize = 4;

/// Bytes of one address.
pub const ADDRESS_LEN: usize = 32;

/// `s` has no address twice.
pub open spec fn no_duplicates(s: Seq<Address>) -> bool {
    forall|i: int, j: int| 0 <= i < j < s.len() ==> s[i] != s[j]
}

/// `i` is the position of the first occurrence of `x` in `s`.
pub open spec fn is_first_index(s: Seq<Address>, x: Address, i: int) -> bool {
    &&& 0 <= i < s.len()
    &&& s[i] == x
    &&& forall|j: int| 0 <= j < i ==> s[j] != x
}

/// The sequence after adding `x`: appended when absent, unchanged when present.
pub open spec fn added(s: Seq<Address>, x: Address) -> Seq<Address> {
    if s.contains(x) {
        s
    } else {
        s.push(x)
    }
}

/// The sequence with the first occurrence of `x` taken out, or `s` itself when
/// `x` does not occur.
pub open spec fn removed(s: Seq<Address>, x: Address) -> Seq<Address> {
    if s.contains(x) {
        s.remove(choose|i: int| is_first_index(s, x, i))
    } else {
        s
    }
}

/// Bytes a record holding `n` addresses occupies: tag, length prefix,
/// addresses and bump.
pub open spec fn record_len(n: nat) -> nat {
    (DISCRIMINATOR_LEN + LENGTH_PREFIX_LEN + ADDRESS_LEN * n + 1) as nat
}

proof fn lemma_first_index_unique(s: Seq<Address>, x: Address, i: int, k: int)
    requires
        is_first_index(s, x, i),
        is_first_index(s, x, k),
    ensures
        i == k,
{
}

/// When `s[i]` is the first occurrence of `x`, removing `x` removes index `i`.
proof fn lemma_removed_at(s: Seq<Address>, x: Address, i: int)
    requires
        is_first_index(s, x, i),
    ensures
        removed(s, x) == s.remove(i),
{
    assert(s.contains(x));
    let k = choose|k: int| is_first_index(s, x, k);
    lemma_first_index_unique(s, x, i, k);
}

/// Adding an owner that is not listed and then removing it gives back the
/// list as it was.
pub proof fn lemma_add_then_remove(s: Seq<Address>, x: Address)
    requires
        !s.contains(x),
    ensures
        removed(added(s, x), x) == s,
{
    let t = s.push(x);
    assert(is_first_index(t, x, s.len() as int));
    lemma_removed_at(t, x, s.len() as int);
    assert(t.remove(s.len() as int) =~= s);
}

/// Adding keeps a list free of duplicates, and lists the added owner.
pub proof fn lemma_added_no_duplicates(s: Seq<Address>, x: Address)
    requires
        no_duplicates(s),
    ensures
        no_duplicates(added(s, x)),
        added(s, x).contains(x),
{
    if !s.contains(x) {
        assert(s.push(x)[s.len() as int] == x);
    }
}

/// Removing from a list free of duplicates leaves it free of duplicates and
/// without the removed owner.
pub proof fn lemma_removed_no_duplicates(s: Seq<Address>, x: Address)
    requires
        no_duplicates(s),
    ensures
        no_duplicates(removed(s, x)),
        !removed(s, x).contains(x),
{
    if s.contains(x) {
        let i = choose|i: int| is_first_index(s, x, i);
        let j0 = choose|j: int| 0 <= j < s.len() && s[j] == x;
        assert(is_first_index(s, x, j0));
        let r = s.remove(i);
        assert forall|a: int, b: int| 0 <= a < b < r.len() implies r[a] != r[b] by {
            let sa = if a < i { a } else { a + 1 };
            let sb = if b < i { b } else { b + 1 };
            assert(r[a] == s[sa] && r[b] == s[sb] && sa < sb);
        }
        if r.contains(x) {
            let k = choose|k: int| 0 <= k < r.len() && r[k] == x;
            let sk = if k < i { k } else { k + 1 };
            assert(s[sk] == x && sk != i);
        }
    }
}

impl Whitelist {
    /// No owner is listed twice.
    pub open spec fn wf(&self) -> bool {
        no_duplicates(self.address@)
    }

    /// Whether `owner` is listed, by a linear scan.
    pub fn contains(&self, owner: &Address) -> (r: bool)
        ensures
            r == self.address@.contains(*owner),
    {
        let mut i: usize = 0;
        while i < self.address.len()
            invariant
                0 <= i <= self.address.len(),
                forall|j: int| 0 <= j < i ==> self.address@[j] != *owner,
            decreases self.address.len() - i,
        {
            if self.address[i].same_as(owner) {
                return true;
            }
            i = i + 1;
        }
        false
    }

    /// Position of the first occurrence of `owner`, if it is listed.
    fn position(&self, owner: &Address) -> (r: Option<usize>)
        ensures
            match r {
                Some(i) => is_first_index(self.address@, *owner, i as int),
                None => !self.address@.contains(*owner),
            },
    {
        let mut i: usize = 0;
        while i < self.address.len()
            invariant
                0 <= i <= self.address.len(),
                forall|j: int| 0 <= j < i ==> self.address@[j] != *owner,
            decreases self.address.len() - i,
        {
            if self.address[i].same_as(owner) {
                return Some(i);
            }
            i = i + 1;
        }
        None
    }

    /// Lists `owner` when `signer` is the authority; an owner already listed
    /// is left as it is.
    pub fn add_to_whitelist(&mut self, signer: &Address, authority: &Address, owner: Address) -> (r:
        Result<(), HookError>)
        ensures
            r is Err <==> *signer != *authority,
            r == Err::<(), HookError>(HookError::Unauthorized) || r is Ok,
            r is Ok ==> final(self).address@ == added(old(self).address@, owner),
            r is Err ==> *final(self) == *old(self),
            final(self).bump == old(self).bump,
            old(self).wf() ==> final(self).wf(),
    {
        if !signer.same_as(authority) {
            return Err(HookError::Unauthorized);
        }
        proof {
            if old(self).wf() {
                lemma_added_no_duplicates(self.address@, owner);
            }
        }
        if !self.contains(&owner) {
            self.address.push(owner);
        }
        Ok(())
    }

    /// Takes the first occurrence of `owner` off the list when `signer` is the
    /// authority; an owner that is not listed leaves the list as it is.
    pub fn remove_from_whitelist(&mut self, signer: &Address, authority: &Address, owner: &Address)
        -> (r: Result<(), HookError>)
        ensures
            r is Err <==> *signer != *authority,
            r == Err::<(), HookError>(HookError::Unauthorized) || r is Ok,
            r is Ok ==> final(self).address@ == removed(old(self).address@, *owner),
            r is Err ==> *final(self) == *old(self),
            final(self).bump == old(self).bump,
            old(self).wf() ==> final(self).wf(),
    {
        if !signer.same_as(authority) {
            return Err(HookError::Unauthorized);
        }
        proof {
            if old(self).wf() {
                lemma_removed_no_duplicates(self.address@, *owner);
            }
        }
        match self.position(owner) {
            Some(i) => {
                proof {
                    lemma_removed_at(self.address@, *owner, i as int);
                }
                self.address.remove(i);
            },
            None => {},
        }
        Ok(())
    }

    /// Bytes a record holding `num_addresses` addresses occupies, or `None`
    /// when that does not fit in `usize`.
    pub fn space(num_addresses: usize) -> (r: Option<usize>)
        ensures
            r == (if record_len(num_addresses as nat) <= usize::MAX {
                Some(record_len(num_addresses as nat) as usize)
            } else {
                None::<usize>
            }),
    {
        match num_addresses.checked_mul(ADDRESS_LEN) {
            Some(n) => match n.checked_add(DISCRIMINATOR_LEN + LENGTH_PREFIX_LEN + 1) {
                Some(total) => Some(total),
                None => None,
            },
            None => None,
        }
    }
}

} // verus!
