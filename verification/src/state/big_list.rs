use vstd::prelude::*;
use anchor_lang::prelude::Pubkey;
use crate::errors::ListError;
use crate::keys::same_key;

verus! {

/// How the index of a shard is paid for.
#[derive(Clone, Copy, Debug, PartialEq, Eq, Structural)]
pub enum IndexType {
    GrowableIndex,
    PrepaidIndex,
}

/// One shard of a list. The same record serves at all three levels: at depth
/// 0 it is the root and its entries refer to branches, at depth 1 it is a
/// branch and its entries refer to leaves, at depth 2 it is a leaf and its
/// entries are the elements of the list.
#[derive(Clone, Debug, PartialEq, Eq)]
pub struct BigList {
    pub version: u8,
    pub index_type: IndexType,
    pub authority: Pubkey,
    /// The number of entries of this shard.
    pub len: u16,
    pub depth: u8,
    /// The position of this shard among the shards of its parent.
    pub index: u8,
    /// The number of elements in the leaves at or below this shard.
    pub total_elements: u32,
    pub elements: Vec<Pubkey>,
    pub created_at: i64,
}

impl BigList {
    /// The bytes that a stored shard takes before its first entry.
    pub const BASE_LEN: usize = 8 + 1 + 1 + 32 + 2 + 1 + 1 + 4 + 4 + 8;

    /// Whether neither the counter nor the entries of the shard go beyond the
    /// capacity of a shard.
    pub open spec fn within_capacity(self) -> bool {
        self.len <= 256 && self.elements@.len() <= 256
    }

    /// Whether the counter of the shard is the number of its entries.
    pub open spec fn normalized(self) -> bool {
        self.elements@.len() == self.len
    }

    /// Whether `self`, a later state of the shard `before`, is still within
    /// the capacity of a shard, and still has the number of its entries as
    /// its counter if `before` had.
    pub open spec fn keeps_shape_of(self, before: BigList) -> bool {
        &&& self.within_capacity()
        &&& before.normalized() ==> self.normalized()
    }

    /// Whether `self` and `other` agree in every field that an append leaves
    /// alone: all but the counter, the total and the entries.
    pub open spec fn same_header(self, other: BigList) -> bool {
        &&& self.version == other.version
        &&& self.index_type == other.index_type
        &&& self.authority == other.authority
        &&& self.depth == other.depth
        &&& self.index == other.index
        &&& self.created_at == other.created_at
    }

    /// Whether `self` and `other` hold the same in every field, the entries
    /// compared one by one.
    pub open spec fn same_as(self, other: BigList) -> bool {
        &&& self.same_header(other)
        &&& self.len == other.len
        &&& self.total_elements == other.total_elements
        &&& self.elements@ == other.elements@
    }

    /// Whether `self` is `before` with `extra` more elements somewhere below
    /// it: the total has grown by `extra`, and nothing else has changed.
    pub open spec fn counted_from(self, before: BigList, extra: nat) -> bool {
        &&& self.same_header(before)
        &&& self.len == before.len
        &&& self.elements@ == before.elements@
        &&& self.total_elements == before.total_elements + extra
    }

    /// Whether `self` is `before` with `added` behind its entries, in order:
    /// the counter and the total have both grown by the number of entries
    /// added, and the header has not changed.
    pub open spec fn extended_from(self, before: BigList, added: Seq<Pubkey>) -> bool {
        &&& self.same_header(before)
        &&& self.len == before.len + added.len()
        &&& self.elements@ == before.elements@ + added
        &&& self.total_elements == before.total_elements + added.len()
    }

    /// Whether `self` is the branch `before` with one leaf more: the key of
    /// the leaf stands behind the entries, the counter has grown by one and
    /// the total by `extra`.
    pub open spec fn with_leaf_from(self, before: BigList, leaf_key: Pubkey, extra: nat) -> bool {
        &&& self.same_header(before)
        &&& self.len == before.len + 1
        &&& self.elements@ == before.elements@.push(leaf_key)
        &&& self.total_elements == before.total_elements + extra
    }

    /// Whether `self` is the record `fresh` made into the leaf at `index`
    /// that holds exactly `entries`. Version, index type, authority and time
    /// of creation are those of `fresh`.
    pub open spec fn filled_from(self, fresh: BigList, index: nat, entries: Seq<Pubkey>) -> bool {
        &&& self.version == fresh.version
        &&& self.index_type == fresh.index_type
        &&& self.authority == fresh.authority
        &&& self.created_at == fresh.created_at
        &&& self.depth == 2
        &&& self.index == index
        &&& self.len == entries.len()
        &&& self.elements@ == entries
        &&& self.total_elements == entries.len()
    }

    /// Whether the shard is a fresh one at the given depth and index, made
    /// at `created_at` for `authority`: it holds `entries` and nothing else,
    /// and no element lies at or below it.
    pub open spec fn is_fresh(
        self,
        depth: u8,
        index: u8,
        authority: Pubkey,
        created_at: i64,
        entries: Seq<Pubkey>,
    ) -> bool {
        &&& self.version == 0
        &&& self.index_type == IndexType::GrowableIndex
        &&& self.authority == authority
        &&& self.depth == depth
        &&& self.index == index
        &&& self.created_at == created_at
        &&& self.len == entries.len()
        &&& self.elements@ == entries
        &&& self.total_elements == 0
    }

    /// The bytes that a stored shard of `items` entries takes.
    pub fn size(items: usize) -> (bytes: usize)
        requires
            62 + items * 32 <= usize::MAX,
        ensures
            bytes == 62 + items * 32,
    {
        Self::BASE_LEN + items * 32
    }

    /// Makes the shard a fresh one at the given depth and index, with
    /// `first_element` as its only entry if there is one. The total is not
    /// touched.
    pub fn init(
        &mut self,
        depth: u8,
        index: u8,
        authority: Pubkey,
        created_at: i64,
        first_element: Option<Pubkey>,
    )
        ensures
            final(self).version == 0,
            final(self).index_type == IndexType::GrowableIndex,
            final(self).authority == authority,
            final(self).depth == depth,
            final(self).index == index,
            final(self).created_at == created_at,
            final(self).total_elements == old(self).total_elements,
            final(self).elements@ == match first_element {
                Some(key) => seq![key],
                None => Seq::<Pubkey>::empty(),
            },
            final(self).normalized(),
    {
        self.version = 0;
        self.index_type = IndexType::GrowableIndex;
        self.authority = authority;
        self.depth = depth;
        self.index = index;
        self.created_at = created_at;
        match first_element {
            Some(pubkey) => {
                let mut elements: Vec<Pubkey> = Vec::new();
                elements.push(pubkey);
                self.elements = elements;
                self.len = 1;
            },
            None => {
                self.elements = Vec::new();
                self.len = 0;
            },
        }
    }

    /// Refuses a caller who is not the authority of the shard.
    pub fn check_authority(&self, caller: &Pubkey) -> (res: Result<(), ListError>)
        ensures
            self.authority == *caller ==> res == Ok::<(), ListError>(()),
            self.authority != *caller ==> res == Err::<(), ListError>(
                ListError::AuthorityMismatch,
            ),
    {
        if same_key(&self.authority, caller) {
            Ok(())
        } else {
            Err(ListError::AuthorityMismatch)
        }
    }
}

} // verus!
