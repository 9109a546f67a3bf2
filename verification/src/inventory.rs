//! Per-player item inventory: bounded slots, stacking by item and
//! durability, and exact all-or-nothing add and remove operations.

use vstd::prelude::*;

use crate::errors::ChainDepthError;
use crate::keys::AccountId;

verus! {

/// How many distinct item stacks an inventory can hold.
pub const MAX_INVENTORY_SLOTS: usize = 64;

/// One stack of identical items.
#[derive(Clone, Copy, Debug, PartialEq, Eq, Structural)]
pub struct InventoryItem {
    /// What the stack holds.
    pub item_id: u16,
    /// How many of it.
    pub amount: u32,
    /// Durability the stack was dropped with; stacks only merge when it
    /// matches.
    pub durability: u16,
}

/// One inventory per wallet.
#[derive(Clone, Debug)]
pub struct InventoryAccount {
    /// Wallet this inventory belongs to; all-zero when never written.
    pub owner: AccountId,
    /// The stacks currently held.
    pub items: Vec<InventoryItem>,
}

/// Whether a stack can absorb a drop of this item and durability.
pub open spec fn slot_matches(item: InventoryItem, item_id: u16, durability: u16) -> bool {
    item.item_id == item_id && item.durability == durability
}

/// Whether some stack can absorb a drop of this item and durability.
pub open spec fn has_matching_slot(items: Seq<InventoryItem>, item_id: u16, durability: u16) -> bool {
    exists|j: int| 0 <= j < items.len() && slot_matches(#[trigger] items[j], item_id, durability)
}

/// Index of the first stack that can absorb a drop of this item and
/// durability; meaningful only when one exists.
pub open spec fn first_matching_slot(items: Seq<InventoryItem>, item_id: u16, durability: u16) -> int {
    choose|j: int|
        0 <= j < items.len() && slot_matches(#[trigger] items[j], item_id, durability) && forall|
            k: int,
        | 0 <= k < j ==> !slot_matches(#[trigger] items[k], item_id, durability)
}

/// The first matching slot is exactly the matching index with no match
/// before it.
pub proof fn lemma_first_matching_slot(
    items: Seq<InventoryItem>,
    item_id: u16,
    durability: u16,
    i: int,
)
    requires
        0 <= i < items.len(),
        slot_matches(items[i], item_id, durability),
        forall|k: int| 0 <= k < i ==> !slot_matches(#[trigger] items[k], item_id, durability),
    ensures
        has_matching_slot(items, item_id, durability),
        first_matching_slot(items, item_id, durability) == i,
{
    assert(0 <= i < items.len() && slot_matches(items[i], item_id, durability) && (forall|k: int|
        0 <= k < i ==> !slot_matches(#[trigger] items[k], item_id, durability)));
    let j = first_matching_slot(items, item_id, durability);
    assert(0 <= j < items.len() && slot_matches(items[j], item_id, durability) && (forall|k: int|
        0 <= k < j ==> !slot_matches(#[trigger] items[k], item_id, durability))) by {
        assert(exists|j: int|
            0 <= j < items.len() && slot_matches(#[trigger] items[j], item_id, durability) && (
            forall|k: int| 0 <= k < j ==> !slot_matches(#[trigger] items[k], item_id, durability)));
    }
    if j < i {
        assert(!slot_matches(items[j], item_id, durability));
    }
    if j > i {
        assert(!slot_matches(items[i], item_id, durability));
    }
}

/// What [`InventoryAccount::add_item`] returns for a given inventory and
/// drop.
pub open spec fn add_item_decision_spec(
    items: Seq<InventoryItem>,
    item_id: u16,
    amount: u32,
    durability: u16,
) -> Result<(), ChainDepthError> {
    if item_id == 0 {
        Err(ChainDepthError::InvalidItemId)
    } else if amount == 0 {
        Err(ChainDepthError::InvalidItemAmount)
    } else if has_matching_slot(items, item_id, durability) {
        if items[first_matching_slot(items, item_id, durability)].amount + amount > u32::MAX {
            Err(ChainDepthError::Overflow)
        } else {
            Ok(())
        }
    } else if items.len() >= MAX_INVENTORY_SLOTS {
        Err(ChainDepthError::InventoryFull)
    } else {
        Ok(())
    }
}

/// The stacks after a successful add: the drop merges into the first
/// matching stack, or opens a new one at the end.
pub open spec fn add_item_result_spec(
    items: Seq<InventoryItem>,
    item_id: u16,
    amount: u32,
    durability: u16,
) -> Seq<InventoryItem> {
    if has_matching_slot(items, item_id, durability) {
        let j = first_matching_slot(items, item_id, durability);
        items.update(
            j,
            InventoryItem { amount: (items[j].amount + amount) as u32, ..items[j] },
        )
    } else {
        items.push(InventoryItem { item_id, amount, durability })
    }
}

/// Spend still owed after draining stacks `0..i` of this item, starting
/// from `init`: each matching stack gives up to what it holds, in order.
pub open spec fn remaining_after(
    items: Seq<InventoryItem>,
    item_id: u16,
    init: u32,
    i: int,
) -> u32
    decreases i,
{
    if i <= 0 {
        init
    } else {
        let prev = remaining_after(items, item_id, init, i - 1);
        let item = items[i - 1];
        if item.item_id == item_id && prev > 0 {
            if prev >= item.amount {
                (prev - item.amount) as u32
            } else {
                0
            }
        } else {
            prev
        }
    }
}

/// Stack `i` after the drain walked over it.
pub open spec fn drained_item(
    items: Seq<InventoryItem>,
    item_id: u16,
    init: u32,
    i: int,
) -> InventoryItem {
    let prev = remaining_after(items, item_id, init, i);
    let item = items[i];
    if item.item_id == item_id && prev > 0 {
        if prev >= item.amount {
            InventoryItem { amount: 0, ..item }
        } else {
            InventoryItem { amount: (item.amount - prev) as u32, ..item }
        }
    } else {
        item
    }
}

/// The stacks after a successful removal: every stack drained in order,
/// then the emptied stacks dropped.
pub open spec fn remove_item_result_spec(
    items: Seq<InventoryItem>,
    item_id: u16,
    amount: u32,
) -> Seq<InventoryItem> {
    Seq::new(items.len(), |i: int| drained_item(items, item_id, amount, i)).filter(
        |item: InventoryItem| item.amount > 0,
    )
}

impl InventoryAccount {
    /// Well-formedness: the stack list is within its slot cap.
    pub open spec fn wf(&self) -> bool {
        self.items@.len() <= MAX_INVENTORY_SLOTS
    }

    /// A fresh, empty inventory for this wallet.
    pub fn new(owner: AccountId) -> (r: InventoryAccount)
        ensures
            r.owner == owner,
            r.items@ == Seq::<InventoryItem>::empty(),
            r.wf(),
    {
        InventoryAccount { owner, items: Vec::new() }
    }

    /// Adds a drop to the inventory: it merges into the first stack with
    /// the same item and durability, or opens a new stack while a slot is
    /// free.  A rejected drop (zero id, zero amount, a stack that would
    /// overflow, or a full inventory) leaves the inventory untouched.
    pub fn add_item(&mut self, item_id: u16, amount: u32, durability: u16) -> (r: Result<
        (),
        ChainDepthError,
    >)
        requires
            old(self).wf(),
        ensures
            r == add_item_decision_spec(old(self).items@, item_id, amount, durability),
            final(self).owner == old(self).owner,
            r is Ok ==> final(self).items@ == add_item_result_spec(
                old(self).items@,
                item_id,
                amount,
                durability,
            ),
            r is Err ==> *final(self) == *old(self),
            final(self).wf(),
    {
        if item_id == 0 {
            return Err(ChainDepthError::InvalidItemId);
        }
        if amount == 0 {
            return Err(ChainDepthError::InvalidItemAmount);
        }

        let ghost items0 = old(self).items@;
        let mut i: usize = 0;
        while i < self.items.len()
            invariant
                i <= self.items@.len(),
                *self == *old(self),
                items0 == old(self).items@,
                old(self).wf(),
                item_id != 0,
                amount != 0,
                forall|k: int| 0 <= k < i ==> !slot_matches(#[trigger] items0[k], item_id, durability),
            decreases self.items@.len() - i,
        {
            let item = self.items[i];
            if item.item_id == item_id && item.durability == durability {
                proof {
                    assert(slot_matches(items0[i as int], item_id, durability));
                    lemma_first_matching_slot(items0, item_id, durability, i as int);
                }
                if amount > u32::MAX - item.amount {
                    return Err(ChainDepthError::Overflow);
                }
                let merged = InventoryItem { amount: item.amount + amount, ..item };
                self.items[i] = merged;
                proof {
                    assert(self.items@ =~= add_item_result_spec(
                        items0,
                        item_id,
                        amount,
                        durability,
                    ));
                }
                return Ok(());
            }
            i = i + 1;
        }

        proof {
            assert(!has_matching_slot(items0, item_id, durability));
        }
        if self.items.len() >= MAX_INVENTORY_SLOTS {
            return Err(ChainDepthError::InventoryFull);
        }
        self.items.push(InventoryItem { item_id, amount, durability });
        Ok(())
    }

    /// Removes this many of an item, draining matching stacks in order
    /// and dropping the stacks that end up empty.  When the inventory
    /// holds fewer than asked (or the id or amount is zero), nothing
    /// changes and the call reports why.
    pub fn remove_item(&mut self, item_id: u16, amount: u32) -> (r: Result<(), ChainDepthError>)
        requires
            old(self).wf(),
        ensures
            r == (if item_id == 0 {
                Err::<(), ChainDepthError>(ChainDepthError::InvalidItemId)
            } else if amount == 0 {
                Err::<(), ChainDepthError>(ChainDepthError::InvalidItemAmount)
            } else if remaining_after(
                old(self).items@,
                item_id,
                amount,
                old(self).items@.len() as int,
            ) > 0 {
                Err::<(), ChainDepthError>(ChainDepthError::InsufficientItemAmount)
            } else {
                Ok::<(), ChainDepthError>(())
            }),
            final(self).owner == old(self).owner,
            r is Ok ==> final(self).items@ == remove_item_result_spec(old(self).items@, item_id, amount),
            r is Err ==> *final(self) == *old(self),
            final(self).wf(),
    {
        if item_id == 0 {
            return Err(ChainDepthError::InvalidItemId);
        }
        if amount == 0 {
            return Err(ChainDepthError::InvalidItemAmount);
        }

        let ghost items0 = old(self).items@;

        // First pass: find out how much the matching stacks can give.
        let mut remaining: u32 = amount;
        let mut i: usize = 0;
        while i < self.items.len()
            invariant
                i <= self.items@.len(),
                *self == *old(self),
                items0 == old(self).items@,
                remaining == remaining_after(items0, item_id, amount, i as int),
            decreases self.items@.len() - i,
        {
            let item = self.items[i];
            if item.item_id == item_id && remaining > 0 {
                if remaining >= item.amount {
                    remaining = remaining - item.amount;
                } else {
                    remaining = 0;
                }
            }
            i = i + 1;
        }
        if remaining > 0 {
            return Err(ChainDepthError::InsufficientItemAmount);
        }

        // Second pass: rebuild the stacks, drained in order, dropping the
        // emptied ones.
        let mut kept: Vec<InventoryItem> = Vec::new();
        let mut rem: u32 = amount;
        let mut i: usize = 0;
        proof {
            assert(Seq::new(0nat, |j: int| drained_item(items0, item_id, amount, j)).filter(
                |item: InventoryItem| item.amount > 0,
            ) =~= Seq::<InventoryItem>::empty());
        }
        while i < self.items.len()
            invariant
                i <= self.items@.len(),
                *self == *old(self),
                items0 == old(self).items@,
                rem == remaining_after(items0, item_id, amount, i as int),
                kept@ == Seq::new(i as nat, |j: int| drained_item(items0, item_id, amount, j))
                    .filter(|item: InventoryItem| item.amount > 0),
                kept@.len() <= i,
            decreases self.items@.len() - i,
        {
            let item = self.items[i];
            let drained = if item.item_id == item_id && rem > 0 {
                if rem >= item.amount {
                    rem = rem - item.amount;
                    InventoryItem { amount: 0, ..item }
                } else {
                    let left = item.amount - rem;
                    rem = 0;
                    InventoryItem { amount: left, ..item }
                }
            } else {
                item
            };
            proof {
                assert(drained == drained_item(items0, item_id, amount, i as int));
                let prefix = Seq::new(i as nat, |j: int| drained_item(items0, item_id, amount, j));
                let prefix1 = Seq::new(
                    (i + 1) as nat,
                    |j: int| drained_item(items0, item_id, amount, j),
                );
                assert(prefix1.drop_last() =~= prefix);
                assert(prefix1.last() == drained);
                reveal_with_fuel(Seq::filter, 2);
            }
            if drained.amount > 0 {
                kept.push(drained);
            }
            i = i + 1;
        }
        proof {
            lemma_filter_len_le(
                Seq::new(items0.len(), |j: int| drained_item(items0, item_id, amount, j)),
                |item: InventoryItem| item.amount > 0,
            );
        }
        self.items = kept;
        Ok(())
    }
}

/// Filtering a sequence never lengthens it.
proof fn lemma_filter_len_le(s: Seq<InventoryItem>, pred: spec_fn(InventoryItem) -> bool)
    ensures
        s.filter(pred).len() <= s.len(),
    decreases s.len(),
{
    reveal_with_fuel(Seq::filter, 2);
    if s.len() > 0 {
        lemma_filter_len_le(s.drop_last(), pred);
    }
}

} // verus!
