use chaindepth::errors::ChainDepthError;
use chaindepth::inventory::{InventoryAccount, InventoryItem, MAX_INVENTORY_SLOTS};
use chaindepth::item_ids;
use chaindepth::keys::AccountId;
use chaindepth::loot_tables::{
    calculate_boss_loot, calculate_loot, generate_boss_loot_hash, generate_loot_hash,
    item_durability, map_boss_item_type_to_item_id, map_chest_item_type_to_item_id,
};
use chaindepth::item_types;

fn key(n: u64) -> AccountId {
    AccountId::new(n, 0, 0, 0)
}

#[test]
fn adding_opens_a_stack_and_merges_matching_drops() {
    let mut inv = InventoryAccount::new(key(1));
    inv.add_item(item_ids::GOLD_COIN, 3, 0).unwrap();
    assert_eq!(inv.items.len(), 1);
    assert_eq!(inv.items[0].amount, 3);

    // The same item and durability merge; a different durability opens a
    // second stack.
    inv.add_item(item_ids::GOLD_COIN, 2, 0).unwrap();
    assert_eq!(inv.items.len(), 1);
    assert_eq!(inv.items[0].amount, 5);
    inv.add_item(item_ids::IRON_SWORD, 1, 120).unwrap();
    inv.add_item(item_ids::IRON_SWORD, 1, 60).unwrap();
    assert_eq!(inv.items.len(), 3);
    assert_eq!(inv.items[1].amount, 1);
    assert_eq!(inv.items[2].durability, 60);
}

#[test]
fn adding_validates_id_and_amount() {
    let mut inv = InventoryAccount::new(key(1));
    assert_eq!(inv.add_item(0, 1, 0).unwrap_err(), ChainDepthError::InvalidItemId);
    assert_eq!(
        inv.add_item(item_ids::RUBY, 0, 0).unwrap_err(),
        ChainDepthError::InvalidItemAmount
    );
    assert!(inv.items.is_empty());
}

#[test]
fn an_overflowing_stack_rejects_the_drop() {
    let mut inv = InventoryAccount::new(key(1));
    inv.add_item(item_ids::RUBY, u32::MAX - 1, 0).unwrap();
    assert_eq!(inv.add_item(item_ids::RUBY, 2, 0).unwrap_err(), ChainDepthError::Overflow);
    assert_eq!(inv.items[0].amount, u32::MAX - 1);
    inv.add_item(item_ids::RUBY, 1, 0).unwrap();
    assert_eq!(inv.items[0].amount, u32::MAX);
}

#[test]
fn a_full_inventory_rejects_new_stacks_but_still_merges() {
    let mut inv = InventoryAccount::new(key(1));
    for n in 0..MAX_INVENTORY_SLOTS as u16 {
        inv.add_item(100 + n, 1, 0).unwrap();
    }
    assert_eq!(inv.items.len(), MAX_INVENTORY_SLOTS);
    assert_eq!(inv.add_item(999, 1, 0).unwrap_err(), ChainDepthError::InventoryFull);
    // A drop that merges into an existing stack still lands.
    inv.add_item(100, 4, 0).unwrap();
    assert_eq!(inv.items[0].amount, 5);
}

#[test]
fn removing_drains_stacks_in_order_and_drops_empties() {
    let mut inv = InventoryAccount::new(key(1));
    inv.add_item(item_ids::GOLD_COIN, 3, 0).unwrap();
    inv.add_item(item_ids::RUBY, 5, 0).unwrap();
    // Two stacks of the same item with different durabilities both serve
    // a removal, front first.
    inv.add_item(item_ids::GOLD_COIN, 4, 7).unwrap();

    inv.remove_item(item_ids::GOLD_COIN, 5).unwrap();
    // The first gold stack (3) emptied and vanished; the second gave 2.
    assert_eq!(inv.items.len(), 2);
    assert_eq!(inv.items[0].item_id, item_ids::RUBY);
    assert_eq!(inv.items[1].item_id, item_ids::GOLD_COIN);
    assert_eq!(inv.items[1].amount, 2);
}

#[test]
fn removing_more_than_held_changes_nothing() {
    let mut inv = InventoryAccount::new(key(1));
    inv.add_item(item_ids::GOLD_COIN, 3, 0).unwrap();
    assert_eq!(
        inv.remove_item(item_ids::GOLD_COIN, 4).unwrap_err(),
        ChainDepthError::InsufficientItemAmount
    );
    assert_eq!(inv.items.len(), 1);
    assert_eq!(inv.items[0].amount, 3);
    assert_eq!(
        inv.remove_item(item_ids::RUBY, 1).unwrap_err(),
        ChainDepthError::InsufficientItemAmount
    );
    assert_eq!(inv.remove_item(0, 1).unwrap_err(), ChainDepthError::InvalidItemId);
    assert_eq!(
        inv.remove_item(item_ids::GOLD_COIN, 0).unwrap_err(),
        ChainDepthError::InvalidItemAmount
    );
}

#[test]
fn removing_exactly_everything_empties_the_inventory() {
    let mut inv = InventoryAccount::new(key(1));
    inv.add_item(item_ids::RUBY, 2, 0).unwrap();
    inv.add_item(item_ids::RUBY, 3, 9).unwrap();
    inv.remove_item(item_ids::RUBY, 5).unwrap();
    assert!(inv.items.is_empty());
}

#[test]
fn loot_hashes_mix_slot_key_and_boss_variant() {
    // A zero key folds to slot * 31^4.
    assert_eq!(generate_loot_hash(1, &key(0)), 923_521);
    assert_eq!(generate_loot_hash(1, &key(0)), generate_loot_hash(1, &key(0)));
    assert_ne!(generate_loot_hash(1, &key(0)), generate_loot_hash(2, &key(0)));
    assert_ne!(generate_loot_hash(1, &key(1)), generate_loot_hash(1, &key(2)));
    // The boss hash folds the variant in first: (1 * 31 + 2) * 31^4.
    assert_eq!(generate_boss_loot_hash(1, &key(0), 2), 33 * 923_521);
    assert_ne!(
        generate_boss_loot_hash(1, &key(0), 1),
        generate_boss_loot_hash(1, &key(0), 2)
    );
}

#[test]
fn chest_loot_follows_the_weighted_table() {
    // Hash 0: type roll 0 is ore, the amount byte is 0, so one ore; the
    // picker is 0, landing on the first valuable.
    assert_eq!(calculate_loot(0), (item_types::ORE, 1));
    assert_eq!(map_chest_item_type_to_item_id(item_types::ORE, 0), item_ids::SILVER_COIN);

    // Hash 60: a tool, always exactly one.
    assert_eq!(calculate_loot(60), (item_types::TOOL, 1));
    // Hash 85: a buff; amount byte 0 gives one.
    assert_eq!(calculate_loot(85), (item_types::BUFF, 1));

    // The picker reads bits 16..32: 3 << 16 picks the fourth tool.
    assert_eq!(
        map_chest_item_type_to_item_id(item_types::TOOL, 3 << 16),
        item_ids::IRON_SWORD
    );
    assert_eq!(
        map_chest_item_type_to_item_id(item_types::BUFF, 1 << 16),
        item_ids::MAJOR_BUFF
    );
}

#[test]
fn boss_loot_is_richer_than_chest_loot() {
    // Hash 0: ore with amount 0 % 8 + 3 = 3, landing on gold.
    assert_eq!(calculate_boss_loot(0), (item_types::ORE, 3));
    assert_eq!(map_boss_item_type_to_item_id(item_types::ORE, 0), item_ids::GOLD_COIN);
    // Type rolls 35..74 drop a tool; 75 and up a buff of two to six.
    assert_eq!(calculate_boss_loot(35), (item_types::TOOL, 1));
    assert_eq!(calculate_boss_loot(75), (item_types::BUFF, 2));
    // Picker 2 lands on the diamond sword, a boss-only drop.
    assert_eq!(
        map_boss_item_type_to_item_id(item_types::TOOL, 2 << 16),
        item_ids::DIAMOND_SWORD
    );
}

#[test]
fn durability_depends_on_the_tool_tier() {
    assert_eq!(item_durability(item_types::TOOL, item_ids::BRONZE_PICKAXE), 80);
    assert_eq!(item_durability(item_types::TOOL, item_ids::IRON_SCIMITAR), 120);
    assert_eq!(item_durability(item_types::TOOL, item_ids::DIAMOND_SWORD), 200);
    assert_eq!(item_durability(item_types::TOOL, item_ids::NOKIA_3310), 9999);
    assert_eq!(item_durability(item_types::TOOL, item_ids::WOODEN_TANKARD), 60);
    // Anything that is not a tool carries no durability.
    assert_eq!(item_durability(item_types::ORE, item_ids::GOLD_COIN), 0);
    assert_eq!(item_durability(item_types::BUFF, item_ids::MINOR_BUFF), 0);
}

#[test]
fn inventory_item_stacks_compare_by_fields() {
    let a = InventoryItem { item_id: 1, amount: 2, durability: 3 };
    let b = InventoryItem { item_id: 1, amount: 2, durability: 3 };
    assert_eq!(a, b);
}
