use human::{Home, SlotTable};

fn three() -> SlotTable<&'static str> {
    let mut table = SlotTable::new();
    assert_eq!(table.connect("red"), 0);
    assert_eq!(table.connect("green"), 1);
    assert_eq!(table.connect("blue"), 2);
    table
}

fn slots(table: &SlotTable<&'static str>) -> Vec<Option<&'static str>> {
    (0..table.len()).map(|i| table.get(i).copied()).collect()
}

#[test]
fn new_table_is_empty_and_for_gameplay() {
    let table: SlotTable<u8> = SlotTable::new();
    assert_eq!(table.len(), 0);
    assert!(!table.is_renumbering());
    assert_eq!(table.get(0), None);
    let other: SlotTable<u8> = SlotTable::default();
    assert_eq!(other.len(), 0);
    assert!(!other.is_renumbering());
}

#[test]
fn slot_preservation() {
    let mut table = three();
    assert_eq!(table.disconnect(1), Some("green"));
    assert_eq!(slots(&table), vec![Some("red"), None, Some("blue")]);
    assert_eq!(table.connect("white"), 1);
    assert_eq!(slots(&table), vec![Some("red"), Some("white"), Some("blue")]);
    assert_eq!(table.len(), 3);
}

#[test]
fn renumbering_compaction() {
    let mut table = three();
    assert_eq!(table.disconnect(1), Some("green"));
    table.set_renumbering(true);
    assert!(table.is_renumbering());
    assert_eq!(table.len(), 2);
    assert_eq!(slots(&table), vec![Some("red"), Some("blue")]);
}

#[test]
fn lowest_hole_is_filled_first() {
    let mut table = three();
    assert_eq!(table.connect("black"), 3);
    assert_eq!(table.disconnect(2), Some("blue"));
    assert_eq!(table.disconnect(0), Some("red"));
    assert_eq!(slots(&table), vec![None, Some("green"), None, Some("black")]);
    assert_eq!(table.connect("white"), 0);
    assert_eq!(table.connect("grey"), 2);
    assert_eq!(table.connect("pink"), 4);
    assert_eq!(
        slots(&table),
        vec![Some("white"), Some("green"), Some("grey"), Some("black"), Some("pink")]
    );
}

#[test]
fn last_slot_stays_as_a_hole_during_gameplay() {
    let mut table = three();
    assert_eq!(table.disconnect(2), Some("blue"));
    assert_eq!(table.len(), 3);
    assert_eq!(slots(&table), vec![Some("red"), Some("green"), None]);
    assert_eq!(table.connect("white"), 2);
}

#[test]
fn unknown_and_empty_slots_are_passed_over() {
    let mut table = three();
    assert_eq!(table.disconnect(3), None);
    assert_eq!(table.disconnect(usize::MAX), None);
    assert_eq!(table.disconnect(1), Some("green"));
    assert_eq!(table.disconnect(1), None);
    assert_eq!(slots(&table), vec![Some("red"), None, Some("blue")]);
    table.set_renumbering(true);
    assert_eq!(table.disconnect(2), None);
    assert_eq!(slots(&table), vec![Some("red"), Some("blue")]);
}

#[test]
fn renumbering_removes_by_swapping_in_the_last() {
    let mut table = three();
    table.connect("black");
    table.set_renumbering(true);
    assert_eq!(table.disconnect(0), Some("red"));
    assert_eq!(slots(&table), vec![Some("black"), Some("green"), Some("blue")]);
    assert_eq!(table.disconnect(2), Some("blue"));
    assert_eq!(slots(&table), vec![Some("black"), Some("green")]);
    assert_eq!(table.connect("white"), 2);
    assert_eq!(slots(&table), vec![Some("black"), Some("green"), Some("white")]);
}

#[test]
fn compaction_keeps_the_order_and_every_controller() {
    let mut table = SlotTable::new();
    for name in ["a", "b", "c", "d", "e", "f"] {
        table.connect(name);
    }
    table.disconnect(0);
    table.disconnect(3);
    table.disconnect(5);
    table.set_renumbering(true);
    assert_eq!(slots(&table), vec![Some("b"), Some("c"), Some("e")]);
    table.set_renumbering(true);
    assert_eq!(slots(&table), vec![Some("b"), Some("c"), Some("e")]);
}

#[test]
fn back_to_gameplay_changes_no_slot() {
    let mut table = three();
    table.disconnect(0);
    table.set_renumbering(true);
    table.set_renumbering(false);
    assert!(!table.is_renumbering());
    assert_eq!(slots(&table), vec![Some("green"), Some("blue")]);
    assert_eq!(table.disconnect(0), Some("green"));
    assert_eq!(slots(&table), vec![None, Some("blue")]);
    table.set_renumbering(false);
    assert_eq!(slots(&table), vec![None, Some("blue")]);
}

#[test]
fn all_holes_compact_to_nothing() {
    let mut table = three();
    table.disconnect(0);
    table.disconnect(1);
    table.disconnect(2);
    assert_eq!(table.len(), 3);
    table.set_renumbering(true);
    assert_eq!(table.len(), 0);
    assert_eq!(table.connect("white"), 0);
}

#[test]
fn home_button_during_gameplay() {
    let mut table = three();
    assert_eq!(table.home(0), Home::Exit);
    assert_eq!(table.home(1), Home::Ignored);
    assert_eq!(table.home(2), Home::Ignored);
    assert_eq!(table.home(3), Home::Ignored);
    assert_eq!(slots(&table), vec![Some("red"), Some("green"), Some("blue")]);
    table.disconnect(0);
    assert_eq!(table.home(0), Home::Ignored);
    assert_eq!(slots(&table), vec![None, Some("green"), Some("blue")]);
}

#[test]
fn home_button_while_renumbering() {
    let mut table = three();
    table.set_renumbering(true);
    assert_eq!(table.home(1), Home::MovedBack);
    assert_eq!(slots(&table), vec![Some("red"), Some("blue"), Some("green")]);
    assert_eq!(table.home(0), Home::MovedBack);
    assert_eq!(slots(&table), vec![Some("blue"), Some("green"), Some("red")]);
    assert_eq!(table.home(2), Home::MovedBack);
    assert_eq!(slots(&table), vec![Some("blue"), Some("green"), Some("red")]);
    assert_eq!(table.home(3), Home::Ignored);
    assert_eq!(slots(&table), vec![Some("blue"), Some("green"), Some("red")]);
}

#[test]
fn home_button_on_an_empty_table() {
    let mut table: SlotTable<u8> = SlotTable::new();
    assert_eq!(table.home(0), Home::Ignored);
    table.set_renumbering(true);
    assert_eq!(table.home(0), Home::Ignored);
}

#[test]
fn rumble_goes_to_the_named_slot_or_to_all() {
    let mut table = three();
    table.disconnect(1);
    assert_eq!(table.rumble_targets(Some(0)), vec![0]);
    assert_eq!(table.rumble_targets(Some(2)), vec![2]);
    assert_eq!(table.rumble_targets(Some(1)), Vec::<usize>::new());
    assert_eq!(table.rumble_targets(Some(3)), Vec::<usize>::new());
    assert_eq!(table.rumble_targets(None), vec![0, 2]);
    table.set_renumbering(true);
    assert_eq!(table.rumble_targets(None), vec![0, 1]);
    assert_eq!(table.rumble_targets(Some(1)), vec![1]);
    assert_eq!(table.rumble_targets(Some(2)), Vec::<usize>::new());
    let empty: SlotTable<u8> = SlotTable::new();
    assert_eq!(empty.rumble_targets(None), Vec::<usize>::new());
    assert_eq!(empty.rumble_targets(Some(0)), Vec::<usize>::new());
}

#[test]
fn a_controller_can_be_changed_in_its_slot() {
    let mut table: SlotTable<u32> = SlotTable::new();
    table.connect(10);
    table.connect(20);
    table.disconnect(0);
    assert!(table.get_mut(0).is_none());
    assert!(table.get_mut(2).is_none());
    *table.get_mut(1).unwrap() += 1;
    assert_eq!(table.get(1), Some(&21));
    table.set_renumbering(true);
    *table.get_mut(0).unwrap() += 1;
    assert_eq!(table.get(0), Some(&22));
    assert!(table.get_mut(1).is_none());
    assert_eq!(table.get(1), None);
}
