use cosmos_client::hotbar::{
    held_slot_update, image_path, quantity_text, Hotbar, HotbarContents, HotbarEntities, ScrollDirection,
};

#[test]
fn scrolling_wraps_around() {
    let mut h = Hotbar::new(3);
    assert_eq!(h.selected_slot(), 0);
    h.scroll(ScrollDirection::Up);
    assert_eq!(h.selected_slot(), 2);
    h.scroll(ScrollDirection::Down);
    assert_eq!(h.selected_slot(), 0);
    h.scroll(ScrollDirection::Down);
    h.scroll(ScrollDirection::Still);
    assert_eq!(h.selected_slot(), 1);
    assert_eq!(Hotbar::default().n_slots(), 9);
}

#[test]
fn number_keys_win_over_the_wheel() {
    let mut h = Hotbar::new(9);
    h.apply_inputs(&vec![ScrollDirection::Down, ScrollDirection::Down], &vec![]);
    assert_eq!(h.selected_slot(), 2);
    h.apply_inputs(&vec![ScrollDirection::Down], &vec![5, 7]);
    assert_eq!(h.selected_slot(), 7);
    assert_eq!(h.take_slot_change(), Some((0, 7)));
    assert_eq!(h.take_slot_change(), None);
}

#[test]
fn slots_and_texts() {
    let mut h = Hotbar::new(2);
    let e = HotbarEntities { slot: 1, slot_text: 2, render_item_ent: 3 };
    h.push_slot(e);
    assert_eq!(h.slot_entities(0), Some(e));
    assert_eq!(h.slot_entities(1), None);
    assert_eq!(held_slot_update(3, 3), None);
    assert_eq!(held_slot_update(4, 3), Some(4));
    assert_eq!(quantity_text(Some(1)), "");
    assert_eq!(quantity_text(Some(64)), "64");
    assert_eq!(quantity_text(None), "");
    assert_eq!(image_path(true), "cosmos/images/ui/hotbar-slot-selected.png");
}

#[test]
fn hotbar_contents_hold_stacks() {
    let mut c: HotbarContents<u32> = HotbarContents::new(3);
    assert_eq!(c.n_slots(), 3);
    c.set_itemstack_at(1, Some(7));
    assert_eq!(c.itemstack_at(1), Some(&7));
    assert_eq!(c.itemstack_at(0), None);
    c.clear_contents();
    assert_eq!(c.iter(), &[None, None, None]);
}
