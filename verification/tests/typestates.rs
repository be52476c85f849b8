use slim_futures::option_entry::{OptionEntry, OptionEntryExt, OptionPinnedEntry};
use slim_futures::three_states::{ThreeStates, ThreeStatesPinProject, ThreeStatesProject};

#[test]
fn option_entry_fills_and_empties_a_slot() {
    let mut slot: Option<u32> = None;
    match slot.entry() {
        OptionEntry::Vacant(vacant) => {
            let mut occupied = vacant.replace_some(3);
            *occupied.get_mut() += 4;
            let (_, value) = occupied.replace_none();
            assert_eq!(value, 7);
        },
        OptionEntry::Occupied(_) => panic!("the slot is empty"),
    }
    assert_eq!(slot, None);
    slot = Some(5);
    match slot.entry() {
        OptionEntry::Occupied(occupied) => *occupied.into_mut() = 6,
        OptionEntry::Vacant(_) => panic!("the slot is full"),
    }
    assert_eq!(slot, Some(6));
}

#[test]
fn option_pinned_entry_replaces_in_place() {
    let mut slot = Some(String::from("a"));
    match slot.pinned_entry() {
        OptionPinnedEntry::Occupied(mut occupied) => {
            occupied.replace_some(String::from("b"));
            occupied.get_pin_mut().push('c');
            let vacant = occupied.replace_none();
            let filled = vacant.replace_some(String::from("d"));
            filled.into_pin_mut().push('e');
        },
        OptionPinnedEntry::Vacant(_) => panic!("the slot is full"),
    }
    assert_eq!(slot.as_deref(), Some("de"));
    let mut empty: Option<String> = None;
    assert!(matches!(empty.pinned_entry(), OptionPinnedEntry::Vacant(_)));
}

#[test]
fn three_states_switch_states_and_hand_back_the_movable_part() {
    let mut state: ThreeStates<u8, u16, u32, u64, (), String> = ThreeStates::A { pinned: 1, unpinned: 2 };
    match state.project_mut() {
        ThreeStatesProject::A(mut a) => {
            {
                let parts = a.get_project();
                *parts.pinned += 10;
            }
            let (b, old) = a.replace_state_b(3, 4);
            assert_eq!(old, 2);
            let (c, old) = b.replace_state_c((), String::from("x"));
            assert_eq!(old, 4);
            let parts = c.into_project();
            parts.unpinned.push('y');
        },
        _ => panic!("the state is A"),
    }
    assert!(matches!(&state, ThreeStates::C { unpinned, .. } if unpinned == "xy"));
    match state.pin_project() {
        ThreeStatesPinProject::C(c) => {
            let (mut a, old) = c.replace_state_a(5, 6);
            assert_eq!(old, "xy");
            assert_eq!(a.replace_state_a(7, 8), 6);
        },
        _ => panic!("the state is C"),
    }
    assert!(matches!(state, ThreeStates::A { pinned: 7, unpinned: 8 }));
}
