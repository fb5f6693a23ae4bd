use foxtrot::interaction::{
    face_dialog_target, update_available_interaction, usher_interact, AvailablePlayerInteraction,
    InteractionCandidate, PlayerInteraction,
};

#[test]
fn default_prompt_is_talk() {
    assert_eq!(PlayerInteraction::Dialog("Ferris".to_string()).default_prompt(), "Talk");
}

#[test]
fn candidate_within_reach_becomes_available() {
    let mut available = AvailablePlayerInteraction(None);
    let changed = update_available_interaction(
        &mut available,
        Some(InteractionCandidate { entity: 5, within_reach: true }),
    );
    assert!(changed);
    assert_eq!(available, AvailablePlayerInteraction(Some(5)));
    let changed = update_available_interaction(
        &mut available,
        Some(InteractionCandidate { entity: 5, within_reach: true }),
    );
    assert!(!changed);
}

#[test]
fn candidate_out_of_reach_clears() {
    let mut available = AvailablePlayerInteraction(Some(5));
    let changed = update_available_interaction(
        &mut available,
        Some(InteractionCandidate { entity: 5, within_reach: false }),
    );
    assert!(changed);
    assert_eq!(available, AvailablePlayerInteraction(None));
    assert!(!update_available_interaction(&mut available, None));
}

#[test]
fn interact_takes_available() {
    let mut available = AvailablePlayerInteraction(Some(3));
    assert_eq!(usher_interact(&mut available, false), None);
    assert_eq!(available, AvailablePlayerInteraction(Some(3)));
    assert_eq!(usher_interact(&mut available, true), Some(3));
    assert_eq!(available, AvailablePlayerInteraction(None));
    assert_eq!(usher_interact(&mut available, true), None);
}

#[test]
fn dialog_camera_target_prefers_marked() {
    assert_eq!(face_dialog_target(1, &vec![2, 3, 4], &vec![]), 1);
    assert_eq!(face_dialog_target(1, &vec![2, 3, 4], &vec![4, 3]), 3);
    assert_eq!(face_dialog_target(1, &vec![2, 3, 4], &vec![1, 3]), 1);
    assert_eq!(face_dialog_target(1, &vec![], &vec![2]), 1);
}

use foxtrot::interaction::{show_prompt, PromptDisplay};

#[test]
fn prompt_shown_or_hidden() {
    assert!(matches!(show_prompt(None), PromptDisplay::Hidden));
    let talk = "Talk".to_string();
    match show_prompt(Some(&talk)) {
        PromptDisplay::Shown(t) => assert_eq!(t, "Talk"),
        PromptDisplay::Hidden => panic!("expected shown"),
    }
}
