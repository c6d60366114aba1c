use platformer_core::camera::{move_camera, CameraState, InGameCamera};
use platformer_core::character::{
    collect_coins, next_character_state, CharacterState, CoinPouch, HealthPoints,
};
use platformer_core::control::{character_movement_input, map_movement_input};
use platformer_core::enemy::{next_slime_state, slime_turn, AnimationTimer, SlimeState};
use platformer_core::physics::{apply_gravity, intersects, Aabb};
use platformer_core::pickables::PickableItemType;
use platformer_core::ui::heart_icons;
use platformer_core::utils::{advance_frame, rand_list_item};
use platformer_core::CHARACTER_ROAMING_THRESHOLD;

#[test]
fn camera_waits_until_the_character_roams() {
    let mut cam = InGameCamera::new();
    assert_eq!(cam.state, CameraState::Waiting);

    // inside the roaming threshold: nothing changes
    move_camera(&mut cam, 100, 50, 4);
    assert_eq!(cam.state, CameraState::Waiting);
    assert_eq!(cam.x, 0);
    assert_eq!(cam.y, 0);

    // past the threshold to the right: start catching up
    let far = CHARACTER_ROAMING_THRESHOLD as i64 + 44;
    move_camera(&mut cam, far, 50, 4);
    assert_eq!(cam.state, CameraState::CatchingUp);
    assert!(cam.is_going_right);
    assert_eq!(cam.catching_up, far);
    assert_eq!(cam.x, 0, "the waiting tick itself does not move the camera");
}

#[test]
fn camera_catches_up_then_scrolls() {
    let mut cam = InGameCamera::new();
    move_camera(&mut cam, -400, 0, 4);
    assert_eq!(cam.state, CameraState::CatchingUp);
    assert!(!cam.is_going_right);
    assert_eq!(cam.catching_up, 400);

    // catch-up speed 150: two ticks of approach, the third finishes
    move_camera(&mut cam, -400, 7, 150);
    assert_eq!(cam.state, CameraState::CatchingUp);
    assert_eq!(cam.catching_up, 250);
    assert_eq!(cam.x, -150);
    assert_eq!(cam.y, 7);

    move_camera(&mut cam, -400, 7, 150);
    assert_eq!(cam.catching_up, 100);

    move_camera(&mut cam, -400, 7, 150);
    assert_eq!(cam.state, CameraState::Moving);
    assert_eq!(cam.catching_up, 0);
    assert_eq!(cam.x, -450);

    // moving: plain scrolling at the supplied speed
    move_camera(&mut cam, -400, 9, 64);
    assert_eq!(cam.state, CameraState::Moving);
    assert_eq!(cam.x, -514);
    assert_eq!(cam.y, 9);
}

#[test]
fn aabb_overlap_is_symmetric_and_tight() {
    let a = Aabb { center_x: 0, center_y: 0, half_x: 10, half_y: 10 };
    let touching = Aabb { center_x: 20, center_y: 0, half_x: 10, half_y: 10 };
    let apart = Aabb { center_x: 21, center_y: 0, half_x: 10, half_y: 10 };
    let above = Aabb { center_x: 0, center_y: 25, half_x: 10, half_y: 4 };
    assert!(intersects(&a, &touching));
    assert!(intersects(&touching, &a));
    assert!(!intersects(&a, &apart));
    assert!(!intersects(&a, &above));
}

#[test]
fn gravity_drops_only_unsupported_bodies() {
    let mut bodies = vec![
        Aabb { center_x: 0, center_y: 100, half_x: 8, half_y: 8 },
        Aabb { center_x: 500, center_y: 100, half_x: 8, half_y: 8 },
    ];
    let colliders = vec![Aabb { center_x: 0, center_y: 90, half_x: 32, half_y: 8 }];
    apply_gravity(&mut bodies, &colliders, 10);
    // the first body rests on the collider and stays
    assert_eq!(bodies[0].center_y, 100);
    // the second floats free and falls
    assert_eq!(bodies[1].center_y, 90);
    assert_eq!(bodies[1].center_x, 500);
}

#[test]
fn character_state_thresholds() {
    assert_eq!(next_character_state(401, false), CharacterState::Jumping);
    assert_eq!(next_character_state(400, false), CharacterState::Idle);
    assert_eq!(next_character_state(-401, true), CharacterState::Falling);
    assert_eq!(next_character_state(-400, true), CharacterState::Walking);
    assert_eq!(next_character_state(0, true), CharacterState::Walking);
    assert_eq!(next_character_state(0, false), CharacterState::Idle);
}

#[test]
fn character_animation_ranges() {
    assert_eq!(CharacterState::Idle.get_range(), (0, 4));
    assert_eq!(CharacterState::Walking.get_range(), (8, 15));
    assert_eq!(CharacterState::Jumping.get_range(), (16, 16));
    assert_eq!(CharacterState::Falling.get_range(), (24, 24));
}

#[test]
fn animation_frames_advance_and_wrap() {
    assert_eq!(advance_frame(8, 8, 15), 9);
    assert_eq!(advance_frame(14, 8, 15), 15);
    assert_eq!(advance_frame(15, 8, 15), 8);
    assert_eq!(advance_frame(16, 16, 16), 16);
}

#[test]
fn health_and_heart_icons() {
    let hp = HealthPoints::full(5);
    assert_eq!(hp.max_full_hearts, 5);
    assert_eq!(hp.current, 10);
    assert_eq!(heart_icons(&hp), vec![0, 0, 0, 0, 0]);

    let hurt = HealthPoints { max_full_hearts: 5, current: 7 };
    // three full hearts, one half heart, one empty heart
    assert_eq!(heart_icons(&hurt), vec![0, 0, 0, 1, 2]);

    let down = HealthPoints { max_full_hearts: 5, current: 0 };
    assert_eq!(heart_icons(&down), vec![2, 2, 2, 2, 2]);
}

#[test]
fn coins_accumulate_by_item_value() {
    let mut pouch = CoinPouch(50);
    collect_coins(&mut pouch, PickableItemType::Diammond);
    assert_eq!(pouch.0, 55);
    collect_coins(&mut pouch, PickableItemType::Gold);
    assert_eq!(pouch.0, 56);
}

#[test]
fn slime_state_and_turning() {
    assert_eq!(next_slime_state(-401, true), SlimeState::Falling);
    assert_eq!(next_slime_state(0, true), SlimeState::Walking);
    assert_eq!(next_slime_state(0, false), SlimeState::Idle);
    assert_eq!(SlimeState::Idle.get_range(), (0, 1));
    assert_eq!(SlimeState::Walking.get_range(), (0, 5));
    assert_eq!(SlimeState::Falling.get_range(), (2, 2));

    // walking left into a wall on the left: turn right
    assert_eq!(slime_turn(true, 900, -1), 1);
    // walking right into a wall on the right: turn left
    assert_eq!(slime_turn(false, -900, 1), -1);
    // a shallow contact does not turn the slime
    assert_eq!(slime_turn(true, 300, -1), -1);
    assert_eq!(slime_turn(false, 300, 1), 1);
}

#[test]
fn animation_timer_repeats_and_keeps_the_remainder() {
    let mut timer = AnimationTimer::new(100);
    assert!(!timer.tick(40));
    assert!(!timer.tick(40));
    assert!(timer.tick(40));
    assert_eq!(timer.elapsed_millis, 20);
    // a long frame still finishes the interval, wrapping the spare time
    assert!(timer.tick(250));
    assert_eq!(timer.elapsed_millis, 70);
}

#[test]
fn input_mapping() {
    let o = map_movement_input(true, false, false, false, 64);
    assert_eq!((o.0, o.1), (64, 0));
    let o = map_movement_input(false, true, true, false, 64);
    assert_eq!((o.0, o.1), (-64, 64));
    let o = map_movement_input(true, true, false, true, 64);
    assert_eq!((o.0, o.1), (0, -64));

    let i = character_movement_input(true, false, false);
    assert_eq!((i.x, i.y), (-1, 0));
    let i = character_movement_input(false, true, true);
    assert_eq!((i.x, i.y), (1, 1));
}

#[test]
fn random_list_pick_returns_a_member() {
    let list = [3u32, 1, 4, 1, 5, 9];
    for _ in 0..50 {
        let item = rand_list_item(&list);
        assert!(list.contains(&item));
    }
    let single = [42u8];
    assert_eq!(rand_list_item(&single), 42);
}
