use pill_bench::game::{Game, SpawnBatch, UpdatePlan};
use pill_bench::settings::Settings;
use pill_bench::spawning::material_for_pill;

fn game_with(pills: &str, batch: &str, materials: &str) -> Game {
    let mut game = Game::default();
    game.init(&Settings::from_raw(
        &Some(pills.to_string()),
        &Some(batch.to_string()),
        &Some(materials.to_string()),
    ));
    game
}

#[test]
fn default_game_is_empty() {
    let game = Game::default();
    assert_eq!(game.pill_count(), 0);
    assert_eq!(game.pending_index(), 0);
    assert_eq!(game.spawn_batch(), 2000);
    assert_eq!(game.material_count(), 1);
    assert!(!game.quality_set());
    assert_eq!(game.fps_text_count(), 0);
}

#[test]
fn batches_cover_every_pill_in_order() {
    let mut game = game_with("5", "2", "3");
    assert_eq!(game.take_batch(), Some(SpawnBatch { start: 0, count: 2, finishes: false }));
    assert_eq!(game.take_batch(), Some(SpawnBatch { start: 2, count: 2, finishes: false }));
    assert_eq!(game.take_batch(), Some(SpawnBatch { start: 4, count: 1, finishes: true }));
    assert_eq!(game.pending_index(), 5);
    assert_eq!(game.take_batch(), None);
    assert_eq!(game.pending_index(), 5);
}

#[test]
fn full_benchmark_spawns_in_thirty_updates() {
    let mut game = game_with("60000", "2000", "10");
    let mut updates = 0;
    let mut next = 0;
    while let Some(batch) = game.take_batch() {
        assert_eq!(batch.start, next);
        assert_eq!(batch.count, 2000);
        next = batch.start + batch.count;
        updates += 1;
        assert_eq!(batch.finishes, updates == 30);
    }
    assert_eq!(updates, 30);
    assert_eq!(game.pending_index(), 60000);
}

#[test]
fn zero_pills_spawn_nothing() {
    let mut game = game_with("0", "2000", "10");
    assert_eq!(game.take_batch(), None);
}

#[test]
fn single_pill_is_one_batch() {
    let mut game = game_with("1", "2000", "10");
    assert_eq!(game.take_batch(), Some(SpawnBatch { start: 0, count: 1, finishes: true }));
    assert_eq!(game.take_batch(), None);
}

#[test]
fn zero_batch_size_never_progresses() {
    let mut game = game_with("3", "0", "10");
    for _ in 0..4 {
        assert_eq!(game.take_batch(), Some(SpawnBatch { start: 0, count: 0, finishes: false }));
    }
    assert_eq!(game.pending_index(), 0);
}

#[test]
fn quality_is_applied_once_graphics_exist() {
    let mut game = game_with("4", "2", "1");
    assert!(!game.note_graphics(false));
    assert!(!game.quality_set());
    assert!(game.note_graphics(true));
    assert!(game.quality_set());
    assert!(!game.note_graphics(true));
    game.init(&Settings::from_raw(&None, &None, &None));
    assert!(!game.quality_set());
    assert!(game.note_graphics(true));
}

#[test]
fn fps_texts_are_created_once() {
    let mut game = Game::default();
    assert_eq!(game.note_user_interfaces(0), 0);
    assert_eq!(game.note_user_interfaces(2), 2);
    assert_eq!(game.fps_text_count(), 2);
    assert_eq!(game.note_user_interfaces(2), 0);
    assert_eq!(game.note_user_interfaces(5), 0);
    assert_eq!(game.fps_text_count(), 2);
    game.init(&Settings::from_raw(&None, &None, &None));
    assert_eq!(game.fps_text_count(), 2);
}

#[test]
fn plan_update_combines_decisions() {
    let mut game = game_with("3", "2", "2");
    let plan = game.plan_update(false, 1, false);
    assert_eq!(plan, UpdatePlan { apply_quality: false, fps_texts_to_create: 1, spawn: None });
    assert_eq!(game.pending_index(), 0);
    let plan = game.plan_update(true, 1, true);
    assert_eq!(
        plan,
        UpdatePlan {
            apply_quality: true,
            fps_texts_to_create: 0,
            spawn: Some(SpawnBatch { start: 0, count: 2, finishes: false }),
        }
    );
    let plan = game.plan_update(true, 1, true);
    assert_eq!(
        plan,
        UpdatePlan {
            apply_quality: false,
            fps_texts_to_create: 0,
            spawn: Some(SpawnBatch { start: 2, count: 1, finishes: true }),
        }
    );
    let plan = game.plan_update(true, 1, true);
    assert_eq!(plan.spawn, None);
}

#[test]
fn materials_are_handed_out_in_turn() {
    let game = game_with("30", "5", "10");
    assert_eq!(game.material_index(0), 0);
    assert_eq!(game.material_index(9), 9);
    assert_eq!(game.material_index(10), 0);
    assert_eq!(game.material_index(13), 3);
    assert_eq!(game.material_index(13 + 10), game.material_index(13));
    assert_eq!(material_for_pill(59999, 10), 9);
    assert_eq!(material_for_pill(7, 1), 0);
}

#[test]
fn clone_keeps_state() {
    let mut game = game_with("9", "4", "2");
    game.take_batch();
    let copy = game.clone();
    assert_eq!(copy.pending_index(), 4);
    assert_eq!(copy.pill_count(), 9);
    assert_eq!(copy.material_count(), 2);
}
