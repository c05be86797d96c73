use pill_bench::spawning::material_for_pill;
use pill_bench::{NUM_PILLS, PILL_ENGINE_MATERIAL_COUNT, PILL_ENGINE_PILL_COUNT};

#[test]
fn scene_sizes() {
    assert_eq!(NUM_PILLS, 60000);
    assert_eq!(PILL_ENGINE_PILL_COUNT, 60000);
    assert_eq!(PILL_ENGINE_MATERIAL_COUNT, 10);
}

#[test]
fn pill_engine_materials_cycle() {
    let mut uses = [0usize; 10];
    for pill in 0..PILL_ENGINE_PILL_COUNT {
        uses[material_for_pill(pill, PILL_ENGINE_MATERIAL_COUNT)] += 1;
    }
    assert!(uses.iter().all(|&n| n == 6000));
}
