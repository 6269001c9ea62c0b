use octo_survivors::sprites::{face_target, Vec3i};
use octo_survivors::states::{key_edge, FreeCamState, GameState};
use octo_survivors::world::World;

fn booted_world() -> World {
    let mut w = World::new();
    w.spawn_camera();
    w.spawn_scene();
    w.spawn_tower();
    w
}

#[test]
fn toggles_alternate_locked_and_free() {
    let mut w = booted_world();
    assert_eq!(w.cam_state, FreeCamState::Locked);
    for n in 1..=6 {
        w.toggle_freecam();
        let expected = if n % 2 == 0 { FreeCamState::Locked } else { FreeCamState::Free };
        assert_eq!(w.cam_state, expected);
    }
}

#[test]
fn capability_tracks_mode_after_each_toggle() {
    let mut w = booted_world();
    for _ in 0..5 {
        w.toggle_freecam();
        let free = w.cam_state == FreeCamState::Free;
        for e in &w.entities {
            if e.is_camera {
                assert_eq!(e.has_fly_cap, free);
            } else {
                assert!(!e.has_fly_cap);
            }
        }
    }
}

#[test]
fn camera_added_after_toggle_waits_for_next_toggle() {
    let mut w = booted_world();
    w.toggle_freecam();
    assert_eq!(w.cam_state, FreeCamState::Free);
    // A second camera spawned while the mode is already Free carries no
    // capability until the next toggle synchronizes the current entity set.
    w.spawn_camera();
    let late = w.entities[w.entities.len() - 1];
    assert!(late.is_camera);
    assert!(!late.has_fly_cap);
}

#[test]
fn key_edge_fires_on_press_edges_only() {
    assert!(key_edge(false, true));
    assert!(!key_edge(true, true));
    assert!(!key_edge(false, false));
    assert!(!key_edge(true, false));
}

#[test]
fn player_spawns_once_and_only_after_ready() {
    let mut w = booted_world();
    assert_eq!(w.game_state, GameState::Loading);
    // Before the asset gate opens, the guarded spawner does nothing.
    assert!(!w.spawn_player_sprite());
    assert_eq!(w.player_count(), 0);
    // The load state advances when the loader reports done.
    w.tick_frame(16, true, false);
    assert_eq!(w.game_state, GameState::Ready);
    assert_eq!(w.player_count(), 1);
    // However many ticks elapse after Ready, the spawn happened once.
    for _ in 0..10 {
        w.tick_frame(16, false, false);
        assert_eq!(w.player_count(), 1);
    }
    assert!(!w.spawn_player_sprite());
    assert_eq!(w.player_count(), 1);
}

#[test]
fn face_target_keeps_the_entity_height() {
    let cam = Vec3i { x: 10, y: 10, z: 10 };
    let pos = Vec3i { x: 0, y: 1, z: 0 };
    let target = face_target(cam, pos);
    assert_eq!(target, Vec3i { x: 10, y: 1, z: 10 });
    // The forward vector toward the target has a zero vertical component.
    assert_eq!(target.y - pos.y, 0);
}

#[test]
fn tower_shoots_only_when_enabled_and_bullets_expire() {
    let mut w = booted_world();
    // Disabled (the default wiring): a full period elapses, nothing spawns.
    let before = w.entities.len();
    w.tower_step(1000, false);
    assert_eq!(w.entities.len(), before);
    // Enabled: the next full period spawns exactly one projectile.
    w.tower_step(1000, true);
    assert_eq!(w.entities.len(), before + 1);
    let bullet = w.entities[w.entities.len() - 1];
    assert!(bullet.lifetime.is_some());
    // The projectile lives for 0.4 s: present at t = 0.39 s, gone at t = 0.41 s.
    for _ in 0..39 {
        w.lifetime_despawn(10);
    }
    assert_eq!(w.entities.len(), before + 1);
    w.lifetime_despawn(10);
    assert_eq!(w.entities.len(), before);
    w.lifetime_despawn(10);
    assert_eq!(w.entities.len(), before);
}

#[test]
fn end_to_end_boot_load_and_spawn() {
    let mut w = booted_world();
    // Simulated asset-load delay: the world stays in Loading and no player
    // entity exists.
    for _ in 0..30 {
        w.tick_frame(16, false, false);
        assert_eq!(w.game_state, GameState::Loading);
        assert_eq!(w.player_count(), 0);
    }
    // The load-complete signal fires; on the next tick exactly one player
    // exists, on its starting atlas frame and tagged to face the camera.
    w.tick_frame(16, true, false);
    assert_eq!(w.game_state, GameState::Ready);
    assert_eq!(w.player_count(), 1);
    let player = w.find_player().unwrap();
    assert!(player.faces_camera);
    let anim = player.animation.unwrap();
    assert_eq!(anim.index, 1);
    assert_eq!(anim.atlas_len, 3);
    // The facing system already oriented the player horizontally toward the
    // single camera.
    let target = player.look_target.unwrap();
    assert_eq!(target.y, player.position.y);
    assert_eq!(w.camera_count(), 1);
}
