use crate::lifetime::Lifetime;
use crate::player::{spec_default_player, Player};
use crate::sprites::{spec_face_target, SpriteAnimation, Vec3i};
use crate::states::{flipped, FreeCamState, GameState};
use crate::timer::{Timer, TimerMode};
use crate::tower::{Tower, TOWER_SHOT_PERIOD_MS};
use vstd::prelude::*;

verus! {

/// Fixed start position of the player camera, looking at the world origin.
pub const CAMERA_START_X: i64 = 10;

pub const CAMERA_START_Y: i64 = 10;

pub const CAMERA_START_Z: i64 = 10;

/// Fixed position of the tower.
pub const TOWER_X: i64 = -4;

pub const TOWER_Y: i64 = 2;

pub const TOWER_Z: i64 = 4;

/// Fixed position at which the tower's projectiles appear.
pub const BULLET_X: i64 = 2;

pub const BULLET_Y: i64 = 2;

pub const BULLET_Z: i64 = 2;

/// How long a projectile lives before it is despawned, in milliseconds.
pub const BULLET_LIFETIME_MS: u64 = 400;

/// Period of the player sprite's frame animation, in milliseconds.
pub const ANIMATION_PERIOD_MS: u64 = 400;

/// Number of frames in the player sprite's texture-atlas row.
pub const ATLAS_LEN: u32 = 3;

/// Atlas frame the player sprite starts on.
pub const PLAYER_START_FRAME: u32 = 1;

/// One entity of the simulated world: an identifier plus the open set of
/// components this core reads and writes. Absent components are `None` or
/// `false`; everything else about an entity (meshes, materials) belongs to
/// the rendering collaborator and is not modeled.
#[derive(Clone, Copy, Debug)]
pub struct Entity {
    pub id: u64,
    pub position: Vec3i,
    /// The point the entity is oriented toward, when set by the facing system.
    pub look_target: Option<Vec3i>,
    /// PlayerCamera tag: marks the single active camera.
    pub is_camera: bool,
    /// Free-movement capability component, granted while the camera mode is free.
    pub has_fly_cap: bool,
    /// FaceCamera tag: the entity re-orients toward the camera every frame.
    pub faces_camera: bool,
    pub player: Option<Player>,
    pub tower: Option<Tower>,
    pub lifetime: Option<Lifetime>,
    pub animation: Option<SpriteAnimation>,
}

impl Entity {
    /// Component invariants: every attached timer is well formed, and a
    /// player is never transient (no Lifetime), so despawning cannot remove
    /// it.
    pub open spec fn wf(self) -> bool {
        &&& (match self.tower {
            Some(t) => t.wf(),
            None => true,
        })
        &&& (match self.lifetime {
            Some(l) => l.wf(),
            None => true,
        })
        &&& (match self.animation {
            Some(a) => a.wf(),
            None => true,
        })
        &&& (self.player is Some ==> self.lifetime is None)
    }
}

pub open spec fn all_wf(s: Seq<Entity>) -> bool {
    forall|i: int| 0 <= i < s.len() ==> s[i].wf()
}

pub open spec fn ids_unique(s: Seq<Entity>) -> bool {
    forall|i: int, j: int| 0 <= i < j < s.len() ==> s[i].id != s[j].id
}

pub open spec fn ids_below(s: Seq<Entity>, bound: u64) -> bool {
    forall|i: int| 0 <= i < s.len() ==> s[i].id < bound
}

/// Number of entities carrying a Player component.
pub open spec fn count_players(s: Seq<Entity>) -> int
    decreases s.len(),
{
    if s.len() == 0 {
        0
    } else {
        count_players(s.drop_last()) + if s.last().player is Some {
            1int
        } else {
            0int
        }
    }
}

/// Number of entities tagged as the player camera.
pub open spec fn count_cameras(s: Seq<Entity>) -> int
    decreases s.len(),
{
    if s.len() == 0 {
        0
    } else {
        count_cameras(s.drop_last()) + if s.last().is_camera {
            1int
        } else {
            0int
        }
    }
}

/// Both counts are determined by which components each position carries, so
/// any pointwise change that keeps identifiers, player presence and the
/// camera tag keeps the counts.
pub proof fn lemma_counts_pointwise(s1: Seq<Entity>, s2: Seq<Entity>)
    requires
        s1.len() == s2.len(),
        forall|i: int|
            0 <= i < s1.len() ==> (s1[i].player is Some <==> s2[i].player is Some)
                && s1[i].is_camera == s2[i].is_camera,
    ensures
        count_players(s1) == count_players(s2),
        count_cameras(s1) == count_cameras(s2),
    decreases s1.len(),
{
    if s1.len() > 0 {
        lemma_counts_pointwise(s1.drop_last(), s2.drop_last());
    }
}

/// Appending one entity extends both counts by that entity's own components.
pub proof fn lemma_counts_push(s: Seq<Entity>, e: Entity)
    ensures
        count_players(s.push(e)) == count_players(s) + if e.player is Some {
            1int
        } else {
            0int
        },
        count_cameras(s.push(e)) == count_cameras(s) + if e.is_camera {
            1int
        } else {
            0int
        },
{
    assert(s.push(e).drop_last() =~= s);
}

/// A position holding a camera tag puts the camera count at one or more.
pub proof fn lemma_count_cameras_at(s: Seq<Entity>, i: int)
    requires
        0 <= i < s.len(),
        s[i].is_camera,
    ensures
        count_cameras(s) >= 1,
    decreases s.len(),
{
    if i < s.len() - 1 {
        lemma_count_cameras_at(s.drop_last(), i);
    }
    lemma_count_cameras_nonneg(s.drop_last());
}

pub proof fn lemma_count_cameras_nonneg(s: Seq<Entity>)
    ensures
        count_cameras(s) >= 0,
    decreases s.len(),
{
    if s.len() > 0 {
        lemma_count_cameras_nonneg(s.drop_last());
    }
}

/// Two distinct camera-tagged positions put the camera count at two or more.
pub proof fn lemma_count_cameras_two(s: Seq<Entity>, i: int, j: int)
    requires
        0 <= i < j < s.len(),
        s[i].is_camera,
        s[j].is_camera,
    ensures
        count_cameras(s) >= 2,
    decreases s.len(),
{
    if j < s.len() - 1 {
        lemma_count_cameras_two(s.drop_last(), i, j);
    } else {
        lemma_count_cameras_at(s.drop_last(), i);
    }
}

/// A world with exactly one camera has a camera at exactly one position.
pub proof fn lemma_camera_unique(s: Seq<Entity>, i: int, j: int)
    requires
        count_cameras(s) <= 1,
        0 <= i < s.len(),
        0 <= j < s.len(),
        s[i].is_camera,
        s[j].is_camera,
    ensures
        i == j,
{
    if i < j {
        lemma_count_cameras_two(s, i, j);
    } else if j < i {
        lemma_count_cameras_two(s, j, i);
    }
}

/// If no position is camera-tagged, the camera count is zero.
pub proof fn lemma_count_cameras_none(s: Seq<Entity>)
    requires
        forall|i: int| 0 <= i < s.len() ==> !s[i].is_camera,
    ensures
        count_cameras(s) == 0,
    decreases s.len(),
{
    if s.len() > 0 {
        lemma_count_cameras_none(s.drop_last());
    }
}

/// The ghost image of a world: what its fields denote, with the entity store
/// as a sequence.
#[verifier::ext_equal]
pub struct WorldView {
    pub entities: Seq<Entity>,
    pub game_state: GameState,
    pub cam_state: FreeCamState,
    pub player_spawned: bool,
    pub next_id: u64,
}

impl WorldView {
    /// World invariant: every entity is well formed, identifiers are unique
    /// and below the allocation counter, and the one-shot spawn latch counts
    /// the player entities exactly.
    pub open spec fn inv(self) -> bool {
        &&& all_wf(self.entities)
        &&& ids_unique(self.entities)
        &&& ids_below(self.entities, self.next_id)
        &&& count_players(self.entities) == if self.player_spawned {
            1int
        } else {
            0int
        }
    }
}

/// The simulated world: the entity store, the two mode state machines, the
/// one-shot latch guarding the player spawn, and the identifier allocator.
pub struct World {
    pub entities: Vec<Entity>,
    pub game_state: GameState,
    pub cam_state: FreeCamState,
    pub player_spawned: bool,
    pub next_id: u64,
}

impl View for World {
    type V = WorldView;

    open spec fn view(&self) -> WorldView {
        WorldView {
            entities: self.entities@,
            game_state: self.game_state,
            cam_state: self.cam_state,
            player_spawned: self.player_spawned,
            next_id: self.next_id,
        }
    }
}

/// An entity with no components attached: the base other descriptions extend.
pub open spec fn spec_bare_entity(id: u64, position: Vec3i) -> Entity {
    Entity {
        id,
        position,
        look_target: None,
        is_camera: false,
        has_fly_cap: false,
        faces_camera: false,
        player: None,
        tower: None,
        lifetime: None,
        animation: None,
    }
}

/// The player camera as spawned at startup: camera-tagged, at its fixed start
/// position, oriented toward the world origin, without the free-movement
/// capability (the mode starts locked).
pub open spec fn spec_camera_entity(id: u64) -> Entity {
    Entity {
        is_camera: true,
        look_target: Some(Vec3i { x: 0, y: 0, z: 0 }),
        ..spec_bare_entity(
            id,
            Vec3i { x: CAMERA_START_X, y: CAMERA_START_Y, z: CAMERA_START_Z },
        )
    }
}

/// The tower as spawned at startup: a fresh one-second repeating shooting
/// countdown at the fixed tower position.
pub open spec fn spec_tower_entity(id: u64) -> Entity {
    Entity {
        tower: Some(
            Tower {
                shooting_timer: Timer {
                    period_ms: TOWER_SHOT_PERIOD_MS,
                    elapsed_ms: 0,
                    mode: TimerMode::Repeating,
                    fired: false,
                },
            },
        ),
        ..spec_bare_entity(id, Vec3i { x: TOWER_X, y: TOWER_Y, z: TOWER_Z })
    }
}

/// The player sprite as spawned once assets are ready: the Player component
/// with its defaults, the FaceCamera tag, a billboard look target at the
/// fixed point the player faces, and a repeating frame animation starting on
/// its fixed atlas frame.
pub open spec fn spec_player_entity(id: u64) -> Entity {
    Entity {
        player: Some(spec_default_player()),
        faces_camera: true,
        look_target: Some(spec_default_player().facing_target),
        animation: Some(
            SpriteAnimation {
                timer: Timer {
                    period_ms: ANIMATION_PERIOD_MS,
                    elapsed_ms: 0,
                    mode: TimerMode::Repeating,
                    fired: false,
                },
                index: PLAYER_START_FRAME,
                atlas_len: ATLAS_LEN,
            },
        ),
        ..spec_bare_entity(id, Vec3i { x: 0, y: 0, z: 0 })
    }
}

/// One fixed piece of scenery: inert geometry with no behavior.
pub open spec fn spec_scenery_entity(id: u64, position: Vec3i) -> Entity {
    spec_bare_entity(id, position)
}

/// Appending a well-formed entity with the next fresh identifier preserves
/// the world invariant's entity clauses.
pub proof fn lemma_push_fresh(s: Seq<Entity>, e: Entity, next: u64)
    requires
        all_wf(s),
        ids_unique(s),
        ids_below(s, next),
        e.wf(),
        e.id == next,
        next < u64::MAX,
    ensures
        all_wf(s.push(e)),
        ids_unique(s.push(e)),
        ids_below(s.push(e), (next + 1) as u64),
        count_players(s.push(e)) == count_players(s) + if e.player is Some {
            1int
        } else {
            0int
        },
        count_cameras(s.push(e)) == count_cameras(s) + if e.is_camera {
            1int
        } else {
            0int
        },
{
    lemma_counts_push(s, e);
}

impl World {
    pub open spec fn wf(self) -> bool {
        self@.inv()
    }

    /// A fresh world: no entities, assets still loading, cursor locked, the
    /// player not yet spawned.
    pub fn new() -> (w: World)
        ensures
            w.wf(),
            w@.entities.len() == 0,
            w@.game_state == GameState::Loading,
            w@.cam_state == FreeCamState::Locked,
            !w@.player_spawned,
            w@.next_id == 0,
    {
        World {
            entities: Vec::new(),
            game_state: GameState::Loading,
            cam_state: FreeCamState::Locked,
            player_spawned: false,
            next_id: 0,
        }
    }

    /// Startup spawner: create the single player camera entity.
    pub fn spawn_camera(&mut self)
        requires
            old(self).wf(),
            old(self).next_id < u64::MAX,
        ensures
            final(self).wf(),
            final(self)@.entities == old(self)@.entities.push(
                spec_camera_entity(old(self).next_id),
            ),
            final(self)@.game_state == old(self)@.game_state,
            final(self)@.cam_state == old(self)@.cam_state,
            final(self)@.player_spawned == old(self)@.player_spawned,
            final(self)@.next_id == old(self)@.next_id + 1,
            count_cameras(final(self)@.entities) == count_cameras(old(self)@.entities) + 1,
    {
        let e = Entity {
            id: self.next_id,
            position: Vec3i { x: CAMERA_START_X, y: CAMERA_START_Y, z: CAMERA_START_Z },
            look_target: Some(Vec3i { x: 0, y: 0, z: 0 }),
            is_camera: true,
            has_fly_cap: false,
            faces_camera: false,
            player: None,
            tower: None,
            lifetime: None,
            animation: None,
        };
        proof {
            lemma_push_fresh(self.entities@, e, self.next_id);
        }
        self.entities.push(e);
        self.next_id = self.next_id + 1;
    }

    /// Startup spawner: create the fixed static scenery (ground plane, cube,
    /// point light), inert entities with no behavior.
    pub fn spawn_scene(&mut self)
        requires
            old(self).wf(),
            old(self).next_id + 3 <= u64::MAX,
        ensures
            final(self).wf(),
            final(self)@.entities == old(self)@.entities.push(
                spec_scenery_entity(old(self).next_id, Vec3i { x: 0, y: 0, z: 0 }),
            ).push(
                spec_scenery_entity((old(self).next_id + 1) as u64, Vec3i { x: 0, y: 1, z: 0 }),
            ).push(
                spec_scenery_entity((old(self).next_id + 2) as u64, Vec3i { x: 3, y: 8, z: 5 }),
            ),
            final(self)@.game_state == old(self)@.game_state,
            final(self)@.cam_state == old(self)@.cam_state,
            final(self)@.player_spawned == old(self)@.player_spawned,
            final(self)@.next_id == old(self)@.next_id + 3,
            count_cameras(final(self)@.entities) == count_cameras(old(self)@.entities),
    {
        self.push_scenery(Vec3i { x: 0, y: 0, z: 0 });
        self.push_scenery(Vec3i { x: 0, y: 1, z: 0 });
        self.push_scenery(Vec3i { x: 3, y: 8, z: 5 });
    }

    /// Create one inert scenery entity at the given position.
    fn push_scenery(&mut self, position: Vec3i)
        requires
            old(self).wf(),
            old(self).next_id < u64::MAX,
        ensures
            final(self).wf(),
            final(self)@.entities == old(self)@.entities.push(
                spec_scenery_entity(old(self).next_id, position),
            ),
            final(self)@.game_state == old(self)@.game_state,
            final(self)@.cam_state == old(self)@.cam_state,
            final(self)@.player_spawned == old(self)@.player_spawned,
            final(self)@.next_id == old(self)@.next_id + 1,
            count_cameras(final(self)@.entities) == count_cameras(old(self)@.entities),
    {
        let e = Entity {
            id: self.next_id,
            position,
            look_target: None,
            is_camera: false,
            has_fly_cap: false,
            faces_camera: false,
            player: None,
            tower: None,
            lifetime: None,
            animation: None,
        };
        proof {
            lemma_push_fresh(self.entities@, e, self.next_id);
        }
        self.entities.push(e);
        self.next_id = self.next_id + 1;
    }

    /// Startup spawner: create the tower entity with its one-second repeating
    /// shooting countdown at the fixed tower position.
    pub fn spawn_tower(&mut self)
        requires
            old(self).wf(),
            old(self).next_id < u64::MAX,
        ensures
            final(self).wf(),
            final(self)@.entities == old(self)@.entities.push(
                spec_tower_entity(old(self).next_id),
            ),
            final(self)@.game_state == old(self)@.game_state,
            final(self)@.cam_state == old(self)@.cam_state,
            final(self)@.player_spawned == old(self)@.player_spawned,
            final(self)@.next_id == old(self)@.next_id + 1,
            count_cameras(final(self)@.entities) == count_cameras(old(self)@.entities),
    {
        let e = Entity {
            id: self.next_id,
            position: Vec3i { x: TOWER_X, y: TOWER_Y, z: TOWER_Z },
            look_target: None,
            is_camera: false,
            has_fly_cap: false,
            faces_camera: false,
            player: None,
            tower: Some(Tower::new()),
            lifetime: None,
            animation: None,
        };
        proof {
            lemma_push_fresh(self.entities@, e, self.next_id);
        }
        self.entities.push(e);
        self.next_id = self.next_id + 1;
    }

    /// Guarded spawner for the player sprite: it creates the player entity
    /// only once the asset gate reports `Ready`, and the one-shot latch makes
    /// sure the spawn side effect happens at most once in a process lifetime.
    /// Returns whether the spawn happened on this call.
    pub fn spawn_player_sprite(&mut self) -> (spawned: bool)
        requires
            old(self).wf(),
            old(self).next_id < u64::MAX,
        ensures
            final(self).wf(),
            final(self)@ == spec_spawn_player(old(self)@),
            spawned == (old(self)@.game_state == GameState::Ready && !old(self)@.player_spawned),
            count_players(final(self)@.entities) <= 1,
            count_cameras(final(self)@.entities) == count_cameras(old(self)@.entities),
    {
        if self.game_state == GameState::Ready && !self.player_spawned {
            let e = Entity {
                id: self.next_id,
                position: Vec3i { x: 0, y: 0, z: 0 },
                look_target: Some(Player::default().facing_target),
                is_camera: false,
                has_fly_cap: false,
                faces_camera: true,
                player: Some(Player::default()),
                tower: None,
                lifetime: None,
                animation: Some(
                    SpriteAnimation::new(ANIMATION_PERIOD_MS, PLAYER_START_FRAME, ATLAS_LEN),
                ),
            };
            proof {
                assert(e == spec_player_entity(self.next_id));
                lemma_push_fresh(self.entities@, e, self.next_id);
            }
            self.entities.push(e);
            self.player_spawned = true;
            self.next_id = self.next_id + 1;
            true
        } else {
            false
        }
    }

    /// Toggle the camera mode and synchronize the free-movement capability on
    /// every camera entity present at toggle time: afterwards a camera
    /// carries the capability exactly when the new mode is `Free`. Cameras
    /// added later are unaffected until the next toggle (an intentional,
    /// documented limitation). The cursor grab and visibility flags live with
    /// the windowing collaborator outside this crate.
    pub fn toggle_freecam(&mut self)
        requires
            old(self).wf(),
        ensures
            final(self).wf(),
            final(self)@ == spec_toggle(old(self)@),
            final(self)@.cam_state == flipped(old(self)@.cam_state),
            forall|i: int|
                0 <= i < old(self)@.entities.len() && old(self)@.entities[i].is_camera
                    ==> final(self)@.entities[i].has_fly_cap == (final(self)@.cam_state
                    == FreeCamState::Free),
            forall|i: int|
                0 <= i < old(self)@.entities.len() && !old(self)@.entities[i].is_camera
                    ==> final(self)@.entities[i] == old(self)@.entities[i],
            count_cameras(final(self)@.entities) == count_cameras(old(self)@.entities),
    {
        let mode = match self.cam_state {
            FreeCamState::Locked => FreeCamState::Free,
            FreeCamState::Free => FreeCamState::Locked,
        };
        self.cam_state = mode;
        let grant = match mode {
            FreeCamState::Free => true,
            FreeCamState::Locked => false,
        };
        let ghost orig = self.entities@;
        let ghost rest = self@;
        let mut i: usize = 0;
        while i < self.entities.len()
            invariant
                i <= orig.len(),
                self.entities@.len() == orig.len(),
                self.game_state == rest.game_state,
                self.cam_state == rest.cam_state,
                self.player_spawned == rest.player_spawned,
                self.next_id == rest.next_id,
                forall|j: int|
                    0 <= j < i ==> self.entities@[j] == spec_toggle_entity(orig[j], mode),
                forall|j: int| i <= j < orig.len() ==> self.entities@[j] == orig[j],
                grant == (mode == FreeCamState::Free),
            decreases orig.len() - i,
        {
            let e = self.entities[i];
            if e.is_camera {
                self.entities[i] = Entity { has_fly_cap: grant, ..e };
            }
            i = i + 1;
        }
        proof {
            assert(self.entities@ =~= orig.map_values(
                |e: Entity| spec_toggle_entity(e, mode),
            ));
            assert(self@ =~= spec_toggle(old(self)@));
            lemma_counts_pointwise(orig, self.entities@);
        }
    }

    /// Per-frame behavior: advance every entity's frame animation by the
    /// elapsed duration; each entity whose repeating timer completed this
    /// tick shows the next atlas frame, wrapping at the end of the atlas.
    pub fn animate_sprites(&mut self, delta_ms: u64)
        requires
            old(self).wf(),
        ensures
            final(self).wf(),
            final(self)@ == (WorldView {
                entities: spec_animate_all(old(self)@.entities, delta_ms),
                ..old(self)@
            }),
            forall|i: int|
                0 <= i < old(self)@.entities.len() ==> final(self)@.entities[i]
                    == spec_animate_entity(old(self)@.entities[i], delta_ms),
            count_cameras(final(self)@.entities) == count_cameras(old(self)@.entities),
    {
        let ghost orig = self.entities@;
        let ghost rest = self@;
        let mut i: usize = 0;
        while i < self.entities.len()
            invariant
                i <= orig.len(),
                self.entities@.len() == orig.len(),
                self.game_state == rest.game_state,
                self.cam_state == rest.cam_state,
                self.player_spawned == rest.player_spawned,
                self.next_id == rest.next_id,
                all_wf(orig),
                forall|j: int|
                    0 <= j < i ==> self.entities@[j] == spec_animate_entity(orig[j], delta_ms),
                forall|j: int| i <= j < orig.len() ==> self.entities@[j] == orig[j],
            decreases orig.len() - i,
        {
            let e = self.entities[i];
            match e.animation {
                Some(a) => {
                    let mut a2 = a;
                    a2.animate(delta_ms);
                    self.entities[i] = Entity { animation: Some(a2), ..e };
                },
                None => {},
            }
            i = i + 1;
        }
        proof {
            assert(self.entities@ =~= spec_animate_all(orig, delta_ms));
            assert(self@ =~= (WorldView {
                entities: spec_animate_all(old(self)@.entities, delta_ms),
                ..old(self)@
            }));
            lemma_counts_pointwise(orig, self.entities@);
        }
    }

    /// Per-frame behavior: re-orient every FaceCamera-tagged entity (cameras
    /// themselves excluded) toward the single active camera, horizontally
    /// only. The world must hold exactly one camera; with zero or several the
    /// configuration is unrecoverable and the caller must halt instead.
    pub fn face_sprites_to_camera(&mut self)
        requires
            old(self).wf(),
            count_cameras(old(self)@.entities) == 1,
        ensures
            final(self).wf(),
            final(self)@ == (WorldView {
                entities: spec_face_all(old(self)@.entities),
                ..old(self)@
            }),
            forall|i: int|
                0 <= i < old(self)@.entities.len() ==> final(self)@.entities[i]
                    == spec_face_entity(
                    old(self)@.entities[i],
                    spec_camera_pos(old(self)@.entities),
                ),
            count_cameras(final(self)@.entities) == 1,
    {
        let ghost orig = self.entities@;
        let mut k: usize = 0;
        while k < self.entities.len() && !self.entities[k].is_camera
            invariant
                k <= orig.len(),
                self.entities@ == orig,
                forall|j: int| 0 <= j < k ==> !orig[j].is_camera,
            decreases orig.len() - k,
        {
            k = k + 1;
        }
        proof {
            if k >= orig.len() {
                lemma_count_cameras_none(orig);
            }
        }
        let cam = self.entities[k].position;
        proof {
            assert(exists|i: int| 0 <= i < orig.len() && orig[i].is_camera) by {
                assert(orig[k as int].is_camera);
            }
            let c = choose|i: int| 0 <= i < orig.len() && orig[i].is_camera;
            lemma_camera_unique(orig, k as int, c);
            assert(cam == spec_camera_pos(orig));
        }
        let ghost rest = self@;
        let mut i: usize = 0;
        while i < self.entities.len()
            invariant
                i <= orig.len(),
                self.entities@.len() == orig.len(),
                self.game_state == rest.game_state,
                self.cam_state == rest.cam_state,
                self.player_spawned == rest.player_spawned,
                self.next_id == rest.next_id,
                cam == spec_camera_pos(orig),
                forall|j: int|
                    0 <= j < i ==> self.entities@[j] == spec_face_entity(orig[j], cam),
                forall|j: int| i <= j < orig.len() ==> self.entities@[j] == orig[j],
            decreases orig.len() - i,
        {
            let e = self.entities[i];
            if e.faces_camera && !e.is_camera {
                let target = crate::sprites::face_target(cam, e.position);
                self.entities[i] = Entity { look_target: Some(target), ..e };
            }
            i = i + 1;
        }
        proof {
            assert(self.entities@ =~= spec_face_all(orig));
            assert(self@ =~= (WorldView { entities: spec_face_all(old(self)@.entities), ..old(self)@ }));
            lemma_counts_pointwise(orig, self.entities@);
        }
    }
}

/// A camera entity's capability after a toggle to `mode`: present exactly
/// when the new mode is `Free`; non-camera entities are untouched.
pub open spec fn spec_toggle_entity(e: Entity, mode: FreeCamState) -> Entity {
    if e.is_camera {
        Entity { has_fly_cap: mode == FreeCamState::Free, ..e }
    } else {
        e
    }
}

/// The world after one camera-mode toggle.
pub open spec fn spec_toggle(v: WorldView) -> WorldView {
    let mode = flipped(v.cam_state);
    WorldView {
        cam_state: mode,
        entities: v.entities.map_values(|e: Entity| spec_toggle_entity(e, mode)),
        ..v
    }
}

/// The world after `n` camera-mode toggles.
pub open spec fn spec_toggle_n(v: WorldView, n: nat) -> WorldView
    decreases n,
{
    if n == 0 {
        v
    } else {
        spec_toggle(spec_toggle_n(v, (n - 1) as nat))
    }
}

/// However many toggles a world receives, and whatever entities it holds or
/// how much time passes between the toggles, its camera mode follows the pure
/// alternation of `flipped_n`: starting from `Locked`, it is `Locked` again
/// after an even number of toggles and `Free` after an odd number.
pub proof fn lemma_toggle_n_cam_state(v: WorldView, n: nat)
    ensures
        spec_toggle_n(v, n).cam_state == crate::states::flipped_n(v.cam_state, n),
    decreases n,
{
    if n > 0 {
        lemma_toggle_n_cam_state(v, (n - 1) as nat);
    }
}

/// The world after the guarded player spawn: unchanged unless the asset gate
/// is `Ready` and the latch is still open, in which case the player entity is
/// appended and the latch closes.
pub open spec fn spec_spawn_player(v: WorldView) -> WorldView {
    if v.game_state == GameState::Ready && !v.player_spawned {
        WorldView {
            entities: v.entities.push(spec_player_entity(v.next_id)),
            player_spawned: true,
            next_id: (v.next_id + 1) as u64,
            ..v
        }
    } else {
        v
    }
}

/// The guarded player spawn is idempotent: once it has run (or while the
/// asset gate is still closed), running it again changes nothing. So over a
/// process lifetime the spawn side effect happens at most once, however many
/// ticks elapse after the world reaches `Ready`.
pub proof fn lemma_spawn_player_idempotent(v: WorldView)
    ensures
        spec_spawn_player(spec_spawn_player(v)) == spec_spawn_player(v),
{
}

/// An entity after one animation tick.
pub open spec fn spec_animate_entity(e: Entity, delta_ms: u64) -> Entity {
    match e.animation {
        Some(a) => Entity { animation: Some(a.spec_animate(delta_ms)), ..e },
        None => e,
    }
}

pub open spec fn spec_animate_all(s: Seq<Entity>, delta_ms: u64) -> Seq<Entity> {
    s.map_values(|e: Entity| spec_animate_entity(e, delta_ms))
}

/// The position of the camera-tagged entity; meaningful when exactly one
/// entity carries the tag.
pub open spec fn spec_camera_pos(s: Seq<Entity>) -> Vec3i {
    s[choose|i: int| 0 <= i < s.len() && s[i].is_camera].position
}

/// An entity after the facing system ran with the camera at `cam`.
pub open spec fn spec_face_entity(e: Entity, cam: Vec3i) -> Entity {
    if e.faces_camera && !e.is_camera {
        Entity { look_target: Some(spec_face_target(cam, e.position)), ..e }
    } else {
        e
    }
}

pub open spec fn spec_face_all(s: Seq<Entity>) -> Seq<Entity> {
    s.map_values(|e: Entity| spec_face_entity(e, spec_camera_pos(s)))
}

/// An entity after its lifetime countdown (if any) advances by `delta_ms`.
pub open spec fn spec_tick_lifetime(e: Entity, delta_ms: u64) -> Entity {
    match e.lifetime {
        Some(l) => Entity {
            lifetime: Some(Lifetime { timer: l.timer.spec_tick(delta_ms) }),
            ..e
        },
        None => e,
    }
}

/// Whether an entity's lifetime countdown has completed, so the entity must
/// leave the world this tick. Entities without a Lifetime are exempt.
pub open spec fn spec_expired(e: Entity) -> bool {
    match e.lifetime {
        Some(l) => l.timer.spec_finished(),
        None => false,
    }
}

/// The entity store after one despawn pass: every lifetime countdown
/// advanced, every expired entity removed within the same tick, the order of
/// the survivors kept.
pub open spec fn spec_despawn(s: Seq<Entity>, delta_ms: u64) -> Seq<Entity>
    decreases s.len(),
{
    if s.len() == 0 {
        Seq::empty()
    } else {
        let rest = spec_despawn(s.drop_last(), delta_ms);
        let e = spec_tick_lifetime(s.last(), delta_ms);
        if spec_expired(e) {
            rest
        } else {
            rest.push(e)
        }
    }
}

/// The entity after its lifetime countdown advances by each duration of `ds`
/// in order, one despawn pass per duration.
pub open spec fn spec_tick_lifetime_all(e: Entity, ds: Seq<u64>) -> Entity
    decreases ds.len(),
{
    if ds.len() == 0 {
        e
    } else {
        spec_tick_lifetime(spec_tick_lifetime_all(e, ds.drop_last()), ds.last())
    }
}

/// Advancing a lifetime entity tick by tick advances its timer and nothing
/// else.
pub proof fn lemma_tick_lifetime_all_timer(e: Entity, l: Lifetime, ds: Seq<u64>)
    requires
        e.lifetime == Some(l),
    ensures
        spec_tick_lifetime_all(e, ds) == (Entity {
            lifetime: Some(Lifetime { timer: crate::timer::tick_all(l.timer, ds) }),
            ..e
        }),
    decreases ds.len(),
{
    if ds.len() == 0 {
        assert(spec_tick_lifetime_all(e, ds) =~= (Entity {
            lifetime: Some(Lifetime { timer: crate::timer::tick_all(l.timer, ds) }),
            ..e
        }));
    } else {
        lemma_tick_lifetime_all_timer(e, l, ds.drop_last());
    }
}

/// A transient entity's removal point depends only on the total elapsed time,
/// not on how the despawn passes split it: an entity created with a fresh
/// one-shot lifetime of period `p` has expired — and so leaves the world on
/// the pass that reaches `p` — exactly when the pass durations sum to at
/// least `p`.
pub proof fn lemma_lifetime_expiry_threshold(e: Entity, l: Lifetime, ds: Seq<u64>)
    requires
        e.wf(),
        e.lifetime == Some(l),
        l.timer.elapsed_ms == 0,
    ensures
        spec_expired(spec_tick_lifetime_all(e, ds)) <==> crate::timer::sum_ms(ds)
            >= l.timer.period_ms,
{
    lemma_tick_lifetime_all_timer(e, l, ds);
    crate::timer::lemma_once_timer_threshold(l.timer, ds);
}

pub open spec fn id_in(id: u64, s: Seq<Entity>) -> bool {
    exists|j: int| 0 <= j < s.len() && s[j].id == id
}

/// Despawning preserves the world invariant's entity clauses: survivors stay
/// well formed, keep their identifiers (so uniqueness and the bound persist),
/// and no player is ever removed, players being non-transient.
pub proof fn lemma_despawn_preserves(s: Seq<Entity>, delta_ms: u64, bound: u64)
    requires
        all_wf(s),
        ids_unique(s),
        ids_below(s, bound),
    ensures
        all_wf(spec_despawn(s, delta_ms)),
        ids_unique(spec_despawn(s, delta_ms)),
        ids_below(spec_despawn(s, delta_ms), bound),
        count_players(spec_despawn(s, delta_ms)) == count_players(s),
        spec_despawn(s, delta_ms).len() <= s.len(),
        forall|k: int|
            0 <= k < spec_despawn(s, delta_ms).len() ==> id_in(
                spec_despawn(s, delta_ms)[k].id,
                s,
            ),
    decreases s.len(),
{
    if s.len() > 0 {
        let butlast = s.drop_last();
        lemma_despawn_preserves(butlast, delta_ms, bound);
        let rest = spec_despawn(butlast, delta_ms);
        let e = spec_tick_lifetime(s.last(), delta_ms);
        assert(count_players(s) == count_players(butlast) + if s.last().player is Some {
            1int
        } else {
            0int
        });
        assert(forall|k: int| 0 <= k < rest.len() ==> id_in(rest[k].id, butlast));
        assert forall|id: u64| id_in(id, butlast) implies id_in(id, s) by {
            let j = choose|j: int| 0 <= j < butlast.len() && butlast[j].id == id;
            assert(s[j].id == id);
        }
        if spec_expired(e) {
            assert(s.last().lifetime is Some);
            assert(s.last().player is None);
        } else {
            lemma_counts_push(rest, e);
            assert forall|k: int| 0 <= k < rest.len() implies rest[k].id != e.id by {
                let j = choose|j: int| 0 <= j < butlast.len() && butlast[j].id == rest[k].id;
                assert(s[j].id != s[s.len() - 1].id);
            }
            assert(id_in(e.id, s)) by {
                assert(s[s.len() - 1].id == e.id);
            }
        }
    }
}

/// An entity after its tower's shooting counter (if any) advances.
pub open spec fn spec_tick_tower(e: Entity, delta_ms: u64) -> Entity {
    match e.tower {
        Some(t) => Entity {
            tower: Some(Tower { shooting_timer: t.shooting_timer.spec_tick(delta_ms) }),
            ..e
        },
        None => e,
    }
}

/// Whether an entity's shooting counter completes during this tick.
pub open spec fn spec_shot(e: Entity, delta_ms: u64) -> bool {
    match e.tower {
        Some(t) => t.shooting_timer.spec_tick(delta_ms).spec_just_finished(),
        None => false,
    }
}

/// How many shots fire across the entity store during this tick.
pub open spec fn count_shots(s: Seq<Entity>, delta_ms: u64) -> int
    decreases s.len(),
{
    if s.len() == 0 {
        0
    } else {
        count_shots(s.drop_last(), delta_ms) + if spec_shot(s.last(), delta_ms) {
            1int
        } else {
            0int
        }
    }
}

/// A projectile as the tower spawns it: inert except for a fixed position and
/// a fresh one-shot Lifetime, which is its sole destruction path.
pub open spec fn spec_bullet_entity(id: u64) -> Entity {
    Entity {
        lifetime: Some(
            Lifetime {
                timer: Timer {
                    period_ms: BULLET_LIFETIME_MS,
                    elapsed_ms: 0,
                    mode: TimerMode::Once,
                    fired: false,
                },
            },
        ),
        ..spec_bare_entity(id, Vec3i { x: BULLET_X, y: BULLET_Y, z: BULLET_Z })
    }
}

pub proof fn lemma_count_players_none(s: Seq<Entity>)
    requires
        forall|i: int| 0 <= i < s.len() ==> s[i].player is None,
    ensures
        count_players(s) == 0,
    decreases s.len(),
{
    if s.len() > 0 {
        lemma_count_players_none(s.drop_last());
    }
}

impl World {
    /// Per-frame behavior: advance every Lifetime countdown by the elapsed
    /// duration and remove each entity whose countdown completed, within the
    /// same tick. Entities without a Lifetime are exempt; this is the sole
    /// destruction path for transient entities.
    pub fn lifetime_despawn(&mut self, delta_ms: u64)
        requires
            old(self).wf(),
        ensures
            final(self).wf(),
            final(self)@ == (WorldView {
                entities: spec_despawn(old(self)@.entities, delta_ms),
                ..old(self)@
            }),
    {
        let ghost orig = self.entities@;
        let mut kept: Vec<Entity> = Vec::new();
        let mut i: usize = 0;
        while i < self.entities.len()
            invariant
                i <= orig.len(),
                self.entities@ == orig,
                all_wf(orig),
                kept@ == spec_despawn(orig.take(i as int), delta_ms),
            decreases orig.len() - i,
        {
            let e = self.entities[i];
            let e2 = match e.lifetime {
                Some(l) => {
                    let mut t = l.timer;
                    t.tick(delta_ms);
                    Entity { lifetime: Some(Lifetime { timer: t }), ..e }
                },
                None => e,
            };
            let dead = match e2.lifetime {
                Some(l) => l.timer.finished(),
                None => false,
            };
            proof {
                assert(orig.take(i as int + 1).drop_last() =~= orig.take(i as int));
                assert(orig.take(i as int + 1).last() == orig[i as int]);
            }
            if !dead {
                kept.push(e2);
            }
            i = i + 1;
        }
        proof {
            assert(orig.take(orig.len() as int) =~= orig);
            lemma_despawn_preserves(orig, delta_ms, self.next_id);
        }
        self.entities = kept;
        proof {
            assert(self@ =~= (WorldView {
                entities: spec_despawn(old(self)@.entities, delta_ms),
                ..old(self)@
            }));
        }
    }

    /// The tower system: advance every tower's shooting counter; when
    /// shooting is enabled (it is disabled by default, matching the inert
    /// code path), each counter completion spawns one projectile with a fresh
    /// one-shot Lifetime at the fixed projectile position.
    pub fn tower_step(&mut self, delta_ms: u64, shooting_enabled: bool)
        requires
            old(self).wf(),
            old(self).next_id + old(self)@.entities.len() <= u64::MAX,
        ensures
            final(self).wf(),
            final(self)@.game_state == old(self)@.game_state,
            final(self)@.cam_state == old(self)@.cam_state,
            final(self)@.player_spawned == old(self)@.player_spawned,
            forall|i: int|
                0 <= i < old(self)@.entities.len() ==> final(self)@.entities[i]
                    == spec_tick_tower(old(self)@.entities[i], delta_ms),
            shooting_enabled ==> {
                let shots = count_shots(old(self)@.entities, delta_ms);
                &&& final(self)@.entities.len() == old(self)@.entities.len() + shots
                &&& (forall|k: int|
                    0 <= k < shots ==> #[trigger] final(self)@.entities[old(
                        self,
                    )@.entities.len() + k] == spec_bullet_entity((old(self)@.next_id + k) as u64))
                &&& final(self)@.next_id == old(self)@.next_id + shots
            },
            !shooting_enabled ==> final(self)@.entities.len() == old(self)@.entities.len()
                && final(self)@.next_id == old(self)@.next_id,
            count_cameras(final(self)@.entities) == count_cameras(old(self)@.entities),
    {
        let ghost orig = self.entities@;
        let ghost rest = self@;
        let mut shots: usize = 0;
        let mut i: usize = 0;
        while i < self.entities.len()
            invariant
                i <= orig.len(),
                self.entities@.len() == orig.len(),
                self.game_state == rest.game_state,
                self.cam_state == rest.cam_state,
                self.player_spawned == rest.player_spawned,
                self.next_id == rest.next_id,
                all_wf(orig),
                shots <= i,
                shots == count_shots(orig.take(i as int), delta_ms),
                forall|j: int|
                    0 <= j < i ==> self.entities@[j] == spec_tick_tower(orig[j], delta_ms),
                forall|j: int| i <= j < orig.len() ==> self.entities@[j] == orig[j],
            decreases orig.len() - i,
        {
            proof {
                assert(orig.take(i as int + 1).drop_last() =~= orig.take(i as int));
                assert(orig.take(i as int + 1).last() == orig[i as int]);
            }
            let e = self.entities[i];
            match e.tower {
                Some(t) => {
                    let mut t2 = t;
                    t2.shooting_timer.tick(delta_ms);
                    self.entities[i] = Entity { tower: Some(t2), ..e };
                    if t2.shooting_timer.just_finished() {
                        shots = shots + 1;
                    }
                },
                None => {},
            }
            i = i + 1;
        }
        proof {
            assert(orig.take(orig.len() as int) =~= orig);
            assert forall|j: int| 0 <= j < self.entities@.len() implies self.entities@[j].wf() by {
                assert(self.entities@[j] == spec_tick_tower(orig[j], delta_ms));
                assert(orig[j].wf());
                lemma_spec_tick_tower_wf(orig[j], delta_ms);
            }
            assert(ids_unique(self.entities@));
            assert(ids_below(self.entities@, self.next_id));
            lemma_counts_pointwise(orig, self.entities@);
        }
        if shooting_enabled {
            let ghost base = self.entities@;
            let ghost n0 = self.next_id;
            let mut k: usize = 0;
            while k < shots
                invariant
                    k <= shots,
                    shots == count_shots(orig, delta_ms),
                    shots <= orig.len(),
                    n0 + shots <= u64::MAX,
                    self.game_state == rest.game_state,
                    self.cam_state == rest.cam_state,
                    self.player_spawned == rest.player_spawned,
                    self.next_id == n0 + k,
                    self.entities@.len() == base.len() + k,
                    base.len() == orig.len(),
                    forall|j: int|
                        0 <= j < orig.len() ==> base[j] == spec_tick_tower(orig[j], delta_ms),
                    count_cameras(base) == count_cameras(orig),
                    count_cameras(self.entities@) == count_cameras(base),
                    forall|j: int| 0 <= j < base.len() ==> self.entities@[j] == base[j],
                    forall|m: int|
                        0 <= m < k ==> #[trigger] self.entities@[base.len() + m]
                            == spec_bullet_entity((n0 + m) as u64),
                    all_wf(self.entities@),
                    ids_unique(self.entities@),
                    ids_below(self.entities@, self.next_id),
                    count_players(self.entities@) == count_players(base),
                decreases shots - k,
            {
                let e = Entity {
                    id: self.next_id,
                    position: Vec3i { x: BULLET_X, y: BULLET_Y, z: BULLET_Z },
                    look_target: None,
                    is_camera: false,
                    has_fly_cap: false,
                    faces_camera: false,
                    player: None,
                    tower: None,
                    lifetime: Some(Lifetime::new(BULLET_LIFETIME_MS)),
                    animation: None,
                };
                proof {
                    assert(e == spec_bullet_entity(self.next_id));
                    lemma_push_fresh(self.entities@, e, self.next_id);
                }
                self.entities.push(e);
                self.next_id = self.next_id + 1;
                k = k + 1;
            }
            proof {
                assert forall|j: int| 0 <= j < orig.len() implies self.entities@[j]
                    == spec_tick_tower(orig[j], delta_ms) by {
                    assert(self.entities@[j] == base[j]);
                }
            }
        }
    }

    /// Number of entities currently tagged as the player camera.
    pub fn camera_count(&self) -> (n: usize)
        ensures
            n == count_cameras(self@.entities),
    {
        let mut n: usize = 0;
        let mut i: usize = 0;
        while i < self.entities.len()
            invariant
                i <= self.entities@.len(),
                n <= i,
                n == count_cameras(self.entities@.take(i as int)),
            decreases self.entities@.len() - i,
        {
            proof {
                assert(self.entities@.take(i as int + 1).drop_last() =~= self.entities@.take(
                    i as int,
                ));
                assert(self.entities@.take(i as int + 1).last() == self.entities@[i as int]);
            }
            if self.entities[i].is_camera {
                n = n + 1;
            }
            i = i + 1;
        }
        proof {
            assert(self.entities@.take(self.entities@.len() as int) =~= self.entities@);
        }
        n
    }

    /// Number of entities currently carrying a Player component.
    pub fn player_count(&self) -> (n: usize)
        ensures
            n == count_players(self@.entities),
    {
        let mut n: usize = 0;
        let mut i: usize = 0;
        while i < self.entities.len()
            invariant
                i <= self.entities@.len(),
                n <= i,
                n == count_players(self.entities@.take(i as int)),
            decreases self.entities@.len() - i,
        {
            proof {
                assert(self.entities@.take(i as int + 1).drop_last() =~= self.entities@.take(
                    i as int,
                ));
                assert(self.entities@.take(i as int + 1).last() == self.entities@[i as int]);
            }
            let has_player = match self.entities[i].player {
                Some(_) => true,
                None => false,
            };
            if has_player {
                n = n + 1;
            }
            i = i + 1;
        }
        proof {
            assert(self.entities@.take(self.entities@.len() as int) =~= self.entities@);
        }
        n
    }

    /// The first entity carrying a Player component, if any.
    pub fn find_player(&self) -> (r: Option<Entity>)
        ensures
            match r {
                Some(e) => exists|i: int|
                    0 <= i < self@.entities.len() && self@.entities[i] == e && e.player is Some,
                None => count_players(self@.entities) == 0,
            },
    {
        let mut i: usize = 0;
        while i < self.entities.len()
            invariant
                i <= self.entities@.len(),
                forall|j: int| 0 <= j < i ==> self.entities@[j].player is None,
            decreases self.entities@.len() - i,
        {
            let e = self.entities[i];
            let has_player = match e.player {
                Some(_) => true,
                None => false,
            };
            if has_player {
                proof {
                    assert((i as int) < self@.entities.len());
                    assert(self@.entities[i as int] == e);
                    assert(e.player is Some);
                }
                return Some(e);
            }
            i = i + 1;
        }
        proof {
            lemma_count_players_none(self.entities@);
        }
        None
    }
}

/// The world after one full engine tick, in the schedule's order: the asset
/// gate advances when the loader reports done; a toggle key edge flips the
/// camera mode and synchronizes camera capabilities; the guarded player
/// spawn runs; once the load state is `Ready`, sprites animate and re-orient toward
/// the camera; at the end, expired lifetimes leave the world.
pub open spec fn spec_tick_frame(
    v: WorldView,
    delta_ms: u64,
    assets_loaded: bool,
    toggle_edge: bool,
) -> WorldView {
    let v1 = if v.game_state == GameState::Loading && assets_loaded {
        WorldView { game_state: GameState::Ready, ..v }
    } else {
        v
    };
    let v2 = if toggle_edge {
        spec_toggle(v1)
    } else {
        v1
    };
    let v3 = spec_spawn_player(v2);
    let v4 = if v3.game_state == GameState::Ready {
        WorldView { entities: spec_face_all(spec_animate_all(v3.entities, delta_ms)), ..v3 }
    } else {
        v3
    };
    WorldView { entities: spec_despawn(v4.entities, delta_ms), ..v4 }
}

impl World {
    /// One simulation tick, driven by the events the engine collaborators
    /// deliver: whether the asset loader has reported completion, and whether
    /// the toggle key fired a press edge this tick. Once the world is (or
    /// becomes) `Ready` it must hold exactly one camera; with zero or several
    /// the caller must halt instead, as no camera choice would be right.
    pub fn tick_frame(&mut self, delta_ms: u64, assets_loaded: bool, toggle_edge: bool)
        requires
            old(self).wf(),
            old(self).next_id < u64::MAX,
            (old(self)@.game_state == GameState::Ready || assets_loaded) ==> count_cameras(
                old(self)@.entities,
            ) == 1,
        ensures
            final(self).wf(),
            final(self)@ == spec_tick_frame(old(self)@, delta_ms, assets_loaded, toggle_edge),
    {
        let ghost v0 = self@;
        if assets_loaded && self.game_state == GameState::Loading {
            self.game_state = crate::states::on_assets_loaded(self.game_state);
        }
        let ghost v1 = self@;
        proof {
            assert(v1 =~= if v0.game_state == GameState::Loading && assets_loaded {
                WorldView { game_state: GameState::Ready, ..v0 }
            } else {
                v0
            });
        }
        if toggle_edge {
            self.toggle_freecam();
        }
        let _spawned = self.spawn_player_sprite();
        let ghost v3 = self@;
        if self.game_state == GameState::Ready {
            self.animate_sprites(delta_ms);
            self.face_sprites_to_camera();
            proof {
                assert(self@ =~= (WorldView {
                    entities: spec_face_all(spec_animate_all(v3.entities, delta_ms)),
                    ..v3
                }));
            }
        }
        self.lifetime_despawn(delta_ms);
        proof {
            assert(self@ =~= spec_tick_frame(v0, delta_ms, assets_loaded, toggle_edge));
        }
    }
}

/// Whatever events arrive, a tick never moves a `Ready` world back to
/// `Loading`: the asset-load transition happens at most once in a process
/// lifetime.
pub proof fn lemma_ready_terminal(
    v: WorldView,
    delta_ms: u64,
    assets_loaded: bool,
    toggle_edge: bool,
)
    requires
        v.game_state == GameState::Ready,
    ensures
        spec_tick_frame(v, delta_ms, assets_loaded, toggle_edge).game_state == GameState::Ready,
{
}

/// The one-shot spawn latch never reopens: once it is set it stays set over
/// every later tick, and the world invariant ties the number of player
/// entities to the latch, so the spawn side effect happens at most once,
/// however many ticks elapse after `Ready`.
pub proof fn lemma_latch_never_reopens(
    v: WorldView,
    delta_ms: u64,
    assets_loaded: bool,
    toggle_edge: bool,
)
    requires
        v.player_spawned,
    ensures
        spec_tick_frame(v, delta_ms, assets_loaded, toggle_edge).player_spawned,
{
}

/// Advancing a timer keeps it well formed.
pub proof fn lemma_spec_tick_wf(t: Timer, delta_ms: u64)
    requires
        t.wf(),
    ensures
        t.spec_tick(delta_ms).wf(),
{
}

/// Advancing an entity's shooting counter keeps the entity well formed.
pub proof fn lemma_spec_tick_tower_wf(e: Entity, delta_ms: u64)
    requires
        e.wf(),
    ensures
        spec_tick_tower(e, delta_ms).wf(),
{
    match e.tower {
        Some(t) => {
            lemma_spec_tick_wf(t.shooting_timer, delta_ms);
        },
        None => {},
    }
}

} // verus!
