//! The decisions of the Fyrox benchmark plugin, as a state machine. The
//! application owns the engine: each frame it tells the state what it sees
//! (whether graphics are up, how many user interfaces exist, whether the scene
//! exists) and performs the actions of the returned plan.
use vstd::prelude::*;
use crate::settings::{Settings, DEFAULT_SPAWN_BATCH};
use crate::spawning::{batch_len, material_for_pill, next_spawned, spec_material_for_pill};

verus! {

/// The post-effect settings are applied at this update: they have not been
/// applied yet and graphics exist.
pub open spec fn quality_applies(quality_set: bool, graphics_ready: bool) -> bool {
    !quality_set && graphics_ready
}

/// The post-effect settings have been applied once this update is over.
pub open spec fn quality_after(quality_set: bool, graphics_ready: bool) -> bool {
    quality_set || graphics_ready
}

/// A run of pending pills to spawn in one update: pills `start` to
/// `start + count - 1`, in order.
#[derive(Clone, Copy, Debug, PartialEq, Eq, Structural)]
pub struct SpawnBatch {
    pub start: usize,
    pub count: usize,
    /// This batch spawns the last pending pill.
    pub finishes: bool,
}

/// What the application does in one update.
#[derive(Clone, Copy, Debug, PartialEq, Eq, Structural)]
pub struct UpdatePlan {
    /// Turn the post effects off now (done once, when graphics first exist).
    pub apply_quality: bool,
    /// Create the frame-rate text in this many user interfaces, one each.
    pub fps_texts_to_create: usize,
    /// Pills to spawn in this update, if any.
    pub spawn: Option<SpawnBatch>,
}

/// The plain state of the Fyrox benchmark plugin: how many pills are pending
/// and spawned, the batch size, the number of materials and the one-time steps
/// already taken.
#[derive(Debug)]
pub struct Game {
    pill_count: usize,
    pending_index: usize,
    spawn_batch: usize,
    material_count: usize,
    quality_set: bool,
    fps_text_count: usize,
}

impl Game {
    /// Never more pills spawned than pending, and at least one material.
    #[verifier::type_invariant]
    closed spec fn well_formed(self) -> bool {
        &&& self.pending_index <= self.pill_count
        &&& self.material_count >= 1
    }

    /// Number of pending pills to spawn in total.
    pub closed spec fn spec_pill_count(self) -> usize {
        self.pill_count
    }

    /// Number of pills spawned so far.
    pub closed spec fn spec_pending_index(self) -> usize {
        self.pending_index
    }

    pub closed spec fn spec_spawn_batch(self) -> usize {
        self.spawn_batch
    }

    pub closed spec fn spec_material_count(self) -> usize {
        self.material_count
    }

    /// The post-effect settings have been applied.
    pub closed spec fn spec_quality_set(self) -> bool {
        self.quality_set
    }

    /// Number of frame-rate texts created.
    pub closed spec fn spec_fps_text_count(self) -> usize {
        self.fps_text_count
    }

    /// Starts the scene over with the given settings: nothing spawned, no
    /// post-effect settings applied. The frame-rate texts already created stay.
    pub fn init(&mut self, settings: &Settings)
        ensures
            final(self).spec_pill_count() == settings.spec_pill_count(),
            final(self).spec_pending_index() == 0,
            final(self).spec_spawn_batch() == settings.spec_spawn_batch(),
            final(self).spec_material_count() == settings.spec_material_count(),
            !final(self).spec_quality_set(),
            final(self).spec_fps_text_count() == old(self).spec_fps_text_count(),
    {
        proof {
            use_type_invariant(&*self);
        }
        let materials = settings.material_count();
        self.pending_index = 0;
        self.pill_count = settings.pill_count();
        self.spawn_batch = settings.spawn_batch();
        self.material_count = materials;
        self.quality_set = false;
    }

    /// Decides whether to apply the post-effect settings: once, on the first
    /// update at which graphics exist.
    pub fn note_graphics(&mut self, graphics_ready: bool) -> (apply: bool)
        ensures
            apply == quality_applies(old(self).spec_quality_set(), graphics_ready),
            final(self).spec_quality_set() == quality_after(old(self).spec_quality_set(), graphics_ready),
            old(self).spec_quality_set() ==> final(self).spec_quality_set() && !apply,
            apply ==> final(self).spec_quality_set(),
            final(self).spec_pill_count() == old(self).spec_pill_count(),
            final(self).spec_pending_index() == old(self).spec_pending_index(),
            final(self).spec_spawn_batch() == old(self).spec_spawn_batch(),
            final(self).spec_material_count() == old(self).spec_material_count(),
            final(self).spec_fps_text_count() == old(self).spec_fps_text_count(),
    {
        proof {
            use_type_invariant(&*self);
        }
        if !self.quality_set && graphics_ready {
            self.quality_set = true;
            true
        } else {
            false
        }
    }

    /// Decides in how many user interfaces to create the frame-rate text: in
    /// each of them while none has been created yet, else in none.
    pub fn note_user_interfaces(&mut self, ui_count: usize) -> (create: usize)
        ensures
            create == if old(self).spec_fps_text_count() == 0 {
                ui_count
            } else {
                0
            },
            final(self).spec_fps_text_count() == old(self).spec_fps_text_count() + create,
            final(self).spec_pill_count() == old(self).spec_pill_count(),
            final(self).spec_pending_index() == old(self).spec_pending_index(),
            final(self).spec_spawn_batch() == old(self).spec_spawn_batch(),
            final(self).spec_material_count() == old(self).spec_material_count(),
            final(self).spec_quality_set() == old(self).spec_quality_set(),
    {
        proof {
            use_type_invariant(&*self);
        }
        if self.fps_text_count == 0 {
            self.fps_text_count = ui_count;
            ui_count
        } else {
            0
        }
    }

    /// Takes the next batch of pending pills: it starts at the first pill not
    /// yet spawned and holds the batch size of pills, or fewer at the end.
    /// There is none once every pill is spawned.
    pub fn take_batch(&mut self) -> (batch: Option<SpawnBatch>)
        ensures
            batch is Some <==> old(self).spec_pending_index() < old(self).spec_pill_count(),
            batch matches Some(b) ==> {
                &&& b.start == old(self).spec_pending_index()
                &&& b.count == batch_len(
                    old(self).spec_pending_index() as nat,
                    old(self).spec_pill_count() as nat,
                    old(self).spec_spawn_batch() as nat,
                )
                &&& b.finishes == (b.start + b.count == old(self).spec_pill_count())
                &&& b.start + b.count == final(self).spec_pending_index()
                &&& b.count <= old(self).spec_spawn_batch()
                &&& b.count == old(self).spec_spawn_batch() || b.start + b.count
                    == old(self).spec_pill_count()
            },
            batch is None ==> final(self).spec_pending_index() == old(self).spec_pending_index(),
            final(self).spec_pending_index() == next_spawned(
                old(self).spec_pending_index() as nat,
                old(self).spec_pill_count() as nat,
                old(self).spec_spawn_batch() as nat,
            ),
            final(self).spec_pill_count() == old(self).spec_pill_count(),
            final(self).spec_spawn_batch() == old(self).spec_spawn_batch(),
            final(self).spec_material_count() == old(self).spec_material_count(),
            final(self).spec_quality_set() == old(self).spec_quality_set(),
            final(self).spec_fps_text_count() == old(self).spec_fps_text_count(),
    {
        proof {
            use_type_invariant(&*self);
        }
        if self.pending_index < self.pill_count {
            let remaining = self.pill_count - self.pending_index;
            let count = if self.spawn_batch <= remaining {
                self.spawn_batch
            } else {
                remaining
            };
            let start = self.pending_index;
            self.pending_index = start + count;
            Some(SpawnBatch { start, count, finishes: start + count == self.pill_count })
        } else {
            None
        }
    }

    /// The decisions of one update: apply the post-effect settings once graphics
    /// exist, create the frame-rate texts while there are none, and, when the
    /// scene exists, take the next batch of pills to spawn.
    pub fn plan_update(&mut self, graphics_ready: bool, ui_count: usize, scene_exists: bool) -> (plan:
        UpdatePlan)
        ensures
            plan.apply_quality == quality_applies(old(self).spec_quality_set(), graphics_ready),
            final(self).spec_quality_set() == quality_after(old(self).spec_quality_set(), graphics_ready),
            old(self).spec_quality_set() ==> final(self).spec_quality_set() && !plan.apply_quality,
            plan.spawn matches Some(b) ==> b.start + b.count == final(self).spec_pending_index(),
            plan.fps_texts_to_create == if old(self).spec_fps_text_count() == 0 {
                ui_count
            } else {
                0
            },
            final(self).spec_fps_text_count() == old(self).spec_fps_text_count()
                + plan.fps_texts_to_create,
            plan.spawn is Some <==> scene_exists && old(self).spec_pending_index()
                < old(self).spec_pill_count(),
            plan.spawn matches Some(b) ==> {
                &&& b.start == old(self).spec_pending_index()
                &&& b.count == batch_len(
                    old(self).spec_pending_index() as nat,
                    old(self).spec_pill_count() as nat,
                    old(self).spec_spawn_batch() as nat,
                )
                &&& b.finishes == (b.start + b.count == old(self).spec_pill_count())
            },
            final(self).spec_pending_index() == if scene_exists {
                next_spawned(
                    old(self).spec_pending_index() as nat,
                    old(self).spec_pill_count() as nat,
                    old(self).spec_spawn_batch() as nat,
                )
            } else {
                old(self).spec_pending_index() as nat
            },
            final(self).spec_pill_count() == old(self).spec_pill_count(),
            final(self).spec_spawn_batch() == old(self).spec_spawn_batch(),
            final(self).spec_material_count() == old(self).spec_material_count(),
    {
        let apply_quality = self.note_graphics(graphics_ready);
        let fps_texts_to_create = self.note_user_interfaces(ui_count);
        let spawn = if scene_exists {
            self.take_batch()
        } else {
            None
        };
        UpdatePlan { apply_quality, fps_texts_to_create, spawn }
    }

    /// The material of pill number `pill`: materials are handed out in turn.
    pub fn material_index(&self, pill: usize) -> (index: usize)
        ensures
            index == spec_material_for_pill(pill as nat, self.spec_material_count() as nat),
            index < self.spec_material_count(),
            pill < self.spec_material_count() ==> index == pill,
            (pill - index) % (self.spec_material_count() as int) == 0,
    {
        proof {
            use_type_invariant(self);
        }
        material_for_pill(pill, self.material_count)
    }

    /// Number of pending pills to spawn in total.
    pub fn pill_count(&self) -> (n: usize)
        ensures
            n == self.spec_pill_count(),
    {
        self.pill_count
    }

    /// Number of pills spawned so far.
    pub fn pending_index(&self) -> (n: usize)
        ensures
            n == self.spec_pending_index(),
            n <= self.spec_pill_count(),
    {
        proof {
            use_type_invariant(self);
        }
        self.pending_index
    }

    /// Number of pills spawned per update.
    pub fn spawn_batch(&self) -> (n: usize)
        ensures
            n == self.spec_spawn_batch(),
    {
        self.spawn_batch
    }

    /// Number of materials pills are spread over.
    pub fn material_count(&self) -> (n: usize)
        ensures
            n == self.spec_material_count(),
            n >= 1,
    {
        proof {
            use_type_invariant(self);
        }
        self.material_count
    }

    /// The post-effect settings have been applied.
    pub fn quality_set(&self) -> (b: bool)
        ensures
            b == self.spec_quality_set(),
    {
        self.quality_set
    }

    /// Number of frame-rate texts created.
    pub fn fps_text_count(&self) -> (n: usize)
        ensures
            n == self.spec_fps_text_count(),
    {
        self.fps_text_count
    }
}

impl Clone for Game {
    /// A copy of the state.
    fn clone(&self) -> (copy: Self)
        ensures
            copy == *self,
    {
        proof {
            use_type_invariant(self);
        }
        Game {
            pill_count: self.pill_count,
            pending_index: self.pending_index,
            spawn_batch: self.spawn_batch,
            material_count: self.material_count,
            quality_set: self.quality_set,
            fps_text_count: self.fps_text_count,
        }
    }
}

impl Default for Game {
    /// An empty scene: no pills, the default batch size, one material, nothing
    /// applied or created yet.
    fn default() -> (game: Self)
        ensures
            game.spec_pill_count() == 0,
            game.spec_pending_index() == 0,
            game.spec_spawn_batch() == DEFAULT_SPAWN_BATCH,
            game.spec_material_count() == 1,
            !game.spec_quality_set(),
            game.spec_fps_text_count() == 0,
    {
        Game {
            pill_count: 0,
            pending_index: 0,
            spawn_batch: DEFAULT_SPAWN_BATCH,
            material_count: 1,
            quality_set: false,
            fps_text_count: 0,
        }
    }
}

/// How many of a run of updates apply the post-effect settings, starting from
/// `quality_set`, when graphics exist or not at each update as `ready` says.
pub open spec fn times_quality_applied(quality_set: bool, ready: Seq<bool>) -> nat
    decreases ready.len(),
{
    if ready.len() == 0 {
        0
    } else {
        (if quality_applies(quality_set, ready[0]) {
            1nat
        } else {
            0nat
        }) + times_quality_applied(quality_after(quality_set, ready[0]), ready.drop_first())
    }
}

/// Once applied, the post-effect settings stay applied whatever graphics do, and
/// over any run of updates they are applied at most once, and never when they
/// already were.
pub proof fn lemma_quality_applied_at_most_once(quality_set: bool, ready: Seq<bool>)
    ensures
        times_quality_applied(quality_set, ready) <= 1,
        quality_set ==> times_quality_applied(quality_set, ready) == 0,
        forall|r: bool| #[trigger] quality_after(true, r),
        forall|r: bool| !#[trigger] quality_applies(true, r),
        forall|r: bool| #[trigger] quality_applies(quality_set, r) ==> quality_after(quality_set, r),
    decreases ready.len(),
{
    if ready.len() > 0 {
        lemma_quality_applied_at_most_once(quality_after(quality_set, ready[0]), ready.drop_first());
        lemma_quality_applied_at_most_once(true, ready.drop_first());
    }
}

/// Post-effect settings are applied at most once between two starts of the
/// scene: whatever the graphics state at two successive updates, the second
/// never applies them again after the first did.
pub proof fn lemma_quality_applied_once(quality_set: bool, ready_first: bool, ready_second: bool)
    ensures
        !(quality_applies(quality_set, ready_first) && quality_applies(
            quality_after(quality_set, ready_first),
            ready_second,
        )),
        quality_applies(quality_set, ready_first) ==> quality_after(quality_set, ready_first),
{
}

} // verus!
