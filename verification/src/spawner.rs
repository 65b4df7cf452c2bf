//! The bodies of the scene and the spawner that places dice in the playbox.
//!
//! Dice are spawned on every resize that refits the playbox, two at a time,
//! at the centre of the box. So that frequent resizes cannot grow the scene
//! without bound, the spawner counts the dice that live and never lets them
//! exceed its cap.

use vstd::prelude::*;
use crate::error::ConfigError;
use crate::feedback::BodyTag;
use crate::frustum::{Projection, WindowSize};
use crate::playbox::{resize_result, resized, Playbox, SyncOutcome};
use crate::transform::{lemma_origin_goes_to_translation, Affine, Transform};
use crate::units::Vector3;

verus! {

/// The rig's mass: 200 grams, in millionths of a kilogram.
pub const RIG_MASS: u32 = 200_000;

/// The rig's linear damping, in millionths.
pub const RIG_LINEAR_DAMPING: u32 = 800_000;

/// The tangent of half the rig camera's vertical field of view, which is a
/// right angle: one, in millionths.
pub const RIG_HALF_FOV_TANGENT: u32 = 1_000_000;

/// A die's mass: 1.2 grams, in millionths of a kilogram.
pub const DIE_MASS: u32 = 1_200;

/// The edge of a die's collider, in millionths.
pub const DIE_EDGE: u32 = 1_600_000;

/// The radius that rounds the edges of a die's collider, in millionths: a
/// 128th of pi. Rounded edges keep sharp corners out of the contact solver.
pub const DIE_BORDER_RADIUS: u32 = 24_544;

/// The scale of a die's transform, in millionths.
pub const DIE_SCALE: u32 = 300_000;

/// How many dice one resize spawns.
pub const DICE_PER_RESIZE: u32 = 2;

/// The camera rig as the physics world is to know it: a dynamic body that
/// only forces move.
#[derive(Clone, Copy, Debug, PartialEq, Eq, Structural)]
pub struct RigBody {
    pub projection: Projection,
    pub mass: u32,
    pub linear_damping: u32,
    /// How much of the global gravity pulls the rig; zero: the rig is driven
    /// by forces alone.
    pub gravity_scale: u32,
    /// Whether the rig's rotation is frozen.
    pub rotation_locked: bool,
}

/// A die to spawn.
#[derive(Clone, Copy, Debug, PartialEq, Eq, Structural)]
pub struct Die {
    /// The tag by which contacts are told apart.
    pub tag: BodyTag,
    /// Where the die appears, in world space.
    pub position: Vector3,
    pub scale: u32,
    pub mass: u32,
    pub collider_edge: u32,
    pub collider_border_radius: u32,
    /// Whether the physics world reports the die's collisions; it does so
    /// only for bodies that ask.
    pub reports_collisions: bool,
}

/// The rig's description.
pub open spec fn rig_body_spec() -> RigBody {
    RigBody {
        projection: Projection::Perspective { half_fov_tangent: RIG_HALF_FOV_TANGENT },
        mass: RIG_MASS,
        linear_damping: RIG_LINEAR_DAMPING,
        gravity_scale: 0,
        rotation_locked: true,
    }
}

/// The die that appears at `position`.
pub open spec fn die_at(position: Vector3) -> Die {
    Die {
        tag: BodyTag::Dice,
        position,
        scale: DIE_SCALE,
        mass: DIE_MASS,
        collider_edge: DIE_EDGE,
        collider_border_radius: DIE_BORDER_RADIUS,
        reports_collisions: true,
    }
}

/// Where dice appear: the playbox's own origin carried through the box's
/// transform and then through the rig's; `None` where that leaves the
/// coordinate range.
pub open spec fn spawn_point(rig: Affine, playbox: Transform) -> Option<Vector3> {
    match playbox.image(Vector3::zero()) {
        Some(centre) => rig.image(centre),
        None => None,
    }
}

/// How many dice a resize spawns when `live` dice live under a cap of `cap`.
pub open spec fn batch(live: u32, cap: u32) -> u32 {
    if live >= cap {
        0
    } else if cap - live < DICE_PER_RESIZE {
        (cap - live) as u32
    } else {
        DICE_PER_RESIZE
    }
}

/// The dice that a resize spawns when `live` dice live under a cap of `cap`:
/// a batch of equal dice at the spawn point, or none where there is no such
/// point.
pub open spec fn spawned(rig: Affine, playbox: Transform, live: u32, cap: u32) -> Seq<Die> {
    match spawn_point(rig, playbox) {
        Some(point) => Seq::new(batch(live, cap) as nat, |i: int| die_at(point)),
        None => Seq::empty(),
    }
}

/// Describes the camera rig.
pub fn rig_body() -> (rig: RigBody)
    ensures
        rig == rig_body_spec(),
{
    RigBody {
        projection: Projection::Perspective { half_fov_tangent: RIG_HALF_FOV_TANGENT },
        mass: RIG_MASS,
        linear_damping: RIG_LINEAR_DAMPING,
        gravity_scale: 0,
        rotation_locked: true,
    }
}

/// Describes a die at `position`: tagged as a die, reporting its collisions,
/// and at least a hundred times lighter than the rig.
pub fn die(position: Vector3) -> (die: Die)
    ensures
        die == die_at(position),
        die.mass * 100 <= RIG_MASS,
{
    Die {
        tag: BodyTag::Dice,
        position,
        scale: DIE_SCALE,
        mass: DIE_MASS,
        collider_edge: DIE_EDGE,
        collider_border_radius: DIE_BORDER_RADIUS,
        reports_collisions: true,
    }
}

/// Finds where dice appear for a rig and a playbox.
pub fn place(rig: &Affine, playbox: &Playbox) -> (point: Option<Vector3>)
    ensures
        point == spawn_point(*rig, playbox@),
        point == rig.image(playbox@.translation),
{
    proof {
        lemma_origin_goes_to_translation(playbox@);
    }
    match playbox.transform().transform_point(Vector3::origin()) {
        Some(centre) => rig.transform_point(centre),
        None => None,
    }
}

/// Counts the dice that live and spawns new ones under a cap.
#[derive(Clone, Copy, Debug)]
pub struct Spawner {
    live: u32,
    cap: u32,
}

impl Spawner {
    /// How many dice live.
    pub closed spec fn live_count(self) -> u32 {
        self.live
    }

    /// How many dice may live at most.
    pub closed spec fn cap_count(self) -> u32 {
        self.cap
    }

    /// The dice that live do not exceed the cap.
    pub open spec fn wf(self) -> bool {
        self.live_count() <= self.cap_count()
    }

    /// Every spawner that a program holds is well-formed.
    #[verifier::type_invariant]
    spec fn always_wf(self) -> bool {
        self.wf()
    }

    /// A spawner with no dice yet.
    pub fn new(cap: u32) -> (spawner: Spawner)
        ensures
            spawner.live_count() == 0,
            spawner.cap_count() == cap,
            spawner.wf(),
    {
        Spawner { live: 0, cap }
    }

    /// How many dice live.
    pub fn live(&self) -> (n: u32)
        ensures
            n == self.live_count(),
            n <= self.cap_count(),
    {
        proof {
            use_type_invariant(self);
        }
        self.live
    }

    /// How many dice may live at most.
    pub fn cap(&self) -> (n: u32)
        ensures
            n == self.cap_count(),
    {
        self.cap
    }

    /// Spawns a batch of dice at the centre of the playbox: two, or as many
    /// as the cap still allows. Where the centre leaves the coordinate range
    /// nothing is spawned.
    pub fn spawn(&mut self, rig: &Affine, playbox: &Playbox) -> (dice: Vec<Die>)
        ensures
            final(self).wf(),
            final(self).cap_count() == old(self).cap_count(),
            final(self).live_count() == old(self).live_count() + dice@.len(),
            dice@ == spawned(*rig, playbox@, old(self).live_count(), old(self).cap_count()),
    {
        proof {
            use_type_invariant(&*self);
        }
        let mut dice: Vec<Die> = Vec::new();
        match place(rig, playbox) {
            None => {},
            Some(point) => {
                let room = self.cap - self.live;
                let count = if room < DICE_PER_RESIZE {
                    room
                } else {
                    DICE_PER_RESIZE
                };
                let mut i: u32 = 0;
                while i < count
                    invariant
                        0 <= i <= count,
                        dice@.len() == i,
                        forall|k: int| 0 <= k < i ==> dice@[k] == die_at(point),
                    decreases count - i,
                {
                    dice.push(die(point));
                    i += 1;
                }
                self.live = self.live + count;
            },
        }
        assert(dice@ =~= spawned(*rig, playbox@, old(self).live_count(), old(self).cap_count()));
        dice
    }

    /// Records that `count` dice were removed from the scene.
    pub fn despawned(&mut self, count: u32)
        ensures
            final(self).wf(),
            final(self).cap_count() == old(self).cap_count(),
            final(self).live_count() == if count >= old(self).live_count() {
                0
            } else {
                old(self).live_count() - count
            },
    {
        proof {
            use_type_invariant(&*self);
        }
        if count >= self.live {
            self.live = 0;
        } else {
            self.live = self.live - count;
        }
    }
}

/// However often the window is resized, the dice that live stay within the
/// cap: a batch is never more than two dice and never more than the cap
/// leaves room for.
pub proof fn lemma_batch_respects_cap(live: u32, cap: u32)
    requires
        live <= cap,
    ensures
        batch(live, cap) <= DICE_PER_RESIZE,
        live + batch(live, cap) <= cap,
        cap - live >= DICE_PER_RESIZE ==> batch(live, cap) == DICE_PER_RESIZE,
{
}

/// Dice appear where the rig's transform takes the playbox's translation: the
/// box's own origin lies at its centre.
pub proof fn lemma_dice_appear_at_the_centre(rig: Affine, playbox: Transform)
    ensures
        spawn_point(rig, playbox) == rig.image(playbox.translation),
{
    lemma_origin_goes_to_translation(playbox);
}

/// What the resizes of one frame did: what became of the playbox, and the
/// dice to add to the scene.
#[derive(Debug, PartialEq, Eq)]
pub struct Refit {
    pub outcome: SyncOutcome,
    pub dice: Vec<Die>,
}

/// The playbox together with the spawner that fills it.
#[derive(Clone, Copy, Debug)]
pub struct Scene {
    pub playbox: Playbox,
    pub spawner: Spawner,
}

impl Scene {
    /// Both parts are well-formed.
    pub open spec fn wf(self) -> bool {
        self.playbox.wf() && self.spawner.wf()
    }

    /// A scene with the unit playbox and no dice.
    pub fn new(cap: u32) -> (scene: Scene)
        ensures
            scene.wf(),
            scene.playbox@ == Transform::identity(),
            scene.spawner.live_count() == 0,
            scene.spawner.cap_count() == cap,
    {
        Scene { playbox: Playbox::new(), spawner: Spawner::new(cap) }
    }

    /// Handles the resizes of one frame: refits the playbox to the last of
    /// them and, where that applied, spawns a batch of dice at the new centre.
    /// Without a resize, or with one that was skipped or refused, no die is
    /// spawned.
    pub fn on_resize(
        &mut self,
        rig: &Affine,
        projection: Projection,
        resizes: &Vec<WindowSize>,
    ) -> (result: Result<Refit, ConfigError>)
        ensures
            final(self).wf(),
            final(self).spawner.cap_count() == old(self).spawner.cap_count(),
            final(self).playbox@ == resized(old(self).playbox@, projection, resizes@),
            match resize_result(projection, resizes@) {
                Err(error) => {
                    &&& result == Err::<Refit, ConfigError>(error)
                    &&& final(self).spawner.live_count() == old(self).spawner.live_count()
                },
                Ok(outcome) => {
                    &&& result matches Ok(refit)
                    &&& refit.outcome == outcome
                    &&& refit.dice@ == if outcome == SyncOutcome::Applied {
                        spawned(
                            *rig,
                            final(self).playbox@,
                            old(self).spawner.live_count(),
                            old(self).spawner.cap_count(),
                        )
                    } else {
                        Seq::<Die>::empty()
                    }
                    &&& final(self).spawner.live_count() == old(self).spawner.live_count()
                        + refit.dice@.len()
                },
            },
    {
        proof {
            use_type_invariant(&self.spawner);
        }
        match self.playbox.on_resize(projection, resizes) {
            Err(error) => Err(error),
            Ok(outcome) => {
                let dice = match outcome {
                    SyncOutcome::Applied => self.spawner.spawn(rig, &self.playbox),
                    _ => Vec::new(),
                };
                Ok(Refit { outcome, dice })
            },
        }
    }
}

} // verus!
