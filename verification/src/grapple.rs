//! The grappling hook: a two-state controller that casts a ray toward the
//! cursor when the fire input goes down, tethers the actor to whatever the
//! ray hit, and lets go when the input is released.
//!
//! The controller decides; the caller performs. Each tick the caller hands
//! over the input and receives a command. A `Cast` is answered by the
//! physics engine; on a hit the caller asks `RayQuery::tether` where to put
//! the anchor and how long the rope is, creates both, and reports the pair
//! with `attach`. A `Release` names the pair that must be destroyed.

use vstd::prelude::*;
use crate::entity::EntityId;
use crate::units::{
    lemma_part_brackets, lemma_scaled_bound, lemma_unit_length, magnitude, scaled, unit_part,
    unit_parts, UNIT, WORLD_LIMIT,
};
use crate::vector::{Direction, Vec2};

verus! {

/// How far a grapple ray reaches: five thousand units.
pub const GRAPPLE_RANGE: i64 = 5_000_000_000;

/// The two things a tether is made of: the static body at its far end and
/// the distance constraint that joins the actor to it.
#[derive(Clone, Copy, Debug, PartialEq, Eq, Structural)]
pub struct GrappleLink {
    pub anchor: EntityId,
    pub constraint: EntityId,
}

/// Who the actor is and where it stands.
#[derive(Clone, Copy, Debug, PartialEq, Eq, Structural)]
pub struct ActorPose {
    pub id: EntityId,
    pub position: Vec2,
}

/// A ray for the physics engine to cast.
#[derive(Clone, Copy, Debug, PartialEq, Eq, Structural)]
pub struct RayQuery {
    pub origin: Vec2,
    pub direction: Direction,
    pub max_distance: i64,
    /// The body the ray must pass through: the actor itself.
    pub excluded: EntityId,
}

/// Where to put the anchor and how long to make the rope.
#[derive(Clone, Copy, Debug, PartialEq, Eq, Structural)]
pub struct Tether {
    pub anchor_position: Vec2,
    pub rest_length: i64,
}

/// What the caller must do after a tick.
#[derive(Clone, Copy, Debug, PartialEq, Eq, Structural)]
pub enum GrappleCommand {
    Nothing,
    Cast(RayQuery),
    Release(GrappleLink),
}

/// What a controller remembers between ticks.
#[derive(Clone, Copy, Debug, PartialEq, Eq, Structural)]
pub struct GrappleState {
    /// The tether, while attached.
    pub link: Option<GrappleLink>,
    /// Whether the fire input was held at the last tick that had an actor.
    pub fire_was_held: bool,
}

/// The unit vector from `from` toward `toward`, or nothing where the two
/// coincide: each coordinate of the displacement divided by its length.
pub open spec fn aimed(from: Vec2, toward: Vec2) -> Option<Vec2> {
    let dx = toward.x - from.x;
    let dy = toward.y - from.y;
    if from == toward {
        None
    } else {
        Some(
            Vec2 {
                x: unit_part(dx, dx * dx + dy * dy) as i64,
                y: unit_part(dy, dx * dx + dy * dy) as i64,
            },
        )
    }
}

/// Computes the unit vector from `from` toward `toward`.
pub fn aim(from: Vec2, toward: Vec2) -> (heading: Option<Direction>)
    requires
        from.in_world(),
        toward.in_world(),
    ensures
        heading is Some <==> from != toward,
        heading matches Some(d) ==> aimed(from, toward) == Some(d@),
        heading matches Some(d) ==> d@.is_unit_long(),
{
    let dx: i128 = toward.x as i128 - from.x as i128;
    let dy: i128 = toward.y as i128 - from.y as i128;
    assert(dx * dx + dy * dy + 0 * 0 == dx * dx + dy * dy) by (nonlinear_arith);
    match unit_parts(dx, dy, 0) {
        Some((x, y, _)) => {
            proof {
                assert(dx * dx + dy * dy > 0) by (nonlinear_arith)
                    requires
                        !(dx == 0 && dy == 0),
                ;
                lemma_unit_length(dx as int, dy as int, 0);
                lemma_part_brackets(0, dx * dx + dy * dy);
                assert(magnitude(0) + 1 == 1);
                assert((magnitude(0) + 1) * (magnitude(0) + 1) == 1) by (nonlinear_arith)
                    requires
                        magnitude(0) + 1 == 1,
                ;
                assert(unit_part(0, dx * dx + dy * dy) * unit_part(0, dx * dx + dy * dy) == 0)
                    by (nonlinear_arith)
                    requires
                        unit_part(0, dx * dx + dy * dy) == 0,
                ;
                Direction::lemma_view_of(Vec2 { x, y });
            }
            Direction::new(x, y)
        },
        None => None,
    }
}

impl RayQuery {
    /// The tether for a hit at `hit_distance` along this ray: the anchor sits
    /// at the origin plus the direction times the distance, and the rope is
    /// as long as the distance.
    pub open spec fn anchored(self, hit_distance: i64) -> Tether {
        Tether {
            anchor_position: Vec2 {
                x: (self.origin.x + scaled(self.direction@.x as int, hit_distance as int)) as i64,
                y: (self.origin.y + scaled(self.direction@.y as int, hit_distance as int)) as i64,
            },
            rest_length: hit_distance,
        }
    }

    /// Works out the tether for a hit at `hit_distance` along this ray.
    pub fn tether(&self, hit_distance: i64) -> (tether: Tether)
        requires
            self.origin.in_world(),
            0 <= hit_distance <= WORLD_LIMIT,
        ensures
            tether == self.anchored(hit_distance),
            tether.anchor_position.x == self.origin.x + scaled(
                self.direction@.x as int,
                hit_distance as int,
            ),
            tether.anchor_position.y == self.origin.y + scaled(
                self.direction@.y as int,
                hit_distance as int,
            ),
    {
        let heading = self.direction.coordinates();
        proof {
            lemma_scaled_bound(
                heading.x as int,
                hit_distance as int,
                UNIT as int,
                WORLD_LIMIT as int,
            );
            lemma_scaled_bound(
                heading.y as int,
                hit_distance as int,
                UNIT as int,
                WORLD_LIMIT as int,
            );
        }
        let along_x: i128 = (heading.x as i128 * hit_distance as i128) / (UNIT as i128);
        let along_y: i128 = (heading.y as i128 * hit_distance as i128) / (UNIT as i128);
        Tether {
            anchor_position: Vec2 {
                x: (self.origin.x as i128 + along_x) as i64,
                y: (self.origin.y as i128 + along_y) as i64,
            },
            rest_length: hit_distance,
        }
    }
}

impl GrappleState {
    /// The state of a controller that has never seen an input.
    pub open spec fn initial() -> GrappleState {
        GrappleState { link: None, fire_was_held: false }
    }

    /// Whether a tick with this input is the rising edge of the fire input
    /// on an idle controller, the one moment at which a ray is aimed.
    pub open spec fn aims_on(self, actor: Option<ActorPose>, fire_held: bool) -> bool {
        actor is Some && self.link is None && fire_held && !self.fire_was_held
    }

    /// The state after one tick, and the command the tick gives.
    ///
    /// Without an actor nothing happens. With one, an idle controller casts
    /// on the rising edge of the fire input, unless actor and cursor
    /// coincide; an attached controller releases as soon as the input is up.
    pub open spec fn step(self, actor: Option<ActorPose>, fire_held: bool, cursor: Vec2) -> (
        GrappleState,
        GrappleCommand,
    ) {
        match actor {
            None => (self, GrappleCommand::Nothing),
            Some(pose) => {
                let heard = GrappleState { link: self.link, fire_was_held: fire_held };
                match self.link {
                    None => {
                        if self.aims_on(actor, fire_held) {
                            match aimed(pose.position, cursor) {
                                Some(heading) => (
                                    heard,
                                    GrappleCommand::Cast(
                                        RayQuery {
                                            origin: pose.position,
                                            direction: Direction::of(heading),
                                            max_distance: GRAPPLE_RANGE,
                                            excluded: pose.id,
                                        },
                                    ),
                                ),
                                None => (heard, GrappleCommand::Nothing),
                            }
                        } else {
                            (heard, GrappleCommand::Nothing)
                        }
                    },
                    Some(link) => {
                        if fire_held {
                            (heard, GrappleCommand::Nothing)
                        } else {
                            (
                                GrappleState { link: None, fire_was_held: false },
                                GrappleCommand::Release(link),
                            )
                        }
                    },
                }
            },
        }
    }

    /// The state after the caller reports the pair it created for a hit. A
    /// controller that is already attached keeps the tether it has.
    pub open spec fn attached(self, link: GrappleLink) -> GrappleState {
        match self.link {
            None => GrappleState { link: Some(link), fire_was_held: self.fire_was_held },
            Some(_) => self,
        }
    }
}

/// The grapple controller of one actor, sole owner of the tether it holds.
#[derive(Debug)]
pub struct GrappleController {
    link: Option<GrappleLink>,
    fire_was_held: bool,
}

impl View for GrappleController {
    type V = GrappleState;

    closed spec fn view(&self) -> GrappleState {
        GrappleState { link: self.link, fire_was_held: self.fire_was_held }
    }
}

impl GrappleController {
    /// A controller that is idle and has never seen the fire input held.
    pub fn new() -> (controller: GrappleController)
        ensures
            controller@ == GrappleState::initial(),
    {
        GrappleController { link: None, fire_was_held: false }
    }

    /// The tether the controller holds, if it is attached.
    pub fn link(&self) -> (link: Option<GrappleLink>)
        ensures
            link == self@.link,
    {
        self.link
    }

    /// Takes one tick of input and says what to do about it.
    ///
    /// The actor and the cursor must lie within the world when a ray is
    /// aimed.
    pub fn tick(&mut self, actor: Option<ActorPose>, fire_held: bool, cursor: Vec2) -> (command:
        GrappleCommand)
        requires
            old(self)@.aims_on(actor, fire_held) ==> actor->0.position.in_world()
                && cursor.in_world(),
        ensures
            (final(self)@, command) == old(self)@.step(actor, fire_held, cursor),
            command matches GrappleCommand::Cast(query) ==> aimed(actor->0.position, cursor)
                == Some(query.direction@) && query.direction@.is_unit_long(),
    {
        let pose = match actor {
            Some(pose) => pose,
            None => {
                return GrappleCommand::Nothing;
            },
        };
        let was_held = self.fire_was_held;
        self.fire_was_held = fire_held;
        match self.link {
            None => {
                if fire_held && !was_held {
                    match aim(pose.position, cursor) {
                        Some(direction) => {
                            proof {
                                direction.lemma_of_view();
                            }
                            GrappleCommand::Cast(
                                RayQuery {
                                    origin: pose.position,
                                    direction,
                                    max_distance: GRAPPLE_RANGE,
                                    excluded: pose.id,
                                },
                            )
                        },
                        None => GrappleCommand::Nothing,
                    }
                } else {
                    GrappleCommand::Nothing
                }
            },
            Some(link) => {
                if fire_held {
                    GrappleCommand::Nothing
                } else {
                    self.link = None;
                    GrappleCommand::Release(link)
                }
            },
        }
    }

    /// Records the anchor and the constraint that the caller created for a
    /// hit, which makes the controller attached.
    pub fn attach(&mut self, link: GrappleLink)
        requires
            old(self)@.link is None,
        ensures
            final(self)@ == old(self)@.attached(link),
            final(self)@.link == Some(link),
    {
        self.link = Some(link);
    }
}

/// Something that happens to a controller: a tick of input, or the caller's
/// report of the pair it created after a cast that hit.
pub enum GrappleEvent {
    Tick { actor: Option<ActorPose>, fire_held: bool, cursor: Vec2 },
    Attached(GrappleLink),
}

/// The tether parts that a controller in a given state accounts for.
pub open spec fn parts(link: Option<GrappleLink>) -> Set<EntityId> {
    match link {
        Some(link) => set![link.anchor, link.constraint],
        None => Set::empty(),
    }
}

/// The controller's state and the tether parts alive in the physics world
/// after one event, for a caller that creates exactly the pair it reports
/// and destroys exactly the pair a `Release` names.
pub open spec fn world_after(state: GrappleState, alive: Set<EntityId>, event: GrappleEvent) -> (
    GrappleState,
    Set<EntityId>,
) {
    match event {
        GrappleEvent::Tick { actor, fire_held, cursor } => {
            let (next, command) = state.step(actor, fire_held, cursor);
            match command {
                GrappleCommand::Release(link) => (
                    next,
                    alive.remove(link.anchor).remove(link.constraint),
                ),
                _ => (next, alive),
            }
        },
        GrappleEvent::Attached(link) => {
            match state.link {
                None => (state.attached(link), alive.insert(link.anchor).insert(link.constraint)),
                Some(_) => (state, alive),
            }
        },
    }
}

/// The state and the live tether parts after a run of events.
pub open spec fn world_after_all(
    state: GrappleState,
    alive: Set<EntityId>,
    events: Seq<GrappleEvent>,
) -> (GrappleState, Set<EntityId>)
    decreases events.len(),
{
    if events.len() == 0 {
        (state, alive)
    } else {
        let (before, living) = world_after_all(state, alive, events.drop_last());
        world_after(before, living, events.last())
    }
}

/// A press that aims at something other than the actor's own position casts
/// a ray, and once the caller reports the pair it made for the hit, both the
/// anchor and the constraint are held.
pub proof fn lemma_press_with_hit_attaches(
    state: GrappleState,
    pose: ActorPose,
    cursor: Vec2,
    link: GrappleLink,
)
    requires
        state.link is None,
        !state.fire_was_held,
        pose.position != cursor,
    ensures
        state.step(Some(pose), true, cursor).1 is Cast,
        state.step(Some(pose), true, cursor).0.attached(link).link == Some(link),
        parts(state.step(Some(pose), true, cursor).0.attached(link).link).contains(link.anchor),
        parts(state.step(Some(pose), true, cursor).0.attached(link).link).contains(
            link.constraint,
        ),
{
}

/// Letting go of the fire input while attached releases the very pair that
/// was held, and leaves the controller holding nothing.
pub proof fn lemma_release_detaches(state: GrappleState, pose: ActorPose, cursor: Vec2)
    requires
        state.link is Some,
    ensures
        state.step(Some(pose), false, cursor).1 == GrappleCommand::Release(state.link->0),
        state.step(Some(pose), false, cursor).0.link is None,
        parts(state.step(Some(pose), false, cursor).0.link) == Set::<EntityId>::empty(),
{
}

/// Whatever is pressed, released or reported, and in whatever order, the
/// tether parts alive are exactly the pair the controller holds: both while
/// attached, neither while idle, never one without the other.
pub proof fn lemma_tether_parts_live_together(
    state: GrappleState,
    alive: Set<EntityId>,
    events: Seq<GrappleEvent>,
)
    requires
        alive == parts(state.link),
    ensures
        world_after_all(state, alive, events).1 == parts(
            world_after_all(state, alive, events).0.link,
        ),
        world_after_all(state, alive, events).0.link matches Some(link) ==> world_after_all(
            state,
            alive,
            events,
        ).1.contains(link.anchor) && world_after_all(state, alive, events).1.contains(
            link.constraint,
        ),
        world_after_all(state, alive, events).0.link is None ==> world_after_all(
            state,
            alive,
            events,
        ).1 == Set::<EntityId>::empty(),
    decreases events.len(),
{
    if events.len() > 0 {
        lemma_tether_parts_live_together(state, alive, events.drop_last());
        let (before, living) = world_after_all(state, alive, events.drop_last());
        let (after, left) = world_after(before, living, events.last());
        assert(left =~= parts(after.link));
    }
}

} // verus!
