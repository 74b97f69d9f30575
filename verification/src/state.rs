//! Game states and the manager that switches between them.
//!
//! A game state owns a world, the systems that update it each frame, and
//! the systems that render it. The manager keeps the states by name,
//! runs the current one, and carries out a requested switch after the
//! update.

use vstd::prelude::*;

use crate::graphics::Renderer;
use crate::graphics::RenderOp;
use crate::resource::Identifier;
use crate::systems::DeltaTime;
use crate::systems::sprite::{
    covers_spawns, spec_loaded_entity, Position, SpriteLoader, SpriteRenderer, SpriteSpawn,
};
use crate::texture::Texture;
use crate::world::{spec_sprite_count, Entity, EntityV, World, WorldV};

verus! {

/// How long a sprite lives before the despawner removes its entity, in
/// nanoseconds.
pub const SPRITE_TIMEOUT_NANOS: u64 = 500_000_000;

/// The most sprites the spawner lets live at once.
pub const MAX_SPRITES: usize = 100;

/// How long a sprite has been alive, in nanoseconds.
#[derive(Clone, Copy, PartialEq, Eq, Debug)]
pub struct SpriteDuration(pub u64);

// ---------------------------------------------------------------------
// The update systems of the splash state
// ---------------------------------------------------------------------

/// While fewer than [`MAX_SPRITES`] sprites live, creates one entity per
/// update that asks for a test sprite at the position the frame supplied.
pub struct SpriteSpawner {}

/// The world after one spawner run: unchanged when the sprite limit is
/// reached, otherwise one fresh entity more, placed at `pos`, asking for
/// the test texture, with its age at zero.
pub open spec fn spec_spawner_step(w: WorldV, pos: Position) -> WorldV {
    if spec_sprite_count(w.entities) < MAX_SPRITES {
        WorldV {
            next_id: (w.next_id + 1) as u64,
            entities: w.entities.push(
                EntityV {
                    id: w.next_id,
                    position: Some(pos),
                    sprite: None,
                    spawn: Some("test.jpg"@),
                    duration: Some(SpriteDuration(0)),
                    dead: false,
                },
            ),
            delta: w.delta,
        }
    } else {
        w
    }
}

impl SpriteSpawner {
    /// One spawner run over the world.
    pub fn run(&self, world: &mut World, pos: Position)
        requires
            spec_sprite_count(old(world)@.entities) < MAX_SPRITES ==> old(world).next_id
                < u64::MAX,
        ensures
            final(world)@ == spec_spawner_step(old(world)@, pos),
    {
        let c = world.sprite_count();
        if c < MAX_SPRITES {
            let id = world.next_id;
            world.next_id = world.next_id + 1;
            world.entities.push(
                Entity {
                    id,
                    position: Some(pos),
                    sprite: None,
                    spawn: Some(
                        SpriteSpawn { texture_identifier: Identifier::Image("test.jpg".to_owned()) },
                    ),
                    duration: Some(SpriteDuration(0)),
                    dead: false,
                },
            );
            proof {
                assert(world@.entities =~= spec_spawner_step(old(world)@, pos).entities);
                assert(world@ =~= spec_spawner_step(old(world)@, pos));
            }
        }
    }
}

/// Ages every sprite by the frame's delta and deletes the entities whose
/// sprites have outlived [`SPRITE_TIMEOUT_NANOS`].
pub struct SpriteDespawner {}

/// An entity after one despawner run: a carried age grows by `delta`,
/// and the entity is marked for deletion once the age passes the
/// timeout.
pub open spec fn spec_despawned_entity(e: EntityV, delta: u64) -> EntityV {
    match e.duration {
        Some(d) => (EntityV {
            duration: Some(SpriteDuration((d.0 + delta) as u64)),
            dead: e.dead || (d.0 + delta) as u64 > SPRITE_TIMEOUT_NANOS,
            ..e
        }),
        None => e,
    }
}

/// The world after one despawner run.
pub open spec fn spec_despawner_step(w: WorldV) -> WorldV {
    WorldV { entities: w.entities.map_values(|e: EntityV| spec_despawned_entity(e, w.delta)), ..w }
}

/// The ages all fit: no entity's age would overflow when the frame's
/// delta is added.
pub open spec fn spec_ages_fit(w: WorldV) -> bool {
    forall|i: int|
        0 <= i < w.entities.len() && (#[trigger] w.entities[i]).duration is Some
            ==> w.entities[i].duration->Some_0.0 + w.delta <= u64::MAX
}

impl SpriteDespawner {
    /// One despawner run over the world.
    pub fn run(&self, world: &mut World)
        requires
            spec_ages_fit(old(world)@),
        ensures
            final(world)@ == spec_despawner_step(old(world)@),
    {
        let ghost orig = world.entities@;
        let delta = world.delta.0;
        let n = world.entities.len();
        let mut out: Vec<Entity> = Vec::new();
        for i in 0..n
            invariant
                n == orig.len(),
                world.entities@ == orig,
                world@.delta == delta,
                world.delta.0 == delta,
                spec_ages_fit(world@),
                out@.len() == i,
                forall|j: int|
                    0 <= j < i ==> (#[trigger] out@[j])@ == spec_despawned_entity(orig[j]@, delta),
        {
            let e = &world.entities[i];
            let mut c = e.clone();
            match &e.duration {
                Some(d) => {
                    proof {
                        assert(world@.entities[i as int] == orig[i as int]@);
                    }
                    let aged = d.0 + delta;
                    c.duration = Some(SpriteDuration(aged));
                    if aged > SPRITE_TIMEOUT_NANOS {
                        c.dead = true;
                    }
                },
                None => {},
            }
            out.push(c);
        }
        world.entities = out;
        proof {
            assert(world@.entities =~= spec_despawner_step(old(world)@).entities);
            assert(world@ =~= spec_despawner_step(old(world)@));
        }
    }
}

// ---------------------------------------------------------------------
// Dispatch: the update systems of a state, run in order
// ---------------------------------------------------------------------

/// An update system a state's dispatcher can run.
pub enum UpdateSystem {
    Spawner(SpriteSpawner),
    Despawner(SpriteDespawner),
}

/// The world after one system.
pub open spec fn spec_system_step(
    sys: UpdateSystem,
    w: WorldV,
    pos: Position,
) -> WorldV {
    match sys {
        UpdateSystem::Spawner(_) => spec_spawner_step(w, pos),
        UpdateSystem::Despawner(_) => spec_despawner_step(w),
    }
}

/// What a system needs of the world so that nothing overflows.
pub open spec fn spec_system_ok(sys: UpdateSystem, w: WorldV) -> bool {
    match sys {
        UpdateSystem::Spawner(_) => spec_sprite_count(w.entities) < MAX_SPRITES ==> w.next_id
            < u64::MAX,
        UpdateSystem::Despawner(_) => spec_ages_fit(w),
    }
}

/// The world after the systems have run in order.
pub open spec fn spec_dispatch(
    systems: Seq<UpdateSystem>,
    w: WorldV,
    pos: Position,
) -> WorldV
    decreases systems.len(),
{
    if systems.len() == 0 {
        w
    } else {
        spec_system_step(systems.last(), spec_dispatch(systems.drop_last(), w, pos), pos)
    }
}

/// Every system's needs hold at the world it will see.
pub open spec fn spec_dispatch_ok(
    systems: Seq<UpdateSystem>,
    w: WorldV,
    pos: Position,
) -> bool
    decreases systems.len(),
{
    if systems.len() == 0 {
        true
    } else {
        spec_dispatch_ok(systems.drop_last(), w, pos) && spec_system_ok(
            systems.last(),
            spec_dispatch(systems.drop_last(), w, pos),
        )
    }
}

proof fn lemma_dispatch_ok_prefix(
    systems: Seq<UpdateSystem>,
    w: WorldV,
    pos: Position,
    k: int,
)
    requires
        0 <= k <= systems.len(),
        spec_dispatch_ok(systems, w, pos),
    ensures
        spec_dispatch_ok(systems.take(k), w, pos),
    decreases systems.len() - k,
{
    if k == systems.len() {
        assert(systems.take(k) =~= systems);
    } else {
        lemma_dispatch_ok_prefix(systems, w, pos, k + 1);
        assert(systems.take(k + 1).drop_last() =~= systems.take(k));
    }
}

// ---------------------------------------------------------------------
// Rendering: the render systems of a state, run in order
// ---------------------------------------------------------------------

/// A render system a state can dispatch to.
pub enum RenderSystem {
    Loader(SpriteLoader),
    Sprites(SpriteRenderer),
}

/// The world after one render system: the loader attaches the sprites
/// the pending spawns ask for, the sprite renderer leaves the world
/// alone.
pub open spec fn spec_render_step_world(sys: RenderSystem, w: WorldV) -> WorldV {
    match sys {
        RenderSystem::Loader(l) => (WorldV {
            entities: w.entities.map_values(|e: EntityV| spec_loaded_entity(l.cache(), e)),
            ..w
        }),
        RenderSystem::Sprites(_) => w,
    }
}

/// The draw commands one render system records.
pub open spec fn spec_render_step_ops(sys: RenderSystem, w: WorldV) -> Seq<RenderOp> {
    match sys {
        RenderSystem::Loader(_) => Seq::empty(),
        RenderSystem::Sprites(_) => crate::systems::sprite::spec_draw_ops(w.entities),
    }
}

/// The world after the render systems have run in order.
pub open spec fn spec_render_world(systems: Seq<RenderSystem>, w: WorldV) -> WorldV
    decreases systems.len(),
{
    if systems.len() == 0 {
        w
    } else {
        spec_render_step_world(systems.last(), spec_render_world(systems.drop_last(), w))
    }
}

/// The draw commands the render systems record, in order.
pub open spec fn spec_render_ops(systems: Seq<RenderSystem>, w: WorldV) -> Seq<RenderOp>
    decreases systems.len(),
{
    if systems.len() == 0 {
        Seq::empty()
    } else {
        spec_render_ops(systems.drop_last(), w) + spec_render_step_ops(
            systems.last(),
            spec_render_world(systems.drop_last(), w),
        )
    }
}

/// A render system after a render pass: its cache is kept, the renderer
/// it borrowed has been handed back.
pub open spec fn spec_render_stripped(sys: RenderSystem) -> RenderSystem {
    match sys {
        RenderSystem::Loader(l) => RenderSystem::Loader(
            SpriteLoader { texture_cache: l.texture_cache, renderer: None },
        ),
        RenderSystem::Sprites(_) => RenderSystem::Sprites(SpriteRenderer { renderer: None }),
    }
}

/// Every loader among the systems has every texture the world's pending
/// spawns ask for; only then can a render pass run.
pub open spec fn spec_render_ok(systems: Seq<RenderSystem>, w: WorldV) -> bool {
    forall|k: int|
        0 <= k < systems.len() && (#[trigger] systems[k]) is Loader ==> covers_spawns(
            systems[k]->Loader_0.cache(),
            w.entities,
        )
}

/// No entity has a pending spawn.
pub open spec fn spec_no_spawns(entities: Seq<EntityV>) -> bool {
    forall|i: int| 0 <= i < entities.len() ==> (#[trigger] entities[i]).spawn is None
}

// ---------------------------------------------------------------------
// Game states
// ---------------------------------------------------------------------

/// One state of the game: a world, the systems that update it, and the
/// systems that render it.
pub struct GameState {
    pub name: String,
    pub loaded: bool,
    pub world: World,
    pub dispatcher: Vec<UpdateSystem>,
    pub rendering_systems: Vec<RenderSystem>,
}

/// The world a state's update leaves behind: the frame's delta is set,
/// the dispatcher's systems run in order, and the entities marked for
/// deletion are swept away.
pub open spec fn spec_updated_world(
    w: WorldV,
    systems: Seq<UpdateSystem>,
    dt: u64,
    pos: Position,
) -> WorldV {
    let stepped = spec_dispatch(systems, WorldV { delta: dt, ..w }, pos);
    WorldV { entities: stepped.entities.filter(|e: EntityV| !e.dead), ..stepped }
}

impl GameState {
    /// A state over the given world, update systems and render systems,
    /// not yet loaded, with the frame-time resource zeroed.
    pub fn new(
        name: String,
        world: World,
        dispatcher: Vec<UpdateSystem>,
        rendering_systems: Vec<RenderSystem>,
    ) -> (gs: GameState)
        ensures
            gs.name == name,
            !gs.loaded,
            gs.world@ == (WorldV { delta: 0, ..world@ }),
            gs.dispatcher == dispatcher,
            gs.rendering_systems == rendering_systems,
    {
        let ghost w_in = world@;
        let mut world = world;
        world.delta = DeltaTime(0);
        proof {
            assert(world@ =~= (WorldV { delta: 0, ..w_in }));
        }
        GameState { name, loaded: false, world, dispatcher, rendering_systems }
    }

    /// Preloads necessary resources for showing this state. Nothing is
    /// preloaded yet.
    fn preload(&mut self)
        ensures
            *final(self) == *old(self),
    {
    }

    /// Initializes the state; called every time the state is set active.
    /// Nothing is initialized yet.
    fn enter(&mut self)
        ensures
            *final(self) == *old(self),
    {
    }

    /// Called when the state is left. Nothing is torn down yet.
    fn leave(&mut self)
        ensures
            *final(self) == *old(self),
    {
    }

    /// Updates the state's world: sets the frame's delta, runs the
    /// dispatcher's systems in order, and sweeps deleted entities away.
    pub fn update(&mut self, dt: u64, pos: Position)
        requires
            spec_dispatch_ok(
                old(self).dispatcher@,
                (WorldV { delta: dt, ..old(self).world@ }),
                pos,
            ),
        ensures
            final(self).world@ == spec_updated_world(old(self).world@, old(self).dispatcher@, dt, pos),
            final(self).name == old(self).name,
            final(self).loaded == old(self).loaded,
            final(self).dispatcher == old(self).dispatcher,
            final(self).rendering_systems == old(self).rendering_systems,
    {
        let ghost w0 = WorldV { delta: dt, ..old(self).world@ };
        self.world.delta = DeltaTime(dt);
        proof {
            assert(self.world@ =~= w0);
            assert(self.dispatcher@.take(0) =~= Seq::<UpdateSystem>::empty());
        }
        let n = self.dispatcher.len();
        for i in 0..n
            invariant
                n == self.dispatcher@.len(),
                self.dispatcher == old(self).dispatcher,
                self.name == old(self).name,
                self.loaded == old(self).loaded,
                self.rendering_systems == old(self).rendering_systems,
                spec_dispatch_ok(self.dispatcher@, w0, pos),
                self.world@ == spec_dispatch(self.dispatcher@.take(i as int), w0, pos),
        {
            proof {
                lemma_dispatch_ok_prefix(self.dispatcher@, w0, pos, i + 1);
                assert(self.dispatcher@.take(i + 1).drop_last() =~= self.dispatcher@.take(i as int));
                assert(self.dispatcher@.take(i + 1).last() == self.dispatcher@[i as int]);
            }
            match &self.dispatcher[i] {
                UpdateSystem::Spawner(sys) => {
                    sys.run(&mut self.world, pos);
                },
                UpdateSystem::Despawner(sys) => {
                    sys.run(&mut self.world);
                },
            }
        }
        proof {
            assert(self.dispatcher@.take(n as int) =~= self.dispatcher@);
        }
        self.world.maintain();
        proof {
            assert(self.world@ =~= spec_updated_world(old(self).world@, old(self).dispatcher@, dt, pos));
        }
    }

    /// Whether every loader among the state's render systems has every
    /// texture the world's pending spawns ask for.
    pub fn render_ready(&self) -> (r: bool)
        ensures
            r == spec_render_ok(self.rendering_systems@, self.world@),
    {
        let n = self.rendering_systems.len();
        for k in 0..n
            invariant
                n == self.rendering_systems@.len(),
                forall|j: int|
                    0 <= j < k && (#[trigger] self.rendering_systems@[j]) is Loader
                        ==> covers_spawns(
                        self.rendering_systems@[j]->Loader_0.cache(),
                        self.world@.entities,
                    ),
        {
            match &self.rendering_systems[k] {
                RenderSystem::Loader(l) => {
                    if !l.is_ready_for(&self.world) {
                        return false;
                    }
                },
                RenderSystem::Sprites(_) => {},
            }
        }
        true
    }

    /// Renders the state: each render system in turn works the world
    /// over and records its draw commands with the renderer, which comes
    /// back with exactly those commands appended.
    pub fn render(&mut self, renderer: Renderer) -> (r: Renderer)
        requires
            spec_render_ok(old(self).rendering_systems@, old(self).world@),
        ensures
            r.ops@ == renderer.ops@ + spec_render_ops(
                old(self).rendering_systems@,
                old(self).world@,
            ),
            r.debug_texture == renderer.debug_texture,
            final(self).world@ == spec_render_world(
                old(self).rendering_systems@,
                old(self).world@,
            ),
            final(self).rendering_systems@ == old(self).rendering_systems@.map_values(
                |sys: RenderSystem| spec_render_stripped(sys),
            ),
            final(self).name == old(self).name,
            final(self).loaded == old(self).loaded,
            final(self).dispatcher == old(self).dispatcher,
    {
        let ghost w0 = old(self).world@;
        let ghost sys0 = old(self).rendering_systems@;
        let mut renderer = renderer;
        let ghost ops0 = renderer.ops@;
        let ghost debug0 = renderer.debug_texture;
        let n = self.rendering_systems.len();
        proof {
            assert(sys0.take(0) =~= Seq::<RenderSystem>::empty());
        }
        for k in 0..n
            invariant
                n == sys0.len(),
                self.rendering_systems@.len() == n,
                self.name == old(self).name,
                self.loaded == old(self).loaded,
                self.dispatcher == old(self).dispatcher,
                spec_render_ok(sys0, w0),
                forall|j: int| k <= j < n ==> self.rendering_systems@[j] == #[trigger] sys0[j],
                forall|j: int|
                    0 <= j < k ==> self.rendering_systems@[j] == spec_render_stripped(
                        #[trigger] sys0[j],
                    ),
                self.world@ == spec_render_world(sys0.take(k as int), w0),
                renderer.ops@ == ops0 + spec_render_ops(sys0.take(k as int), w0),
                renderer.debug_texture == debug0,
                self.world@.entities == w0.entities || spec_no_spawns(self.world@.entities),
        {
            proof {
                assert(sys0.take(k + 1).drop_last() =~= sys0.take(k as int));
                assert(sys0.take(k + 1).last() == sys0[k as int]);
            }
            let ghost systems_before = self.rendering_systems@;
            let ghost world_before = self.world@;
            let mut sys = self.rendering_systems.remove(k);
            proof {
                assert(sys == sys0[k as int]);
            }
            match &mut sys {
                RenderSystem::Loader(l) => {
                    proof {
                        if spec_no_spawns(self.world@.entities) {
                            assert(covers_spawns(l.cache(), self.world@.entities));
                        } else {
                            assert(self.world@.entities == w0.entities);
                            assert(covers_spawns(l.cache(), self.world@.entities));
                        }
                    }
                    renderer = l.render_world(&mut self.world, renderer);
                    proof {
                        assert forall|i: int| 0 <= i < self.world@.entities.len() implies (
                        #[trigger] self.world@.entities[i]).spawn is None by {
                            assert(self.world@.entities[i] == spec_loaded_entity(
                                sys0[k as int]->Loader_0.cache(),
                                world_before.entities[i],
                            ));
                        }
                        assert(spec_no_spawns(self.world@.entities));
                        assert(self.world@ =~= spec_render_world(sys0.take(k + 1), w0));
                        assert(renderer.ops@ =~= ops0 + spec_render_ops(sys0.take(k + 1), w0));
                    }
                },
                RenderSystem::Sprites(sr) => {
                    renderer = sr.render_world(&mut self.world, renderer);
                    proof {
                        assert(self.world@ =~= spec_render_world(sys0.take(k + 1), w0));
                        assert(renderer.ops@ =~= ops0 + spec_render_ops(sys0.take(k + 1), w0));
                    }
                },
            }
            proof {
                assert(sys == spec_render_stripped(sys0[k as int]));
            }
            self.rendering_systems.insert(k, sys);
            proof {
                assert(self.rendering_systems@ =~= systems_before.update(
                    k as int,
                    spec_render_stripped(sys0[k as int]),
                ));
            }
        }
        proof {
            assert(sys0.take(n as int) =~= sys0);
            assert(self.rendering_systems@ =~= sys0.map_values(
                |sys: RenderSystem| spec_render_stripped(sys),
            ));
        }
        renderer
    }
}

// ---------------------------------------------------------------------
// The splash state
// ---------------------------------------------------------------------

/// A splash state as [`splash_state`] builds it: an empty world, the
/// sprite spawner and despawner as its update systems, and a fresh
/// loader and sprite renderer as its render systems.
pub open spec fn is_fresh_splash_state(gs: GameState) -> bool {
    &&& gs.name@ == "splash"@
    &&& !gs.loaded
    &&& gs.world@ == (WorldV { next_id: 0, entities: Seq::empty(), delta: 0 })
    &&& gs.dispatcher@ == seq![
        UpdateSystem::Spawner(SpriteSpawner {}),
        UpdateSystem::Despawner(SpriteDespawner {}),
    ]
    &&& gs.rendering_systems@.len() == 2
    &&& gs.rendering_systems@[0] is Loader
    &&& gs.rendering_systems@[0]->Loader_0.cache() == Map::<Seq<char>, Texture>::empty()
    &&& gs.rendering_systems@[0]->Loader_0.renderer is None
    &&& gs.rendering_systems@[1] is Sprites
    &&& gs.rendering_systems@[1]->Sprites_0.renderer is None
}

/// The state the game starts in: sprites spawn at the supplied frame
/// positions, age, and despawn after their timeout.
pub fn splash_state() -> (gs: GameState)
    ensures
        is_fresh_splash_state(gs),
{
    let mut dispatcher: Vec<UpdateSystem> = Vec::new();
    dispatcher.push(UpdateSystem::Spawner(SpriteSpawner {}));
    dispatcher.push(UpdateSystem::Despawner(SpriteDespawner {}));
    let mut rendering_systems: Vec<RenderSystem> = Vec::new();
    rendering_systems.push(RenderSystem::Loader(SpriteLoader::new()));
    rendering_systems.push(RenderSystem::Sprites(SpriteRenderer { renderer: None }));
    let gs = GameState::new("splash".to_owned(), World::new(), dispatcher, rendering_systems);
    proof {
        assert(gs.dispatcher@ =~= seq![
            UpdateSystem::Spawner(SpriteSpawner {}),
            UpdateSystem::Despawner(SpriteDespawner {}),
        ]);
        assert(gs.world@ =~= (WorldV { next_id: 0, entities: Seq::empty(), delta: 0 }));
    }
    gs
}

// ---------------------------------------------------------------------
// The state manager
// ---------------------------------------------------------------------

/// Whether one of the states carries the given name.
pub open spec fn has_state_name(states: Seq<GameState>, name: Seq<char>) -> bool {
    exists|i: int| 0 <= i < states.len() && (#[trigger] states[i]).name@ == name
}

/// No two states carry the same name.
pub open spec fn distinct_state_names(states: Seq<GameState>) -> bool {
    forall|i: int, j: int|
        0 <= i < j < states.len() ==> (#[trigger] states[i]).name@ != (#[trigger] states[j]).name@
}

/// How one state relates to itself after an update pass.
pub open spec fn spec_state_updated(
    pre: GameState,
    post: GameState,
    dt: u64,
    pos: Position,
) -> bool {
    &&& post.name == pre.name
    &&& post.loaded == pre.loaded
    &&& post.dispatcher == pre.dispatcher
    &&& post.rendering_systems == pre.rendering_systems
    &&& post.world@ == spec_updated_world(pre.world@, pre.dispatcher@, dt, pos)
}

/// How one state relates to itself after a render pass.
pub open spec fn spec_state_rendered(pre: GameState, post: GameState) -> bool {
    &&& post.name == pre.name
    &&& post.loaded == pre.loaded
    &&& post.dispatcher == pre.dispatcher
    &&& post.world@ == spec_render_world(pre.rendering_systems@, pre.world@)
    &&& post.rendering_systems@ == pre.rendering_systems@.map_values(
        |sys: RenderSystem| spec_render_stripped(sys),
    )
}

/// Keeps the game's states by name, updates and renders the current one,
/// and carries out a requested switch after the update.
pub struct Manager {
    pub states: Vec<GameState>,
    pub current_state: String,
    pub next_state: Option<String>,
}

/// A manager as [`Manager::new`] builds it: only the splash state,
/// current, with no switch pending.
pub open spec fn is_fresh_manager(m: Manager) -> bool {
    &&& m.states@.len() == 1
    &&& is_fresh_splash_state(m.states@[0])
    &&& m.current_state@ == "splash"@
    &&& m.next_state is None
    &&& m.wf()
}

/// The manager's update condition: it is well formed and the current
/// state's dispatch will not overflow.
pub open spec fn spec_manager_can_update(
    m: Manager,
    delta: u64,
    pos: Position,
) -> bool {
    &&& m.wf()
    &&& forall|i: int|
        0 <= i < m.states@.len() && (#[trigger] m.states@[i]).name@ == m.current_state@
            ==> spec_dispatch_ok(
            m.states@[i].dispatcher@,
            (WorldV { delta, ..m.states@[i].world@ }),
            pos,
        )
}

/// How a manager relates to itself after an update: the current state is
/// updated and, if a switch was requested, the switch is carried out.
/// The request itself is kept as it stands.
pub open spec fn spec_manager_updated(
    pre: Manager,
    post: Manager,
    delta: u64,
    pos: Position,
) -> bool {
    &&& post.states@.len() == pre.states@.len()
    &&& forall|i: int|
        0 <= i < pre.states@.len() && (#[trigger] pre.states@[i]).name@ != pre.current_state@
            ==> post.states@[i] == pre.states@[i]
    &&& forall|i: int|
        0 <= i < pre.states@.len() && (#[trigger] pre.states@[i]).name@ == pre.current_state@
            ==> spec_state_updated(pre.states@[i], post.states@[i], delta, pos)
    &&& post.current_state@ == match pre.next_state {
        Some(n) => n@,
        None => pre.current_state@,
    }
    &&& post.next_state == pre.next_state
}

/// The manager's render condition: it is well formed and every loader of
/// the current state has the textures the world asks for.
pub open spec fn spec_manager_can_render(m: Manager) -> bool {
    &&& m.wf()
    &&& forall|i: int|
        0 <= i < m.states@.len() && (#[trigger] m.states@[i]).name@ == m.current_state@
            ==> spec_render_ok(m.states@[i].rendering_systems@, m.states@[i].world@)
}

/// How a manager relates to itself after a render pass over the current
/// state.
pub open spec fn spec_manager_rendered(pre: Manager, post: Manager) -> bool {
    &&& post.states@.len() == pre.states@.len()
    &&& forall|i: int|
        0 <= i < pre.states@.len() && (#[trigger] pre.states@[i]).name@ != pre.current_state@
            ==> post.states@[i] == pre.states@[i]
    &&& forall|i: int|
        0 <= i < pre.states@.len() && (#[trigger] pre.states@[i]).name@ == pre.current_state@
            ==> spec_state_rendered(pre.states@[i], post.states@[i])
    &&& post.current_state == pre.current_state
    &&& post.next_state == pre.next_state
}

/// The draw commands a render pass over the manager's current state
/// records.
pub open spec fn spec_manager_render_ops(m: Manager, i: int) -> Seq<RenderOp> {
    spec_render_ops(m.states@[i].rendering_systems@, m.states@[i].world@)
}

impl Manager {
    /// Distinct state names, a current state that exists, and a pending
    /// switch (if any) that names a state.
    pub open spec fn wf(&self) -> bool {
        &&& distinct_state_names(self.states@)
        &&& has_state_name(self.states@, self.current_state@)
        &&& match self.next_state {
            Some(n) => has_state_name(self.states@, n@),
            None => true,
        }
    }

    /// A manager holding the preloaded splash state, which is current.
    pub fn new() -> (m: Manager)
        ensures
            is_fresh_manager(m),
    {
        let mut states: Vec<GameState> = Vec::new();
        let mut splash = splash_state();
        splash.preload();
        states.push(splash);
        let m = Manager { states, current_state: "splash".to_owned(), next_state: None };
        proof {
            assert(m.states@[0].name@ == m.current_state@);
        }
        m
    }

    /// The index of the state with the given name, if one exists.
    fn find_state(&self, name: &String) -> (r: Option<usize>)
        ensures
            match r {
                Some(i) => i < self.states@.len() && self.states@[i as int].name@ == name@,
                None => !has_state_name(self.states@, name@),
            },
    {
        let n = self.states.len();
        for i in 0..n
            invariant
                n == self.states@.len(),
                forall|j: int| 0 <= j < i ==> (#[trigger] self.states@[j]).name@ != name@,
        {
            if self.states[i].name == *name {
                return Some(i);
            }
        }
        None
    }

    /// Whether a state of the given name exists.
    pub fn has_state(&self, name: &String) -> (r: bool)
        ensures
            r == has_state_name(self.states@, name@),
    {
        self.find_state(name).is_some()
    }

    /// Adds a state under its name, replacing any state of that name.
    pub fn add_state(&mut self, state: GameState)
        requires
            old(self).wf(),
        ensures
            final(self).wf(),
            final(self).current_state == old(self).current_state,
            final(self).next_state == old(self).next_state,
            has_state_name(old(self).states@, state.name@) ==> {
                &&& final(self).states@.len() == old(self).states@.len()
                &&& forall|i: int|
                    0 <= i < old(self).states@.len() && (#[trigger] old(self).states@[i]).name@
                        == state.name@ ==> final(self).states@[i] == state
                &&& forall|i: int|
                    0 <= i < old(self).states@.len() && (#[trigger] old(self).states@[i]).name@
                        != state.name@ ==> final(self).states@[i] == old(self).states@[i]
            },
            !has_state_name(old(self).states@, state.name@) ==> final(self).states@ == old(
                self,
            ).states@.push(state),
    {
        let idx = self.find_state(&state.name);
        match idx {
            Some(i) => {
                let ghost pre = self.states@;
                let ghost new_name = state.name@;
                let _old_state = self.states.remove(i);
                self.states.insert(i, state);
                proof {
                    assert(self.states@ =~= pre.update(i as int, self.states@[i as int]));
                    assert forall|j: int| 0 <= j < self.states@.len() implies (
                    #[trigger] self.states@[j]).name@ == old(self).states@[j].name@ by {
                        if j == i {
                            assert(self.states@[j].name@ == new_name);
                        }
                    }
                    assert forall|i1: int, j1: int| 0 <= i1 < j1 < self.states@.len() implies (
                    #[trigger] self.states@[i1]).name@ != (#[trigger] self.states@[j1]).name@ by {
                        assert(old(self).states@[i1].name@ != old(self).states@[j1].name@);
                    }
                    let k = choose|k: int|
                        0 <= k < old(self).states@.len() && (#[trigger] old(self).states@[k]).name@
                            == old(self).current_state@;
                    assert(self.states@[k].name@ == old(self).current_state@);
                    match &self.next_state {
                        Some(n0) => {
                            let k2 = choose|k2: int|
                                0 <= k2 < old(self).states@.len() && (
                                #[trigger] old(self).states@[k2]).name@ == n0@;
                            assert(self.states@[k2].name@ == n0@);
                        },
                        None => {},
                    }
                }
            },
            None => {
                let ghost pre = self.states@;
                let ghost new_name = state.name@;
                self.states.push(state);
                proof {
                    assert forall|i1: int, j1: int| 0 <= i1 < j1 < self.states@.len() implies (
                    #[trigger] self.states@[i1]).name@ != (#[trigger] self.states@[j1]).name@ by {
                        if j1 == pre.len() {
                            assert(self.states@[i1] == pre[i1]);
                            assert(self.states@[j1].name@ == new_name);
                        } else {
                            assert(self.states@[i1] == pre[i1]);
                            assert(self.states@[j1] == pre[j1]);
                        }
                    }
                    let k = choose|k: int|
                        0 <= k < pre.len() && (#[trigger] pre[k]).name@ == old(
                            self,
                        ).current_state@;
                    assert(self.states@[k].name@ == old(self).current_state@);
                    match &self.next_state {
                        Some(n0) => {
                            let k2 = choose|k2: int|
                                0 <= k2 < pre.len() && (#[trigger] pre[k2]).name@ == n0@;
                            assert(self.states@[k2].name@ == n0@);
                        },
                        None => {},
                    }
                }
            },
        }
    }

    /// Requests a switch to the named state; it is carried out at the end
    /// of the next update. The state must exist.
    pub fn switch_state(&mut self, name: String)
        requires
            old(self).wf(),
            has_state_name(old(self).states@, name@),
        ensures
            final(self).wf(),
            final(self).states == old(self).states,
            final(self).current_state == old(self).current_state,
            final(self).next_state == Some(name),
    {
        self.next_state = Some(name);
    }

    /// Updates the current state and then carries out a pending switch:
    /// the old state is left, the new one is preloaded (if it never was)
    /// and entered, and becomes current. The pending request stays as it
    /// is.
    pub fn update(&mut self, delta: u64, spawn_pos: Position)
        requires
            spec_manager_can_update(*old(self), delta, spawn_pos),
        ensures
            final(self).wf(),
            spec_manager_updated(*old(self), *final(self), delta, spawn_pos),
    {
        let cur_name = self.current_state.clone();
        match self.find_state(&cur_name) {
            Some(i) => {
                let ghost pre = self.states@;
                let mut st = self.states.remove(i);
                st.update(delta, spawn_pos);
                self.states.insert(i, st);
                proof {
                    assert(self.states@ =~= pre.update(i as int, self.states@[i as int]));
                }
            },
            None => {
                proof {
                    assert(false);
                }
            },
        }
        proof {
            assert(self.states@.len() == old(self).states@.len());
            assert forall|j: int| 0 <= j < self.states@.len() implies (
            #[trigger] self.states@[j]).name@ == old(self).states@[j].name@ by {}
        }
        let next_name: Option<String> = match &self.next_state {
            Some(n) => Some(n.clone()),
            None => None,
        };
        match next_name {
            Some(n) => {
                proof {
                    let k = choose|k: int|
                        0 <= k < old(self).states@.len() && (#[trigger] old(self).states@[k]).name@
                            == n@;
                    assert(self.states@[k].name@ == n@);
                    assert(has_state_name(self.states@, n@));
                }
                match self.find_state(&cur_name) {
                    Some(i) => {
                        let ghost pre = self.states@;
                        let mut st = self.states.remove(i);
                        st.leave();
                        self.states.insert(i, st);
                        proof {
                            assert(self.states@ =~= pre);
                        }
                    },
                    None => {
                        proof {
                            assert(false);
                        }
                    },
                }
                match self.find_state(&n) {
                    Some(i) => {
                        let ghost pre = self.states@;
                        let mut st = self.states.remove(i);
                        if !st.loaded {
                            st.preload();
                        }
                        st.enter();
                        self.states.insert(i, st);
                        proof {
                            assert(self.states@ =~= pre);
                        }
                    },
                    None => {
                        proof {
                            assert(false);
                        }
                    },
                }
                self.current_state = n;
            },
            None => {},
        }
        proof {
            assert(self.states@.len() == old(self).states@.len());
            assert forall|j: int| 0 <= j < self.states@.len() implies (
            #[trigger] self.states@[j]).name@ == old(self).states@[j].name@ by {}
            assert forall|i: int, j: int| 0 <= i < j < self.states@.len() implies (
            #[trigger] self.states@[i]).name@ != (#[trigger] self.states@[j]).name@ by {
                assert(old(self).states@[i].name@ != old(self).states@[j].name@);
            }
            assert(has_state_name(old(self).states@, self.current_state@));
            let k = choose|k: int|
                0 <= k < old(self).states@.len() && (#[trigger] old(self).states@[k]).name@
                    == self.current_state@;
            assert(self.states@[k].name@ == self.current_state@);
            match &self.next_state {
                Some(n0) => {
                    let k2 = choose|k2: int|
                        0 <= k2 < old(self).states@.len() && (
                        #[trigger] old(self).states@[k2]).name@ == n0@;
                    assert(self.states@[k2].name@ == n0@);
                },
                None => {},
            }
        }
    }

    /// Renders the current state: its render systems record their draw
    /// commands with the renderer, which comes back with exactly those
    /// commands appended.
    pub fn render(&mut self, renderer: Renderer) -> (r: Renderer)
        requires
            spec_manager_can_render(*old(self)),
        ensures
            final(self).wf(),
            spec_manager_rendered(*old(self), *final(self)),
            r.debug_texture == renderer.debug_texture,
            forall|i: int|
                0 <= i < old(self).states@.len() && (#[trigger] old(self).states@[i]).name@ == old(
                    self,
                ).current_state@ ==> r.ops@ == renderer.ops@ + spec_manager_render_ops(
                    *old(self),
                    i,
                ),
    {
        let cur_name = self.current_state.clone();
        match self.find_state(&cur_name) {
            Some(i) => {
                let ghost pre = self.states@;
                let mut st = self.states.remove(i);
                let r = st.render(renderer);
                self.states.insert(i, st);
                proof {
                    assert(self.states@ =~= pre.update(i as int, self.states@[i as int]));
                    assert forall|j: int| 0 <= j < self.states@.len() implies (
                    #[trigger] self.states@[j]).name@ == old(self).states@[j].name@ by {}
                    assert forall|i1: int, j1: int| 0 <= i1 < j1 < self.states@.len() implies (
                    #[trigger] self.states@[i1]).name@ != (#[trigger] self.states@[j1]).name@ by {
                        assert(old(self).states@[i1].name@ != old(self).states@[j1].name@);
                    }
                    assert(self.states@[i as int].name@ == self.current_state@);
                    match &self.next_state {
                        Some(n0) => {
                            let k2 = choose|k2: int|
                                0 <= k2 < old(self).states@.len() && (
                                #[trigger] old(self).states@[k2]).name@ == n0@;
                            assert(self.states@[k2].name@ == n0@);
                        },
                        None => {},
                    }
                }
                r
            },
            None => {
                proof {
                    assert(false);
                }
                renderer
            },
        }
    }
}

} // verus!
