//! Sprites: the components that place a texture in the world, and the
//! systems that load and draw them.

use vstd::prelude::*;

use crate::graphics::Renderer;
use crate::graphics::RenderOp;
use crate::resource::Identifier;
use crate::texture::Texture;
use crate::world::Entity;
use crate::world::EntityV;
use crate::world::World;

verus! {

/// Where an entity stands.
///
/// The engine never computes on coordinates: they are carried as the raw
/// bit patterns of the 32-bit floats the embedding program works in.
#[derive(Clone, Copy, PartialEq, Eq, Debug)]
pub struct Position {
    pub x_bits: u32,
    pub y_bits: u32,
}

/// Asks the sprite loader to attach a sprite with the named texture.
pub struct SpriteSpawn {
    pub texture_identifier: Identifier,
}

impl Clone for SpriteSpawn {
    fn clone(&self) -> (r: Self)
        ensures
            r == *self,
    {
        SpriteSpawn { texture_identifier: self.texture_identifier.clone() }
    }
}

/// A sprite: a texture drawn at the entity's position.
pub struct Sprite {
    pub texture: Texture,
}

impl Clone for Sprite {
    fn clone(&self) -> (r: Self)
        ensures
            r == *self,
    {
        Sprite { texture: self.texture.clone() }
    }
}

// ---------------------------------------------------------------------
// The sprite loader and its texture cache
// ---------------------------------------------------------------------

/// The cache as a map from file name to texture; a later entry for the
/// same name wins, as with repeated insertion.
pub open spec fn cache_map(entries: Seq<(String, Texture)>) -> Map<Seq<char>, Texture>
    decreases entries.len(),
{
    if entries.len() == 0 {
        Map::empty()
    } else {
        cache_map(entries.drop_last()).insert(entries.last().0@, entries.last().1)
    }
}

proof fn lemma_cache_map_found(entries: Seq<(String, Texture)>, k: int)
    requires
        0 <= k < entries.len(),
        forall|j: int| k < j < entries.len() ==> (#[trigger] entries[j]).0@ != entries[k].0@,
    ensures
        cache_map(entries).contains_key(entries[k].0@),
        cache_map(entries)[entries[k].0@] == entries[k].1,
    decreases entries.len(),
{
    if k == entries.len() - 1 {
    } else {
        lemma_cache_map_found(entries.drop_last(), k);
    }
}

proof fn lemma_cache_map_absent(entries: Seq<(String, Texture)>, key: Seq<char>)
    requires
        forall|j: int| 0 <= j < entries.len() ==> (#[trigger] entries[j]).0@ != key,
    ensures
        !cache_map(entries).contains_key(key),
    decreases entries.len(),
{
    if entries.len() > 0 {
        lemma_cache_map_absent(entries.drop_last(), key);
    }
}

/// Every entity that asks for a sprite asks for a texture the cache
/// already holds.
pub open spec fn covers_spawns(cache: Map<Seq<char>, Texture>, entities: Seq<EntityV>) -> bool {
    forall|i: int|
        0 <= i < entities.len() && (#[trigger] entities[i]).spawn is Some
            ==> cache.contains_key(entities[i].spawn->Some_0)
}

/// An entity after the loader has passed over it: a pending spawn
/// becomes a sprite with the cached texture of the requested name.
pub open spec fn spec_loaded_entity(cache: Map<Seq<char>, Texture>, e: EntityV) -> EntityV {
    match e.spawn {
        Some(name) => (EntityV {
            sprite: Some(Sprite { texture: cache[name] }),
            spawn: None,
            ..e
        }),
        None => e,
    }
}

/// Whether one of the listed names reads `n`.
pub open spec fn name_in(names: Seq<String>, n: Seq<char>) -> bool {
    exists|i: int| 0 <= i < names.len() && (#[trigger] names[i])@ == n
}

/// The file names the pending spawns ask for that `cache` does not hold,
/// in order of first request, each once; `acc` carries the names already
/// listed.
pub open spec fn spec_missing_textures(
    cache: Map<Seq<char>, Texture>,
    entities: Seq<Entity>,
    acc: Seq<String>,
) -> Seq<String>
    decreases entities.len(),
{
    if entities.len() == 0 {
        acc
    } else {
        let acc2 = match entities[0].spawn {
            Some(s) => {
                match s.texture_identifier {
                    Identifier::Image(f) => {
                        if !cache.contains_key(f@) && !name_in(acc, f@) {
                            acc.push(f)
                        } else {
                            acc
                        }
                    },
                }
            },
            None => acc,
        };
        spec_missing_textures(cache, entities.drop_first(), acc2)
    }
}

/// Attaches sprites to the entities that ask for one, taking the
/// textures from its cache.
pub struct SpriteLoader {
    pub texture_cache: Vec<(String, Texture)>,
    pub renderer: Option<Renderer>,
}

impl SpriteLoader {
    /// The textures cached so far, by file name.
    pub open spec fn cache(&self) -> Map<Seq<char>, Texture> {
        cache_map(self.texture_cache@)
    }

    /// A loader with an empty cache and no renderer.
    pub fn new() -> (l: SpriteLoader)
        ensures
            l.cache() == Map::<Seq<char>, Texture>::empty(),
            l.renderer is None,
    {
        SpriteLoader { renderer: None, texture_cache: Vec::new() }
    }

    /// The cached texture of the given file name, if there is one.
    pub fn get_cached(&self, filename: &String) -> (r: Option<&Texture>)
        ensures
            match r {
                Some(t) => self.cache().contains_key(filename@) && *t == self.cache()[filename@],
                None => !self.cache().contains_key(filename@),
            },
    {
        let n = self.texture_cache.len();
        let mut i: usize = n;
        while i > 0
            invariant
                i <= n,
                n == self.texture_cache@.len(),
                forall|j: int|
                    i <= j < self.texture_cache@.len() ==> (#[trigger] self.texture_cache@[j]).0@
                        != filename@,
            decreases i,
        {
            let entry = &self.texture_cache[i - 1];
            if entry.0 == *filename {
                proof {
                    lemma_cache_map_found(self.texture_cache@, i - 1);
                }
                return Some(&entry.1);
            }
            i = i - 1;
        }
        proof {
            lemma_cache_map_absent(self.texture_cache@, filename@);
        }
        None
    }

    /// Whether a texture of the given file name is cached.
    pub fn cached(&self, filename: &String) -> (r: bool)
        ensures
            r == self.cache().contains_key(filename@),
    {
        self.get_cached(filename).is_some()
    }

    /// Puts a loaded texture into the cache under its file name.
    pub fn install_texture(&mut self, filename: String, texture: Texture)
        ensures
            final(self).cache() == old(self).cache().insert(filename@, texture),
            final(self).renderer == old(self).renderer,
    {
        self.texture_cache.push((filename, texture));
        proof {
            assert(self.texture_cache@.drop_last() =~= old(self).texture_cache@);
        }
    }

    /// Whether the cache covers every texture the world's pending spawns
    /// ask for; only then can the loader run.
    pub fn is_ready_for(&self, world: &World) -> (r: bool)
        ensures
            r == covers_spawns(self.cache(), world@.entities),
    {
        let n = world.entities.len();
        for i in 0..n
            invariant
                n == world.entities@.len(),
                n == world@.entities.len(),
                forall|j: int|
                    0 <= j < i && (#[trigger] world@.entities[j]).spawn is Some
                        ==> self.cache().contains_key(world@.entities[j].spawn->Some_0),
        {
            proof {
                assert(world@.entities[i as int] == world.entities@[i as int]@);
            }
            match &world.entities[i].spawn {
                Some(s) => {
                    match &s.texture_identifier {
                        Identifier::Image(f) => {
                            if !self.cached(f) {
                                return false;
                            }
                        },
                    }
                },
                None => {},
            }
        }
        true
    }

    /// The file names the world's pending spawns ask for that the cache
    /// does not hold yet, in order of first request, each once. The
    /// embedding program loads these and installs them before the loader
    /// runs.
    pub fn missing_textures(&self, world: &World) -> (r: Vec<String>)
        ensures
            r@ == spec_missing_textures(self.cache(), world.entities@, Seq::<String>::empty()),
    {
        let ghost entities = world.entities@;
        let n = world.entities.len();
        let mut r: Vec<String> = Vec::new();
        proof {
            assert(entities.skip(0) =~= entities);
        }
        for j in 0..n
            invariant
                n == entities.len(),
                world.entities@ == entities,
                spec_missing_textures(self.cache(), entities, Seq::<String>::empty())
                    == spec_missing_textures(self.cache(), entities.skip(j as int), r@),
        {
            let ghost r_before = r@;
            match &world.entities[j].spawn {
                Some(s) => {
                    match &s.texture_identifier {
                        Identifier::Image(f) => {
                            let is_cached = self.cached(f);
                            let in_list = contains_name(&r, f);
                            if !is_cached && !in_list {
                                r.push(f.clone());
                            }
                        },
                    }
                },
                None => {},
            }
            proof {
                let rest = entities.skip(j as int);
                assert(rest[0] == entities[j as int]);
                assert(rest.drop_first() =~= entities.skip(j + 1));
                assert(spec_missing_textures(self.cache(), rest, r_before)
                    == spec_missing_textures(self.cache(), entities.skip(j + 1), r@));
            }
        }
        proof {
            assert(entities.skip(n as int) =~= Seq::<Entity>::empty());
        }
        r
    }

    /// Attaches a sprite, with the cached texture of the requested name,
    /// to every entity with a pending spawn, and clears the spawn. The
    /// cache must cover every requested name, and the loader must have
    /// been handed a renderer.
    pub fn run(&mut self, world: &mut World)
        requires
            old(self).renderer is Some,
            covers_spawns(old(self).cache(), old(world)@.entities),
        ensures
            *final(self) == *old(self),
            final(world)@.entities == old(world)@.entities.map_values(
                |e: EntityV| spec_loaded_entity(old(self).cache(), e),
            ),
            final(world)@.next_id == old(world)@.next_id,
            final(world)@.delta == old(world)@.delta,
    {
        let ghost orig = world.entities@;
        let n = world.entities.len();
        let mut out: Vec<Entity> = Vec::new();
        for i in 0..n
            invariant
                n == orig.len(),
                world.entities@ == orig,
                *self == *old(self),
                covers_spawns(self.cache(), orig.map_values(|e: Entity| e@)),
                out@.len() == i,
                forall|j: int|
                    0 <= j < i ==> (#[trigger] out@[j])@ == spec_loaded_entity(
                        self.cache(),
                        orig[j]@,
                    ),
        {
            proof {
                assert(orig.map_values(|e: Entity| e@)[i as int] == orig[i as int]@);
            }
            let e = &world.entities[i];
            let loaded = match &e.spawn {
                Some(s) => {
                    match &s.texture_identifier {
                        Identifier::Image(f) => {
                            let texture = match self.get_cached(f) {
                                Some(t) => t.clone(),
                                None => {
                                    proof {
                                        assert(false);
                                    }
                                    Texture::assemble((0, 0), 0, 0, 0)
                                },
                            };
                            Entity {
                                id: e.id,
                                position: e.position,
                                sprite: Some(Sprite { texture }),
                                spawn: None,
                                duration: e.duration,
                                dead: e.dead,
                            }
                        },
                    }
                },
                None => e.clone(),
            };
            out.push(loaded);
        }
        world.entities = out;
        proof {
            assert(world@.entities =~= orig.map_values(|e: Entity| e@).map_values(
                |e: EntityV| spec_loaded_entity(old(self).cache(), e),
            ));
        }
    }

    /// Hands the renderer to the loader, runs it over the world, and
    /// takes the renderer back, unharmed.
    pub fn render_world(&mut self, world: &mut World, renderer: Renderer) -> (r: Renderer)
        requires
            covers_spawns(old(self).cache(), old(world)@.entities),
        ensures
            r == renderer,
            final(world)@.entities == old(world)@.entities.map_values(
                |e: EntityV| spec_loaded_entity(old(self).cache(), e),
            ),
            final(world)@.next_id == old(world)@.next_id,
            final(world)@.delta == old(world)@.delta,
            final(self).renderer is None,
            final(self).texture_cache == old(self).texture_cache,
            final(self).cache() == old(self).cache(),
    {
        self.renderer = Some(renderer);
        self.run(world);
        let mut out: Option<Renderer> = None;
        core::mem::swap(&mut self.renderer, &mut out);
        match out {
            Some(r) => r,
            None => {
                proof {
                    assert(false);
                }
                Renderer::new(Texture::assemble((0, 0), 0, 0, 0))
            },
        }
    }
}

fn contains_name(v: &Vec<String>, name: &String) -> (r: bool)
    ensures
        r == name_in(v@, name@),
{
    let n = v.len();
    for i in 0..n
        invariant
            n == v@.len(),
            forall|j: int| 0 <= j < i ==> (#[trigger] v@[j])@ != name@,
    {
        if v[i] == *name {
            return true;
        }
    }
    false
}

// ---------------------------------------------------------------------
// The sprite renderer
// ---------------------------------------------------------------------

/// The draw commands of the entities that carry both a position and a
/// sprite, in entity order.
pub open spec fn spec_draw_ops(entities: Seq<EntityV>) -> Seq<RenderOp>
    decreases entities.len(),
{
    if entities.len() == 0 {
        Seq::empty()
    } else {
        spec_draw_ops(entities.drop_last()) + {
            let e = entities.last();
            if e.position is Some && e.sprite is Some {
                seq![
                    RenderOp::DrawTexture {
                        view: e.sprite->Some_0.texture.view,
                        x_bits: e.position->Some_0.x_bits,
                        y_bits: e.position->Some_0.y_bits,
                    },
                ]
            } else {
                Seq::empty()
            }
        }
    }
}

/// Draws every entity that carries both a position and a sprite.
pub struct SpriteRenderer {
    pub renderer: Option<Renderer>,
}

impl SpriteRenderer {
    /// Records a draw command for every positioned sprite, in entity
    /// order. The renderer must have been handed over.
    pub fn run(&mut self, world: &World)
        requires
            old(self).renderer is Some,
        ensures
            final(self).renderer is Some,
            final(self).renderer->Some_0.ops@ == old(self).renderer->Some_0.ops@ + spec_draw_ops(
                world@.entities,
            ),
            final(self).renderer->Some_0.debug_texture == old(
                self,
            ).renderer->Some_0.debug_texture,
    {
        let ghost orig_ops = self.renderer->Some_0.ops@;
        let n = world.entities.len();
        for i in 0..n
            invariant
                n == world.entities@.len(),
                n == world@.entities.len(),
                self.renderer is Some,
                self.renderer->Some_0.ops@ == orig_ops + spec_draw_ops(
                    world@.entities.take(i as int),
                ),
                self.renderer->Some_0.debug_texture == old(self).renderer->Some_0.debug_texture,
        {
            proof {
                assert(world@.entities.take(i + 1).drop_last() =~= world@.entities.take(i as int));
                assert(world@.entities.take(i + 1).last() == world@.entities[i as int]);
                assert(world@.entities[i as int] == world.entities@[i as int]@);
            }
            let e = &world.entities[i];
            match (&e.position, &e.sprite) {
                (Some(p), Some(s)) => {
                    match &mut self.renderer {
                        Some(r) => {
                            r.draw_texture(&s.texture, (p.x_bits, p.y_bits));
                        },
                        None => {
                            proof {
                                assert(false);
                            }
                        },
                    }
                },
                _ => {},
            }
            proof {
                assert(self.renderer->Some_0.ops@ =~= orig_ops + spec_draw_ops(
                    world@.entities.take(i + 1),
                ));
            }
        }
        proof {
            assert(world@.entities.take(n as int) =~= world@.entities);
        }
    }

    /// Hands the renderer to the system, draws the world with it, and
    /// takes it back with the frame's draw commands appended.
    pub fn render_world(&mut self, world: &mut World, renderer: Renderer) -> (r: Renderer)
        ensures
            r.ops@ == renderer.ops@ + spec_draw_ops(old(world)@.entities),
            r.debug_texture == renderer.debug_texture,
            *final(world) == *old(world),
            final(self).renderer is None,
    {
        self.renderer = Some(renderer);
        self.run(world);
        let mut out: Option<Renderer> = None;
        core::mem::swap(&mut self.renderer, &mut out);
        match out {
            Some(r) => r,
            None => {
                proof {
                    assert(false);
                }
                Renderer::new(Texture::assemble((0, 0), 0, 0, 0))
            },
        }
    }
}

} // verus!
