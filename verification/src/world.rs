//! The entity/component world the systems run over.
//!
//! An entity is a record of the components attached to it. Deleting an
//! entity only marks it, as the systems of a dispatch may still hold
//! references; `maintain` sweeps the marked entities away at the end of
//! an update, exactly as the world's contract states.

use vstd::prelude::*;

use crate::state::SpriteDuration;
use crate::systems::DeltaTime;
use crate::systems::sprite::{Position, Sprite, SpriteSpawn};

verus! {

/// An entity and the components attached to it.
pub struct Entity {
    pub id: u64,
    pub position: Option<Position>,
    pub sprite: Option<Sprite>,
    pub spawn: Option<SpriteSpawn>,
    pub duration: Option<SpriteDuration>,
    pub dead: bool,
}

impl Entity {
    /// A fresh entity: no components, not marked for deletion.
    pub open spec fn spec_blank(id: u64) -> Entity {
        Entity { id, position: None, sprite: None, spawn: None, duration: None, dead: false }
    }
}

/// The plain data of an entity: a pending spawn is reduced to the
/// texture name it asks for.
#[verifier::ext_equal]
pub struct EntityV {
    pub id: u64,
    pub position: Option<Position>,
    pub sprite: Option<Sprite>,
    pub spawn: Option<Seq<char>>,
    pub duration: Option<SpriteDuration>,
    pub dead: bool,
}

impl View for Entity {
    type V = EntityV;

    open spec fn view(&self) -> EntityV {
        EntityV {
            id: self.id,
            position: self.position,
            sprite: self.sprite,
            spawn: match self.spawn {
                Some(s) => Some(s.texture_identifier.spec_name()),
                None => None,
            },
            duration: self.duration,
            dead: self.dead,
        }
    }
}

/// The plain data of a world.
#[verifier::ext_equal]
pub struct WorldV {
    pub next_id: u64,
    pub entities: Seq<EntityV>,
    pub delta: u64,
}

impl View for World {
    type V = WorldV;

    open spec fn view(&self) -> WorldV {
        WorldV {
            next_id: self.next_id,
            entities: self.entities@.map_values(|e: Entity| e@),
            delta: self.delta.0,
        }
    }
}

impl Clone for Entity {
    fn clone(&self) -> (r: Self)
        ensures
            r == *self,
    {
        Entity {
            id: self.id,
            position: self.position,
            sprite: match &self.sprite {
                Some(s) => Some(s.clone()),
                None => None,
            },
            spawn: match &self.spawn {
                Some(s) => Some(s.clone()),
                None => None,
            },
            duration: self.duration,
            dead: self.dead,
        }
    }
}

/// The entity marked dead if its id is `id`, unchanged otherwise.
pub open spec fn spec_mark_dead(e: Entity, id: u64) -> Entity {
    if e.id == id {
        Entity { dead: true, ..e }
    } else {
        e
    }
}

/// An entity that is not marked for deletion.
pub open spec fn spec_alive(e: Entity) -> bool {
    !e.dead
}

/// How many entities carry a sprite.
pub open spec fn spec_sprite_count(entities: Seq<EntityV>) -> nat
    decreases entities.len(),
{
    if entities.len() == 0 {
        0
    } else {
        spec_sprite_count(entities.drop_last()) + if entities.last().sprite is Some {
            1nat
        } else {
            0nat
        }
    }
}

/// Filtering one element.
proof fn lemma_filter_one<A>(x: A, pred: spec_fn(A) -> bool)
    ensures
        seq![x].filter(pred) == if pred(x) {
            seq![x]
        } else {
            Seq::<A>::empty()
        },
{
    reveal(Seq::filter);
    assert(seq![x].drop_last() =~= Seq::<A>::empty());
    assert(Seq::<A>::empty().filter(pred) == Seq::<A>::empty());
    assert(seq![x].last() == x);
    if pred(x) {
        assert(seq![x].filter(pred) =~= seq![x]);
    } else {
        assert(seq![x].filter(pred) =~= Seq::<A>::empty());
    }
}

/// Filtering the living entities commutes with taking the entities'
/// plain data.
pub proof fn lemma_alive_filter_view(s: Seq<Entity>)
    ensures
        s.filter(|e: Entity| spec_alive(e)).map_values(|e: Entity| e@) == s.map_values(
            |e: Entity| e@,
        ).filter(|e: EntityV| !e.dead),
    decreases s.len(),
{
    reveal(Seq::filter);
    let pred = |e: Entity| spec_alive(e);
    let predv = |e: EntityV| !e.dead;
    let v = |e: Entity| e@;
    if s.len() == 0 {
        assert(s.filter(pred).map_values(v) =~= s.map_values(v).filter(predv));
    } else {
        lemma_alive_filter_view(s.drop_last());
        assert(s.map_values(v).drop_last() =~= s.drop_last().map_values(v));
        assert(s.map_values(v).last() == s.last()@);
        if pred(s.last()) {
            assert(s.filter(pred).map_values(v) =~= s.drop_last().filter(pred).map_values(v).push(
                s.last()@,
            ));
        }
        assert(s.filter(pred).map_values(v) =~= s.map_values(v).filter(predv));
    }
}

/// The world: the entities, the id the next one will get, and the
/// frame-time resource the systems share.
pub struct World {
    pub next_id: u64,
    pub entities: Vec<Entity>,
    pub delta: DeltaTime,
}

impl World {
    /// An empty world.
    pub fn new() -> (w: World)
        ensures
            w.next_id == 0,
            w.entities@ == Seq::<Entity>::empty(),
            w.delta.0 == 0,
    {
        World { next_id: 0, entities: Vec::new(), delta: DeltaTime(0) }
    }

    /// Creates a fresh entity and returns its id.
    pub fn create(&mut self) -> (id: u64)
        requires
            old(self).next_id < u64::MAX,
        ensures
            id == old(self).next_id,
            final(self).next_id == old(self).next_id + 1,
            final(self).entities@ == old(self).entities@.push(Entity::spec_blank(id)),
            final(self).delta == old(self).delta,
    {
        let id = self.next_id;
        self.next_id = self.next_id + 1;
        self.entities.push(
            Entity { id, position: None, sprite: None, spawn: None, duration: None, dead: false },
        );
        id
    }

    /// Marks the entity with the given id for deletion; it is removed by
    /// the next `maintain`.
    pub fn delete(&mut self, id: u64)
        ensures
            final(self).entities@ == old(self).entities@.map_values(
                |e: Entity| spec_mark_dead(e, id),
            ),
            final(self).next_id == old(self).next_id,
            final(self).delta == old(self).delta,
    {
        let ghost orig = self.entities@;
        let n = self.entities.len();
        let mut out: Vec<Entity> = Vec::new();
        for i in 0..n
            invariant
                n == orig.len(),
                self.entities@ == orig,
                out@.len() == i,
                forall|j: int| 0 <= j < i ==> out@[j] == spec_mark_dead(orig[j], id),
        {
            let e = &self.entities[i];
            let mut c = e.clone();
            if c.id == id {
                c.dead = true;
            }
            out.push(c);
        }
        self.entities = out;
        proof {
            assert(self.entities@ =~= orig.map_values(|e: Entity| spec_mark_dead(e, id)));
        }
    }

    /// Sweeps away every entity marked for deletion, keeping the rest in
    /// order.
    pub fn maintain(&mut self)
        ensures
            final(self).entities@ == old(self).entities@.filter(|e: Entity| spec_alive(e)),
            final(self)@.entities == old(self)@.entities.filter(|e: EntityV| !e.dead),
            final(self).next_id == old(self).next_id,
            final(self).delta == old(self).delta,
    {
        proof {
            lemma_alive_filter_view(self.entities@);
        }
        let ghost orig = self.entities@;
        let n = self.entities.len();
        let mut out: Vec<Entity> = Vec::new();
        for i in 0..n
            invariant
                n == orig.len(),
                self.entities@ == orig,
                out@ == orig.take(i as int).filter(|e: Entity| spec_alive(e)),
        {
            let e = &self.entities[i];
            proof {
                let pred = |e: Entity| spec_alive(e);
                assert(orig.take(i + 1) =~= orig.take(i as int) + seq![orig[i as int]]);
                Seq::filter_distributes_over_add(orig.take(i as int), seq![orig[i as int]], pred);
                lemma_filter_one(orig[i as int], pred);
            }
            if !e.dead {
                out.push(e.clone());
            }
            proof {
                let pred = |e: Entity| spec_alive(e);
                assert(out@ =~= orig.take(i + 1).filter(pred));
            }
        }
        self.entities = out;
        proof {
            assert(orig.take(n as int) =~= orig);
        }
    }

    /// How many entities carry a sprite.
    pub fn sprite_count(&self) -> (c: usize)
        ensures
            c == spec_sprite_count(self@.entities),
    {
        let n = self.entities.len();
        let mut c: usize = 0;
        for i in 0..n
            invariant
                n == self.entities@.len(),
                n == self@.entities.len(),
                c == spec_sprite_count(self@.entities.take(i as int)),
                c <= i,
        {
            proof {
                assert(self@.entities.take(i + 1).drop_last() =~= self@.entities.take(i as int));
                assert(self@.entities.take(i + 1).last() == self@.entities[i as int]);
                assert(self@.entities[i as int] == self.entities@[i as int]@);
            }
            if self.entities[i].sprite.is_some() {
                c = c + 1;
            }
        }
        proof {
            assert(self@.entities.take(n as int) =~= self@.entities);
        }
        c
    }
}

} // verus!
