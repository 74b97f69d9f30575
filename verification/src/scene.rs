//! A first cut of a scene graph.

use vstd::prelude::*;

use crate::tilemap;

verus! {

/// A node of the scene graph.
pub enum Component {
    Group(Vec<Component>),
    Tilemap(tilemap::Tilemap),
}

/// A scene: the components hanging off its root.
pub struct Scene {
    pub root: Vec<Component>,
}

impl Scene {
    /// Hangs one more component off the scene's root.
    pub fn add_component(&mut self, comp: Component)
        ensures
            final(self).root@ == old(self).root@.push(comp),
    {
        self.root.push(comp);
    }
}

} // verus!
