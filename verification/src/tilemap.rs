//! The tile-map resource.
//!
//! A tile map is a grid of layers drawn from tile-set image atlases. The
//! map and its tile sets arrive as plain records (the embedding program
//! reads and decodes the map file); this module owns everything the
//! engine decides about them: where a tile set's files live relative to
//! the map file, how a parsed tile-set entry is resolved into a usable
//! one, and how a tile is looked up in a layer's grid.

use vstd::prelude::*;
use vstd::string::*;

use crate::texture::Texture;

verus! {

// ---------------------------------------------------------------------
// Path handling
//
// Tile-set files are named relative to the directory of the map file.
// Paths are plain strings with `/` as the separator.
// ---------------------------------------------------------------------

/// `b` placed under directory `a`; an empty `a` stands for the current
/// directory and adds no separator.
pub open spec fn spec_path_join(a: Seq<char>, b: Seq<char>) -> Seq<char> {
    if a.len() == 0 {
        b
    } else {
        a + seq!['/'] + b
    }
}

/// The directory part of a path: everything before the last `/`, or the
/// empty string when there is no separator.
pub open spec fn spec_path_parent(p: Seq<char>) -> Seq<char>
    decreases p.len(),
{
    if p.len() == 0 {
        Seq::empty()
    } else if p.last() == '/' {
        p.drop_last()
    } else {
        spec_path_parent(p.drop_last())
    }
}

proof fn lemma_path_parent_at(p: Seq<char>, k: int)
    requires
        0 <= k < p.len(),
        p[k] == '/',
        forall|j: int| k < j < p.len() ==> p[j] != '/',
    ensures
        spec_path_parent(p) == p.subrange(0, k),
    decreases p.len(),
{
    if k == p.len() - 1 {
        assert(p.drop_last() =~= p.subrange(0, k));
    } else {
        lemma_path_parent_at(p.drop_last(), k);
        assert(p.drop_last().subrange(0, k) =~= p.subrange(0, k));
    }
}

proof fn lemma_path_parent_none(p: Seq<char>)
    requires
        forall|j: int| 0 <= j < p.len() ==> p[j] != '/',
    ensures
        spec_path_parent(p) == Seq::<char>::empty(),
    decreases p.len(),
{
    if p.len() > 0 {
        lemma_path_parent_none(p.drop_last());
    }
}

/// Joins `b` onto directory `a`.
pub fn path_join(a: &str, b: &str) -> (r: String)
    ensures
        r@ == spec_path_join(a@, b@),
{
    if a.unicode_len() == 0 {
        b.to_owned()
    } else {
        let mut s = a.to_owned();
        s.append("/");
        s.append(b);
        proof {
            reveal_strlit("/");
            assert(s@ =~= spec_path_join(a@, b@));
        }
        s
    }
}

/// The directory part of a path.
pub fn path_parent(p: &str) -> (r: String)
    ensures
        r@ == spec_path_parent(p@),
{
    let n = p.unicode_len();
    let mut i: usize = n;
    while i > 0
        invariant
            i <= n,
            n == p@.len(),
            forall|j: int| i <= j < p@.len() ==> p@[j] != '/',
        decreases i,
    {
        if p.get_char(i - 1) == '/' {
            let sub = p.substring_char(0, i - 1);
            proof {
                lemma_path_parent_at(p@, i - 1);
            }
            return sub.to_owned();
        }
        i = i - 1;
    }
    proof {
        lemma_path_parent_none(p@);
    }
    String::new()
}

// ---------------------------------------------------------------------
// Layers
// ---------------------------------------------------------------------

/// A terrain type of a tile set.
pub struct Terrain {}

/// An object placed on an object layer. The engine stores objects but
/// does not read them yet.
pub struct MapObject {}

/// The contents of a layer: a grid of tile ids for a tile layer, or the
/// placed objects for an object layer.
pub enum LayerData {
    TileData(Vec<i32>),
    ObjectData(Vec<MapObject>),
}

/// One layer of a tile map.
///
/// `opacity_bits` carries the layer's opacity as the raw bit pattern of
/// the 64-bit float the map file holds; the engine never computes on it.
pub struct Layer {
    pub height: i32,
    pub width: i32,
    pub name: String,
    pub layertype: String,
    pub visible: bool,
    pub x: i32,
    pub y: i32,
    pub data: LayerData,
    pub opacity_bits: u64,
}

impl Layer {
    /// A layer whose declared type is `tilelayer`.
    pub open spec fn spec_is_tile_layer(&self) -> bool {
        self.layertype@ == "tilelayer"@
    }

    /// A tile layer whose grid has exactly `width * height` entries, as
    /// the map format fixes for fixed-size maps.
    pub open spec fn tile_grid_wf(&self) -> bool {
        &&& self.data is TileData
        &&& self.width >= 0
        &&& self.height >= 0
        &&& self.data->TileData_0@.len() == self.width * self.height
    }

    /// Whether this layer is a tile layer.
    pub fn is_tile_layer(&self) -> (r: bool)
        ensures
            r == self.spec_is_tile_layer(),
    {
        let t: String = "tilelayer".to_owned();
        self.layertype == t
    }

    /// The tile id at column `x`, row `y` of a tile layer's grid, stored
    /// row by row.
    pub fn get_tile(&self, x: i32, y: i32) -> (t: i32)
        requires
            self.spec_is_tile_layer(),
            self.tile_grid_wf(),
            0 <= x < self.width,
            0 <= y < self.height,
        ensures
            t == self.data->TileData_0@[y * self.width + x],
    {
        match &self.data {
            LayerData::TileData(data) => {
                let dlen = data.len();
                proof {
                    assert((y as int) * (self.width as int) + (x as int) < (self.height as int) * (
                    self.width as int)) by (nonlinear_arith)
                        requires
                            0 <= x < self.width,
                            0 <= y < self.height,
                    ;
                }
                let idx = (y as usize) * (self.width as usize) + (x as usize);
                data[idx]
            },
            LayerData::ObjectData(_) => {
                proof {
                    assert(false);
                }
                0
            },
        }
    }
}

// ---------------------------------------------------------------------
// Tile sets
// ---------------------------------------------------------------------

/// A tile set: an image atlas and its grid metadata.
///
/// A map file holds a tile set either inline, or as a reference by file
/// name (`source`). In both cases `_firstgid` and `_name` keep what the
/// file said, while `firstgid`, `name` and `root` are filled in when the
/// entry is resolved; see [`Tilemap::resolve_tilesets`].
pub struct Tileset {
    pub root: String,
    pub source: Option<String>,
    pub firstgid: i32,
    pub _firstgid: Option<i32>,
    pub image: Option<String>,
    pub name: String,
    pub _name: Option<String>,
    pub tilewidth: Option<i32>,
    pub tileheight: Option<i32>,
    pub imagewidth: Option<i32>,
    pub imageheight: Option<i32>,
    pub margin: Option<i32>,
    pub spacing: Option<i32>,
    pub columns: Option<i32>,
    pub tilecount: Option<i32>,
    pub _texture: Option<Texture>,
}

/// The plain data of a tile set, with strings as character sequences.
#[verifier::ext_equal]
pub struct TilesetV {
    pub root: Seq<char>,
    pub source: Option<Seq<char>>,
    pub firstgid: i32,
    pub _firstgid: Option<i32>,
    pub image: Option<Seq<char>>,
    pub name: Seq<char>,
    pub _name: Option<Seq<char>>,
    pub tilewidth: Option<i32>,
    pub tileheight: Option<i32>,
    pub imagewidth: Option<i32>,
    pub imageheight: Option<i32>,
    pub margin: Option<i32>,
    pub spacing: Option<i32>,
    pub columns: Option<i32>,
    pub tilecount: Option<i32>,
    pub texture: Option<Texture>,
}

/// The view of an optional string.
pub open spec fn opt_view(o: Option<String>) -> Option<Seq<char>> {
    match o {
        Some(s) => Some(s@),
        None => None,
    }
}

impl View for Tileset {
    type V = TilesetV;

    open spec fn view(&self) -> TilesetV {
        TilesetV {
            root: self.root@,
            source: opt_view(self.source),
            firstgid: self.firstgid,
            _firstgid: self._firstgid,
            image: opt_view(self.image),
            name: self.name@,
            _name: opt_view(self._name),
            tilewidth: self.tilewidth,
            tileheight: self.tileheight,
            imagewidth: self.imagewidth,
            imageheight: self.imageheight,
            margin: self.margin,
            spacing: self.spacing,
            columns: self.columns,
            tilecount: self.tilecount,
            texture: self._texture,
        }
    }
}

/// An inline tile-set entry resolved in place: its first gid and name
/// are taken from what the file said, and it lives in the map's
/// directory.
pub open spec fn spec_resolve_embedded(entry: TilesetV, map_dir: Seq<char>) -> TilesetV {
    TilesetV { firstgid: entry._firstgid->Some_0, name: entry._name->Some_0, root: map_dir, ..entry }
}

/// A referenced tile-set entry resolved against the tile set loaded from
/// its own file: the loaded data wins, the first gid is taken from the
/// referencing entry, and the tile set lives in its file's directory.
pub open spec fn spec_resolve_external(
    entry: TilesetV,
    loaded: TilesetV,
    set_dir: Seq<char>,
) -> TilesetV {
    TilesetV { firstgid: entry.firstgid, name: loaded._name->Some_0, root: set_dir, ..loaded }
}

fn clone_opt_string(o: &Option<String>) -> (r: Option<String>)
    ensures
        opt_view(r) == opt_view(*o),
{
    match o {
        Some(s) => Some(s.clone()),
        None => None,
    }
}

fn clone_opt_texture(o: &Option<Texture>) -> (r: Option<Texture>)
    ensures
        r == *o,
{
    match o {
        Some(t) => Some(t.clone()),
        None => None,
    }
}

impl Tileset {
    /// The texture loaded for this tile set, if any.
    pub open spec fn loaded_texture(&self) -> Option<Texture> {
        self._texture
    }

    /// The path of the tile set's image, under the tile set's directory.
    /// The entry must name an image.
    pub fn image_path(&self) -> (p: String)
        requires
            self@.image is Some,
        ensures
            p@ == spec_path_join(self.root@, self@.image->Some_0),
    {
        match &self.image {
            Some(img) => path_join(self.root.as_str(), img.as_str()),
            None => {
                proof {
                    assert(false);
                }
                String::new()
            },
        }
    }

    /// Records the texture the embedding program created from the tile
    /// set's image.
    pub fn set_texture(&mut self, t: Texture)
        ensures
            final(self)@ == (TilesetV { texture: Some(t), ..old(self)@ }),
    {
        self._texture = Some(t);
    }

    /// The loaded texture, or an error while none has been set.
    pub fn get_texture(&self) -> (r: Result<&Texture, String>)
        ensures
            match self.loaded_texture() {
                Some(t) => r is Ok && *r->Ok_0 == t,
                None => r is Err && r->Err_0@ == "Texture needs to be loaded first!"@,
            },
    {
        match &self._texture {
            Some(t) => Ok(t),
            None => Err("Texture needs to be loaded first!".to_owned()),
        }
    }

    fn resolve_embedded(&self, map_dir: String) -> (r: Tileset)
        requires
            self@._firstgid is Some,
            self@._name is Some,
        ensures
            r@ == spec_resolve_embedded(self@, map_dir@),
    {
        let firstgid = match self._firstgid {
            Some(g) => g,
            None => {
                proof {
                    assert(false);
                }
                0
            },
        };
        let name = match &self._name {
            Some(n) => n.clone(),
            None => {
                proof {
                    assert(false);
                }
                String::new()
            },
        };
        let r = Tileset {
            root: map_dir,
            source: clone_opt_string(&self.source),
            firstgid,
            _firstgid: self._firstgid,
            image: clone_opt_string(&self.image),
            name,
            _name: clone_opt_string(&self._name),
            tilewidth: self.tilewidth,
            tileheight: self.tileheight,
            imagewidth: self.imagewidth,
            imageheight: self.imageheight,
            margin: self.margin,
            spacing: self.spacing,
            columns: self.columns,
            tilecount: self.tilecount,
            _texture: clone_opt_texture(&self._texture),
        };
        proof {
            assert(r@ =~= spec_resolve_embedded(self@, map_dir@));
        }
        r
    }

    fn resolve_external(&self, loaded: &Tileset, set_dir: String) -> (r: Tileset)
        requires
            loaded@._name is Some,
        ensures
            r@ == spec_resolve_external(self@, loaded@, set_dir@),
    {
        let name = match &loaded._name {
            Some(n) => n.clone(),
            None => {
                proof {
                    assert(false);
                }
                String::new()
            },
        };
        let r = Tileset {
            root: set_dir,
            source: clone_opt_string(&loaded.source),
            firstgid: self.firstgid,
            _firstgid: loaded._firstgid,
            image: clone_opt_string(&loaded.image),
            name,
            _name: clone_opt_string(&loaded._name),
            tilewidth: loaded.tilewidth,
            tileheight: loaded.tileheight,
            imagewidth: loaded.imagewidth,
            imageheight: loaded.imageheight,
            margin: loaded.margin,
            spacing: loaded.spacing,
            columns: loaded.columns,
            tilecount: loaded.tilecount,
            _texture: clone_opt_texture(&loaded._texture),
        };
        proof {
            assert(r@ =~= spec_resolve_external(self@, loaded@, set_dir@));
        }
        r
    }
}

// ---------------------------------------------------------------------
// The map
// ---------------------------------------------------------------------

/// A tile map: grid metadata, layers and tile sets.
///
/// `version_bits` carries the map format's version number as the raw bit
/// pattern of the 64-bit float the file holds.
pub struct Tilemap {
    pub filename: String,
    pub version_bits: u64,
    pub tiledversion: Option<String>,
    pub width: i32,
    pub height: i32,
    pub tilewidth: i32,
    pub tileheight: i32,
    pub orientation: String,
    pub layers: Vec<Layer>,
    pub tilesets: Vec<Tileset>,
    pub nextobjectid: i32,
}

impl Tilemap {
    /// The id the next placed object would get.
    pub open spec fn next_object_id(&self) -> i32 {
        self.nextobjectid
    }

    /// An empty map.
    pub fn new() -> (m: Tilemap)
        ensures
            m.filename@ == Seq::<char>::empty(),
            m.version_bits == 0,
            m.tiledversion is None,
            m.width == 0,
            m.height == 0,
            m.tilewidth == 0,
            m.tileheight == 0,
            m.orientation@ == Seq::<char>::empty(),
            m.layers@ == Seq::<Layer>::empty(),
            m.tilesets@ == Seq::<Tileset>::empty(),
            m.next_object_id() == 0,
    {
        Tilemap {
            filename: String::new(),
            version_bits: 0,
            tiledversion: None,
            width: 0,
            height: 0,
            tilewidth: 0,
            tileheight: 0,
            orientation: String::new(),
            layers: Vec::new(),
            tilesets: Vec::new(),
            nextobjectid: 0,
        }
    }

    /// The directory the map file lives in; tile-set files are named
    /// relative to it.
    pub open spec fn spec_map_dir(&self) -> Seq<char> {
        spec_path_parent(self.filename@)
    }

    /// For each tile-set entry, the path of the file it references, or
    /// nothing for an inline entry. The embedding program reads these
    /// files and hands their contents to [`Tilemap::resolve_tilesets`].
    pub fn external_tileset_paths(&self) -> (r: Vec<Option<String>>)
        ensures
            r@.len() == self.tilesets@.len(),
            forall|i: int|
                0 <= i < r@.len() ==> opt_view(#[trigger] r@[i]) == match self.tilesets@[i]@.source {
                    Some(s) => Some(spec_path_join(self.spec_map_dir(), s)),
                    None => None::<Seq<char>>,
                },
    {
        let root = path_parent(self.filename.as_str());
        let mut r: Vec<Option<String>> = Vec::new();
        let n = self.tilesets.len();
        for i in 0..n
            invariant
                n == self.tilesets@.len(),
                root@ == self.spec_map_dir(),
                r@.len() == i,
                forall|j: int|
                    0 <= j < i ==> opt_view(#[trigger] r@[j]) == match self.tilesets@[j]@.source {
                        Some(s) => Some(spec_path_join(self.spec_map_dir(), s)),
                        None => None::<Seq<char>>,
                    },
        {
            let p = match &self.tilesets[i].source {
                Some(s) => Some(path_join(root.as_str(), s.as_str())),
                None => None,
            };
            r.push(p);
        }
        r
    }

    /// How tile-set entry `i` must resolve, given what was loaded for it.
    pub open spec fn spec_resolved_tileset(&self, loaded: Seq<Option<Tileset>>, i: int) -> TilesetV {
        let entry = self.tilesets@[i]@;
        match entry.source {
            Some(s) => {
                let set_path = spec_path_join(self.spec_map_dir(), s);
                spec_resolve_external(entry, loaded[i]->Some_0@, spec_path_parent(set_path))
            },
            None => spec_resolve_embedded(entry, self.spec_map_dir()),
        }
    }

    /// Inputs under which every tile-set entry can resolve: a loaded tile
    /// set exactly for each referencing entry, a name wherever one is
    /// needed, and a first gid on every inline entry.
    pub open spec fn tilesets_resolvable(&self, loaded: Seq<Option<Tileset>>) -> bool {
        &&& loaded.len() == self.tilesets@.len()
        &&& forall|i: int|
            0 <= i < loaded.len() ==> match (#[trigger] self.tilesets@[i])@.source {
                Some(_) => loaded[i] is Some && loaded[i]->Some_0@._name is Some,
                None => loaded[i] is None && self.tilesets@[i]@._firstgid is Some
                    && self.tilesets@[i]@._name is Some,
            }
    }

    /// Resolves every tile-set entry of the map: a referencing entry is
    /// replaced by the tile set loaded from its file (keeping the entry's
    /// first gid), an inline entry is resolved in place, and each tile
    /// set records the directory its image lives under.
    pub fn resolve_tilesets(&mut self, loaded: &Vec<Option<Tileset>>)
        requires
            old(self).tilesets_resolvable(loaded@),
        ensures
            final(self).tilesets@.len() == old(self).tilesets@.len(),
            forall|i: int|
                0 <= i < final(self).tilesets@.len() ==> (#[trigger] final(self).tilesets@[i])@
                    == old(self).spec_resolved_tileset(loaded@, i),
            final(self).filename == old(self).filename,
            final(self).version_bits == old(self).version_bits,
            final(self).tiledversion == old(self).tiledversion,
            final(self).width == old(self).width,
            final(self).height == old(self).height,
            final(self).tilewidth == old(self).tilewidth,
            final(self).tileheight == old(self).tileheight,
            final(self).orientation == old(self).orientation,
            final(self).layers == old(self).layers,
            final(self).next_object_id() == old(self).next_object_id(),
    {
        let root = path_parent(self.filename.as_str());
        let n = self.tilesets.len();
        let mut resolved: Vec<Tileset> = Vec::new();
        for i in 0..n
            invariant
                n == self.tilesets@.len(),
                *self == *old(self),
                root@ == self.spec_map_dir(),
                self.tilesets_resolvable(loaded@),
                resolved@.len() == i,
                forall|j: int|
                    0 <= j < i ==> (#[trigger] resolved@[j])@ == self.spec_resolved_tileset(
                        loaded@,
                        j,
                    ),
        {
            let ts = &self.tilesets[i];
            let r = match &ts.source {
                Some(s) => {
                    let set_path = path_join(root.as_str(), s.as_str());
                    let set_dir = path_parent(set_path.as_str());
                    match &loaded[i] {
                        Some(l) => ts.resolve_external(l, set_dir),
                        None => {
                            proof {
                                assert(false);
                            }
                            ts.resolve_external(ts, set_dir)
                        },
                    }
                },
                None => ts.resolve_embedded(root.clone()),
            };
            resolved.push(r);
        }
        self.tilesets = resolved;
    }
}

} // verus!
