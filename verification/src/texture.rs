//! Textures and the builder that prepares them.
//!
//! A texture here is the engine's record of a GPU texture: its pixel
//! dimensions and the opaque handles of the shader-resource view, the
//! vertex buffer and the slice that the embedding program created for it.
//! The builder collects the caller's choices and `build_plan` fixes, with
//! an exact contract, everything the engine decides about the texture:
//! where its pixels come from, which dimensions apply, whether a caller
//! mesh or the default quad is used, and whether the v texture
//! coordinate is flipped. Carrying the plan out (decoding an image file,
//! uploading buffers) is GPU work and happens outside; `Texture::assemble`
//! then puts the finished record together.

use vstd::prelude::*;

verus! {

/// A loaded texture: dimensions in pixels and the opaque handles of the
/// GPU objects that stand behind it.
#[derive(PartialEq, Eq, Debug)]
pub struct Texture {
    pub dimensions: (u32, u32),
    pub view: u64,
    pub vbuf: u64,
    pub slice: u64,
}

impl Clone for Texture {
    fn clone(&self) -> (r: Self)
        ensures
            r == *self,
    {
        Texture {
            dimensions: self.dimensions,
            view: self.view,
            vbuf: self.vbuf,
            slice: self.slice,
        }
    }
}

impl Texture {
    /// Puts a texture record together from the handles the embedding
    /// program obtained when it carried a build plan out.
    pub fn assemble(dimensions: (u32, u32), view: u64, vbuf: u64, slice: u64) -> (t: Texture)
        ensures
            t.dimensions == dimensions,
            t.view == view,
            t.vbuf == vbuf,
            t.slice == slice,
    {
        Texture { dimensions, view, vbuf, slice }
    }

    /// The handle of the texture's shader-resource view.
    pub fn clone_view(&self) -> (v: u64)
        ensures
            v == self.view,
    {
        self.view
    }
}

/// Where a texture's pixels come from.
#[derive(PartialEq, Eq, Debug)]
pub enum TextureSource {
    /// An already-created shader-resource view.
    View(u64),
    /// An image file, to be decoded and uploaded.
    File(String),
}

/// What vertex data backs the texture's quad.
#[derive(PartialEq, Eq, Debug)]
pub enum MeshChoice {
    /// A caller-supplied vertex buffer handle with its index list.
    Supplied(u64, Vec<u32>),
    /// The default quad, centred on the origin and sized from the
    /// texture's dimensions.
    DefaultQuad,
}

/// Everything `Builder::build_plan` decides about a texture.
pub struct BuildPlan {
    pub source: TextureSource,
    pub dimensions: (u32, u32),
    pub mesh: MeshChoice,
    pub flip_y: bool,
}

/// Builds textures.
pub struct Builder {
    dimensions: Option<(u32, u32)>,
    indices: Option<Vec<u32>>,
    vertex_data: Option<u64>,
    view: Option<u64>,
    filename: Option<String>,
    flip_y: bool,
}

impl Builder {
    pub closed spec fn spec_dimensions(&self) -> Option<(u32, u32)> {
        self.dimensions
    }

    pub closed spec fn spec_indices(&self) -> Option<Seq<u32>> {
        match self.indices {
            Some(ref v) => Some(v@),
            None => None,
        }
    }

    pub closed spec fn spec_vertex_data(&self) -> Option<u64> {
        self.vertex_data
    }

    pub closed spec fn spec_view(&self) -> Option<u64> {
        self.view
    }

    pub closed spec fn spec_filename(&self) -> Option<Seq<char>> {
        match self.filename {
            Some(ref f) => Some(f@),
            None => None,
        }
    }

    pub closed spec fn spec_flip_y(&self) -> bool {
        self.flip_y
    }

    pub fn new() -> (b: Builder)
        ensures
            b.spec_dimensions() is None,
            b.spec_indices() is None,
            b.spec_vertex_data() is None,
            b.spec_view() is None,
            b.spec_filename() is None,
            !b.spec_flip_y(),
    {
        Builder {
            dimensions: None,
            indices: None,
            vertex_data: None,
            view: None,
            filename: None,
            flip_y: false,
        }
    }

    /// Requests that the v texture coordinate be flipped.
    pub fn with_flipped_y(self) -> (b: Builder)
        ensures
            b.spec_flip_y(),
            b.spec_dimensions() == self.spec_dimensions(),
            b.spec_indices() == self.spec_indices(),
            b.spec_vertex_data() == self.spec_vertex_data(),
            b.spec_view() == self.spec_view(),
            b.spec_filename() == self.spec_filename(),
    {
        Builder { flip_y: true, ..self }
    }

    /// Takes the texture's pixels from an image file.
    pub fn from_file(self, filename: String) -> (b: Builder)
        ensures
            b.spec_filename() == Some(filename@),
            b.spec_dimensions() == self.spec_dimensions(),
            b.spec_indices() == self.spec_indices(),
            b.spec_vertex_data() == self.spec_vertex_data(),
            b.spec_view() == self.spec_view(),
            b.spec_flip_y() == self.spec_flip_y(),
    {
        Builder { filename: Some(filename), ..self }
    }

    /// Fixes the texture's dimensions in pixels.
    pub fn with_dimensions(self, width: u32, height: u32) -> (b: Builder)
        ensures
            b.spec_dimensions() == Some((width, height)),
            b.spec_indices() == self.spec_indices(),
            b.spec_vertex_data() == self.spec_vertex_data(),
            b.spec_view() == self.spec_view(),
            b.spec_filename() == self.spec_filename(),
            b.spec_flip_y() == self.spec_flip_y(),
    {
        Builder { dimensions: Some((width, height)), ..self }
    }

    /// Takes the texture's pixels from an existing shader-resource view.
    pub fn with_view(self, view: u64) -> (b: Builder)
        ensures
            b.spec_view() == Some(view),
            b.spec_dimensions() == self.spec_dimensions(),
            b.spec_indices() == self.spec_indices(),
            b.spec_vertex_data() == self.spec_vertex_data(),
            b.spec_filename() == self.spec_filename(),
            b.spec_flip_y() == self.spec_flip_y(),
    {
        Builder { view: Some(view), ..self }
    }

    /// Supplies the quad's vertex data (by handle) and its index list.
    pub fn with_vertex_data_and_indices(self, vertex_data: u64, indices: Vec<u32>) -> (b: Builder)
        ensures
            b.spec_vertex_data() == Some(vertex_data),
            b.spec_indices() == Some(indices@),
            b.spec_dimensions() == self.spec_dimensions(),
            b.spec_view() == self.spec_view(),
            b.spec_filename() == self.spec_filename(),
            b.spec_flip_y() == self.spec_flip_y(),
    {
        Builder { vertex_data: Some(vertex_data), indices: Some(indices), ..self }
    }

    /// Decides the texture's build: the pixel source (a view wins over a
    /// file), the dimensions (defaulting to (0, 0) until an image file
    /// supplies them), the mesh (the caller's, or the default quad), and
    /// the flip. A pixel source must have been chosen, and caller vertex
    /// data must come with its index list.
    pub fn build_plan(self) -> (p: BuildPlan)
        requires
            self.spec_view() is Some || self.spec_filename() is Some,
            self.spec_vertex_data() is Some ==> self.spec_indices() is Some,
        ensures
            p.dimensions == match self.spec_dimensions() {
                Some(d) => d,
                None => (0u32, 0u32),
            },
            match self.spec_view() {
                Some(v) => p.source == TextureSource::View(v),
                None => p.source is File && p.source->File_0@ == self.spec_filename()->Some_0,
            },
            match self.spec_vertex_data() {
                Some(vd) => p.mesh is Supplied && p.mesh->Supplied_0 == vd
                    && p.mesh->Supplied_1@ == self.spec_indices()->Some_0,
                None => p.mesh == MeshChoice::DefaultQuad,
            },
            p.flip_y == self.spec_flip_y(),
    {
        let dimensions = match self.dimensions {
            Some(d) => d,
            None => (0u32, 0u32),
        };

        let source = match self.view {
            Some(v) => TextureSource::View(v),
            None => {
                match self.filename {
                    Some(filename) => TextureSource::File(filename),
                    None => {
                        proof {
                            assert(false);
                        }
                        TextureSource::View(0)
                    },
                }
            },
        };

        let mesh = match self.vertex_data {
            Some(vd) => {
                match self.indices {
                    Some(indices) => MeshChoice::Supplied(vd, indices),
                    None => {
                        proof {
                            assert(false);
                        }
                        MeshChoice::DefaultQuad
                    },
                }
            },
            None => MeshChoice::DefaultQuad,
        };

        BuildPlan { source, dimensions, mesh, flip_y: self.flip_y }
    }
}

/// The index list of the default quad: two triangles over its four
/// corners.
pub fn default_quad_indices() -> (r: Vec<u32>)
    ensures
        r@ == seq![0u32, 1u32, 2u32, 2u32, 3u32, 0u32],
{
    let r: Vec<u32> = vec![0u32, 1u32, 2u32, 2u32, 3u32, 0u32];
    assert(r@ =~= seq![0u32, 1u32, 2u32, 2u32, 3u32, 0u32]);
    r
}

/// The dimensions a finished texture records: those the image file
/// supplied when the pixels come from a file, the planned ones otherwise.
pub fn final_dimensions(plan: &BuildPlan, image_dimensions: Option<(u32, u32)>) -> (d: (u32, u32))
    requires
        plan.source is File ==> image_dimensions is Some,
    ensures
        d == match plan.source {
            TextureSource::File(_) => image_dimensions->Some_0,
            TextureSource::View(_) => plan.dimensions,
        },
{
    match plan.source {
        TextureSource::File(_) => {
            match image_dimensions {
                Some(d) => d,
                None => {
                    proof {
                        assert(false);
                    }
                    (0u32, 0u32)
                },
            }
        },
        TextureSource::View(_) => plan.dimensions,
    }
}

} // verus!
