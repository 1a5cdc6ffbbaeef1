//! Height-map terrain meshes and the bookkeeping of a compute-shader readback.
//!
//! A height map is anything that gives a height for each point of the square
//! `[-1/2, 1/2]²`. [`mesh_builder`] lays a triangulated grid over that square
//! and asks the map for the height of each vertex. [`image`] reads heights
//! out of pixel buffers. [`compute_shader`] and [`gpu_readback`] hold the
//! decisions of a compute pass whose output is read back from the GPU.

pub mod asset_loader;
pub mod compute_shader;
pub mod gpu_readback;
pub mod image;
pub mod mesh_builder;

use mesh_builder::GridError;
use mesh_builder::GridSpec;
use mesh_builder::Height;
use mesh_builder::MeshBuilder;
use mesh_builder::Ratio;
use vstd::prelude::*;

verus! {

/// A height map: a height for each point `(x - 1/2, y - 1/2)` of the square,
/// where `x` and `y` are fractions of the unit interval.
pub trait HeightMap: Sized {
    /// The points at which this map may be asked.
    spec fn accepts(&self, x: Ratio, y: Ratio) -> bool;

    /// Whether `z` is a height that this map may give at the point.
    spec fn yields(&self, x: Ratio, y: Ratio, z: Height) -> bool;

    /// The height at a point.
    fn h(&self, x: Ratio, y: Ratio) -> (z: Height)
        requires
            self.accepts(x, y),
        ensures
            self.yields(x, y, z),
    ;

    /// The grid of `size` with shared vertices, each vertex at the height
    /// that this map gives there.
    fn build_mesh(&self, size: GridSpec) -> (built: Result<MeshBuilder, GridError>)
        requires
            size.error() is None ==> forall|i: int|
                0 <= i < size.width * size.height ==> self.accepts(
                    (#[trigger] size.vertex(i)).x,
                    size.vertex(i).y,
                ),
        ensures
            built is Ok <==> size.error() is None,
            built matches Err(e) ==> size.error() == Some(e),
            built matches Ok(mesh) ==> {
                &&& mesh.is_grid(size)
                &&& mesh.wf()
                &&& forall|i: int|
                    0 <= i < mesh.positions@.len() ==> self.yields(
                        (#[trigger] mesh.positions@[i]).x,
                        mesh.positions@[i].y,
                        mesh.positions@[i].z,
                    )
            },
    {
        match MeshBuilder::grid(size) {
            Ok(mut builder) => {
                let height = |x: Ratio, y: Ratio| -> (z: Height)
                    requires
                        self.accepts(x, y),
                    ensures
                        self.yields(x, y, z),
                    { self.h(x, y) };
                builder.set_heights(&height);
                Ok(builder)
            },
            Err(e) => Err(e),
        }
    }
}

/// A height map given by a function of the point.
pub struct ValueFunctionHeightMap<H: Fn(Ratio, Ratio) -> Height>(pub H);

impl<H: Fn(Ratio, Ratio) -> Height> HeightMap for ValueFunctionHeightMap<H> {
    open spec fn accepts(&self, x: Ratio, y: Ratio) -> bool {
        self.0.requires((x, y))
    }

    open spec fn yields(&self, x: Ratio, y: Ratio, z: Height) -> bool {
        self.0.ensures((x, y), z)
    }

    fn h(&self, x: Ratio, y: Ratio) -> (z: Height) {
        (self.0)(x, y)
    }
}

/// A height map given by a function accepts the points that the function
/// can be called on and yields what the function may return there.
pub proof fn lemma_value_function<H: Fn(Ratio, Ratio) -> Height>(
    map: ValueFunctionHeightMap<H>,
    x: Ratio,
    y: Ratio,
    z: Height,
)
    ensures
        map.accepts(x, y) == map.0.requires((x, y)),
        map.yields(x, y, z) == map.0.ensures((x, y), z),
{
}

} // verus!
