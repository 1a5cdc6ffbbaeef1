//! From a decoded image to a mesh, and the errors of loading one.

use crate::image::conversion_of;
use crate::image::converted_bytes;
use crate::image::converted_size;
use crate::image::texel_of;
use crate::image::Conversion;
use crate::image::ImageBufferHeightMap;
use crate::mesh_builder::lemma_grid_vertex;
use crate::mesh_builder::GridError;
use crate::mesh_builder::GridSpec;
use crate::mesh_builder::Height;
use crate::mesh_builder::MeshBuilder;
use crate::HeightMap;
use vstd::prelude::*;

verus! {

/// `std::io::Error`, carried through unopened.
#[verifier::external_type_specification]
#[verifier::external_body]
pub struct ExIoError(std::io::Error);

/// `bevy_image::TextureError`, carried through unopened.
#[verifier::external_type_specification]
#[verifier::external_body]
pub struct ExTextureError(bevy_image::TextureError);

/// `bevy_image::IntoDynamicImageError`, carried through unopened.
#[verifier::external_type_specification]
#[verifier::external_body]
pub struct ExIntoDynamicImageError(bevy_image::IntoDynamicImageError);

/// An error that occurs when reading a texture from a file.
#[derive(Debug)]
pub struct HeightMapFileError {
    pub error: bevy_image::TextureError,
    pub path: String,
}

/// The words of a file error: the path of the file, then the texture error
/// in words.
pub open spec fn file_error_text(path: Seq<char>, error: Seq<char>) -> Seq<char> {
    "Error reading image file "@ + path + ": "@ + error
        + ", this is an error in `bevy_render`."@
}

/// `TextureError`'s `Display`: the error in words.
#[verifier::external_body]
fn texture_error_words(error: &bevy_image::TextureError) -> (words: String) {
    error.to_string()
}

impl HeightMapFileError {
    /// The message of a file error whose texture error reads `error`.
    pub fn message_of(path: &str, error: &str) -> (text: String)
        ensures
            text@ == file_error_text(path@, error@),
    {
        let mut text = String::from_str("Error reading image file ");
        text.append(path);
        text.append(": ");
        text.append(error);
        text.append(", this is an error in `bevy_render`.");
        text
    }

    /// The message of the error: the path of the file and the texture error
    /// in words.
    pub fn message(&self) -> (text: String)
        ensures
            exists|error: Seq<char>| text@ == #[trigger] file_error_text(self.path@, error),
    {
        let words = texture_error_words(&self.error);
        Self::message_of(self.path.as_str(), words.as_str())
    }
}

/// Why a height map could not be loaded as a mesh.
#[derive(Debug)]
pub enum HeightMapLoaderError {
    /// The bytes could not be read.
    Io(std::io::Error),
    /// The bytes are no texture.
    FileTexture(HeightMapFileError),
    /// The texture has no form as a dynamic image.
    IntoDynamicImageError(bevy_image::IntoDynamicImageError),
    /// The image is not one of 8-bit RGBA pixels.
    UnsupportedImageType,
    /// No grid can be laid over the image.
    Grid(GridError),
}

/// The error of a file that could not be decoded as a texture: it keeps the
/// decoder's error and the path of the file.
pub fn decode_failure(error: bevy_image::TextureError, path: String) -> (e: HeightMapLoaderError)
    ensures
        e == HeightMapLoaderError::FileTexture((HeightMapFileError { error, path })),
{
    HeightMapLoaderError::FileTexture(HeightMapFileError { error, path })
}

/// The mesh of a decoded image: the grid with one vertex for each texel of
/// the RGBA buffer that the conversion of the image gives, each vertex at
/// the level of the red channel of the texel under it.
///
/// An image that has no form as a dynamic image fails with the reason, one
/// of another kind is unsupported, and one over which no grid can be built
/// fails with the grid's error.
pub fn load_mesh(image: bevy_image::Image) -> (loaded: Result<MeshBuilder, HeightMapLoaderError>)
    ensures
        loaded is Ok <==> conversion_of(image) == Conversion::Rgba8 && converted_size(image).error()
            is None,
        loaded matches Ok(mesh) ==> {
            &&& mesh.wf()
            &&& mesh.is_grid(converted_size(image))
            &&& forall|i: int|
                0 <= i < mesh.positions@.len() ==> (#[trigger] mesh.positions@[i]).z
                    == Height::Level(
                    converted_bytes(image)[4 * texel_of(
                        converted_size(image),
                        mesh.positions@[i].x,
                        mesh.positions@[i].y,
                    )],
                )
        },
        loaded matches Err(e) ==> match conversion_of(image) {
            Conversion::Rgba8 => e matches HeightMapLoaderError::Grid(refusal) && converted_size(
                image,
            ).error() == Some(refusal),
            Conversion::Other => e is UnsupportedImageType,
            Conversion::Failed => e is IntoDynamicImageError,
        },
{
    match ImageBufferHeightMap::try_from_image(image) {
        Ok(map) => {
            let size = map.dimensions();
            proof {
                if size.error() is None {
                    assert forall|i: int| 0 <= i < size.width * size.height implies map.accepts(
                        (#[trigger] size.vertex(i)).x,
                        size.vertex(i).y,
                    ) by {
                        lemma_grid_vertex(size, i);
                    }
                }
            }
            match map.build_mesh(size) {
                Ok(mesh) => Ok(mesh),
                Err(e) => Err(HeightMapLoaderError::Grid(e)),
            }
        },
        Err(e) => Err(e),
    }
}

/// The mesh to show whether or not loading went well: the loaded mesh, or,
/// where loading failed, a flat plane of a single quad over the square.
pub fn mesh_or_flat(loaded: Result<MeshBuilder, HeightMapLoaderError>) -> (mesh: MeshBuilder)
    ensures
        loaded matches Ok(loaded_mesh) ==> mesh == loaded_mesh,
        loaded is Err ==> {
            &&& mesh.is_grid(GridSpec { width: 2, height: 2 })
            &&& mesh.is_flat()
            &&& mesh.wf()
        },
{
    match loaded {
        Ok(mesh) => mesh,
        Err(_) => {
            MeshBuilder::grid(GridSpec { width: 2, height: 2 }).unwrap()
        },
    }
}

} // verus!
