use bevy_asset::RenderAssetUsages;
use bevy_heightmap::asset_loader::decode_failure;
use bevy_heightmap::asset_loader::load_mesh;
use bevy_heightmap::asset_loader::HeightMapFileError;
use bevy_heightmap::asset_loader::HeightMapLoaderError;
use bevy_heightmap::image::FromBytesError;
use bevy_heightmap::image::ImageBufferHeightMap;
use bevy_heightmap::image::PixelBuffer;
use bevy_heightmap::image::Subpixel;
use bevy_heightmap::mesh_builder::GridError;
use bevy_heightmap::mesh_builder::GridSpec;
use bevy_heightmap::mesh_builder::Height;
use bevy_heightmap::mesh_builder::MeshBuilder;
use bevy_heightmap::mesh_builder::Ratio;
use bevy_heightmap::HeightMap;
use bevy_image::Image;
use bevy_image::IntoDynamicImageError;
use bevy_image::TextureError;
use bevy_render::render_resource::Extent3d;
use bevy_render::render_resource::TextureDimension;
use bevy_render::render_resource::TextureFormat;

fn at(num: u32, den: u32) -> Ratio {
    Ratio { num, den }
}

/// RGBA pixels whose red channels are `reds`, the other channels filled
/// with numbers that are no red of the image.
fn rgba(reds: &[u8]) -> Vec<u8> {
    let mut bytes = Vec::new();
    for red in reds {
        bytes.extend_from_slice(&[*red, 201, 202, 203]);
    }
    bytes
}

fn texture(width: u32, height: u32, data: Vec<u8>, format: TextureFormat) -> Image {
    Image::new(
        Extent3d { width, height, depth_or_array_layers: 1 },
        TextureDimension::D2,
        data,
        format,
        RenderAssetUsages::default(),
    )
}

fn level(z: Height) -> u8 {
    match z {
        Height::Level(level) => level,
        Height::Raw(..) => panic!("expected an 8-bit level"),
    }
}

fn float(z: Height) -> f32 {
    match z {
        Height::Raw(a, b, c, d) => f32::from_ne_bytes([a, b, c, d]),
        Height::Level(_) => panic!("expected the bytes of a float"),
    }
}

#[test]
fn bytes_are_read_with_the_rows_flipped() {
    let size = GridSpec { width: 2, height: 2 };
    let map = ImageBufferHeightMap::from_bytes(Subpixel::U8, size, &rgba(&[10, 20, 30, 40])).unwrap();
    assert_eq!(map.dimensions(), size);
    assert_eq!(map.subpixel(), Subpixel::U8);
    // Row 0 of the image is the top, y = 1 of the square.
    assert_eq!(map.h(at(0, 1), at(1, 1)), Height::Level(10));
    assert_eq!(map.h(at(1, 1), at(1, 1)), Height::Level(20));
    assert_eq!(map.h(at(0, 1), at(0, 1)), Height::Level(30));
    assert_eq!(map.h(at(1, 1), at(0, 1)), Height::Level(40));
}

#[test]
fn points_between_texels_round_down() {
    let size = GridSpec { width: 4, height: 3 };
    let reds: Vec<u8> = (0..12).collect();
    let map = ImageBufferHeightMap::from_bytes(Subpixel::U8, size, &rgba(&reds)).unwrap();
    // x = 1/2 of 3 steps is column 1; y = 1/2 of 2 steps is one row up from the bottom.
    assert_eq!(map.h(at(1, 2), at(1, 2)), Height::Level(4 + 1));
    // x = 2/3 of 3 steps is column 2; y = 3/4 of 2 steps is 1 row up.
    assert_eq!(map.h(at(2, 3), at(3, 4)), Height::Level(4 + 2));
    // x = 99/100 is still column 2; y = 1 is the top row.
    assert_eq!(map.h(at(99, 100), at(7, 7)), Height::Level(2));
    assert_eq!(map.h(at(100, 100), at(0, 9)), Height::Level(11));
}

#[test]
fn one_texel_is_read_everywhere() {
    let size = GridSpec { width: 1, height: 1 };
    let map = ImageBufferHeightMap::from_bytes(Subpixel::U8, size, &rgba(&[77])).unwrap();
    assert_eq!(map.h(at(0, 1), at(0, 1)), Height::Level(77));
    assert_eq!(map.h(at(1, 1), at(1, 1)), Height::Level(77));
    assert_eq!(map.h(at(3, 5), at(2, 5)), Height::Level(77));
}

#[test]
fn float_channels_come_back_byte_for_byte() {
    let size = GridSpec { width: 2, height: 2 };
    let reds = [1.5f32, -2.25, 1.0e-3, 4096.0];
    let mut bytes = Vec::new();
    for red in reds {
        bytes.extend_from_slice(&red.to_ne_bytes());
        bytes.extend_from_slice(&7.0f32.to_ne_bytes());
        bytes.extend_from_slice(&8.0f32.to_ne_bytes());
        bytes.extend_from_slice(&9.0f32.to_ne_bytes());
    }
    let map = ImageBufferHeightMap::from_bytes(Subpixel::F32, size, &bytes).unwrap();
    assert_eq!(map.dimensions(), size);
    assert_eq!(map.subpixel(), Subpixel::F32);
    assert_eq!(float(map.h(at(0, 1), at(1, 1))), 1.5);
    assert_eq!(float(map.h(at(1, 1), at(1, 1))), -2.25);
    assert_eq!(float(map.h(at(0, 1), at(0, 1))), 1.0e-3);
    assert_eq!(float(map.h(at(1, 1), at(0, 1))), 4096.0);
}

#[test]
fn from_bytes_refuses_empty_sizes() {
    for format in [Subpixel::U8, Subpixel::F32] {
        for size in [GridSpec { width: 0, height: 4 }, GridSpec { width: 4, height: 0 }] {
            assert_eq!(
                ImageBufferHeightMap::from_bytes(format, size, &[0; 64]).err(),
                Some(FromBytesError::Size(GridError::Empty))
            );
        }
    }
}

#[test]
fn from_bytes_refuses_too_few_bytes() {
    let size = GridSpec { width: 2, height: 2 };
    assert_eq!(
        ImageBufferHeightMap::from_bytes(Subpixel::U8, size, &[0; 15]).err(),
        Some(FromBytesError::Short)
    );
    assert!(ImageBufferHeightMap::from_bytes(Subpixel::U8, size, &[0; 16]).is_ok());
    assert_eq!(
        ImageBufferHeightMap::from_bytes(Subpixel::F32, size, &[0; 63]).err(),
        Some(FromBytesError::Short)
    );
    assert!(ImageBufferHeightMap::from_bytes(Subpixel::F32, size, &[0; 64]).is_ok());
    assert_eq!(
        ImageBufferHeightMap::from_bytes(Subpixel::U8, size, &[]).err(),
        Some(FromBytesError::Short)
    );
}

#[test]
fn from_bytes_refuses_rows_wider_than_a_buffer() {
    let size = GridSpec { width: u32::MAX / 4 + 1, height: 1 };
    assert_eq!(
        ImageBufferHeightMap::from_bytes(Subpixel::F32, size, &[0; 64]).err(),
        Some(FromBytesError::Size(GridError::TooLarge))
    );
    assert_eq!(
        ImageBufferHeightMap::from_bytes(Subpixel::U8, size, &[0; 64]).err(),
        Some(FromBytesError::Short)
    );
}

#[test]
fn bytes_beyond_the_image_are_ignored() {
    let size = GridSpec { width: 1, height: 2 };
    let mut bytes = rgba(&[5, 6]);
    bytes.extend_from_slice(&[99; 9]);
    let map = ImageBufferHeightMap::from_bytes(Subpixel::U8, size, &bytes).unwrap();
    assert_eq!(map.h(at(0, 1), at(0, 1)), Height::Level(6));
    assert_eq!(map.h(at(0, 1), at(1, 1)), Height::Level(5));
}

#[test]
fn sampling_twice_gives_the_same() {
    let size = GridSpec { width: 3, height: 3 };
    let reds: Vec<u8> = (0..9).map(|i| 17 * i).collect();
    let map = ImageBufferHeightMap::from_bytes(Subpixel::U8, size, &rgba(&reds)).unwrap();
    for y in 0..=6 {
        for x in 0..=6 {
            assert_eq!(map.h(at(x, 6), at(y, 6)), map.h(at(x, 6), at(y, 6)));
        }
    }
}

#[test]
fn pixel_buffer_needs_four_bytes_to_the_pixel() {
    assert!(PixelBuffer::from_raw(2, 3, vec![0; 24]).is_some());
    assert!(PixelBuffer::from_raw(2, 3, vec![0; 23]).is_none());
    assert!(PixelBuffer::from_raw(0, 0, Vec::new()).is_some());
    assert!(PixelBuffer::from_raw(u32::MAX, u32::MAX, vec![0; 8]).is_none());
    // Without rows no byte is needed, but four times the width must still
    // be a number the machine can count.
    let countable = (usize::MAX as u128) >= 4 * (1u128 << 30);
    assert_eq!(PixelBuffer::from_raw(1 << 30, 0, Vec::new()).is_some(), countable);
    assert!(PixelBuffer::from_raw(7, 0, Vec::new()).is_some());
}

#[test]
fn converted_buffer_becomes_a_map_of_its_size() {
    let buffer = PixelBuffer::from_raw(3, 2, rgba(&[1, 2, 3, 4, 5, 6])).unwrap();
    let map = ImageBufferHeightMap::from_converted(Ok(Some(buffer))).unwrap();
    assert_eq!(map.dimensions(), GridSpec { width: 3, height: 2 });
    assert_eq!(map.subpixel(), Subpixel::U8);
    assert_eq!(map.h(at(2, 2), at(0, 1)), Height::Level(6));
    assert_eq!(map.h(at(0, 2), at(1, 1)), Height::Level(1));
}

#[test]
fn converted_outcomes_map_to_errors() {
    assert!(matches!(
        ImageBufferHeightMap::from_converted(Ok(None)),
        Err(HeightMapLoaderError::UnsupportedImageType)
    ));
    assert!(matches!(
        ImageBufferHeightMap::from_converted(Err(IntoDynamicImageError::UninitializedImage)),
        Err(HeightMapLoaderError::IntoDynamicImageError(
            IntoDynamicImageError::UninitializedImage
        ))
    ));
    let empty = PixelBuffer::from_raw(0, 5, Vec::new()).unwrap();
    assert!(matches!(
        ImageBufferHeightMap::from_converted(Ok(Some(empty))),
        Err(HeightMapLoaderError::Grid(GridError::Empty))
    ));
}

#[test]
fn rgba8_image_is_supported() {
    let image = texture(2, 2, rgba(&[10, 20, 30, 40]), TextureFormat::Rgba8UnormSrgb);
    let map = ImageBufferHeightMap::try_from_image(image).unwrap();
    assert_eq!(map.dimensions(), GridSpec { width: 2, height: 2 });
    assert_eq!(map.subpixel(), Subpixel::U8);
    assert_eq!(map.h(at(0, 1), at(0, 1)), Height::Level(30));
    assert_eq!(map.h(at(1, 1), at(1, 1)), Height::Level(20));
}

#[test]
fn bgra8_image_is_read_with_red_and_blue_swapped() {
    let image = texture(1, 1, vec![11, 22, 33, 44], TextureFormat::Bgra8UnormSrgb);
    let map = ImageBufferHeightMap::try_from_image(image).unwrap();
    assert_eq!(map.h(at(0, 1), at(0, 1)), Height::Level(33));
}

#[test]
fn grey_image_is_unsupported() {
    let image = texture(2, 2, vec![1, 2, 3, 4], TextureFormat::R8Unorm);
    assert!(matches!(
        ImageBufferHeightMap::try_from_image(image),
        Err(HeightMapLoaderError::UnsupportedImageType)
    ));
}

#[test]
fn float_image_has_no_dynamic_form() {
    let image = texture(1, 1, vec![0; 16], TextureFormat::Rgba32Float);
    assert!(matches!(
        ImageBufferHeightMap::try_from_image(image),
        Err(HeightMapLoaderError::IntoDynamicImageError(
            IntoDynamicImageError::UnsupportedFormat(TextureFormat::Rgba32Float)
        ))
    ));
}

#[test]
fn image_without_data_has_no_dynamic_form() {
    let image = Image::new_uninit(
        Extent3d { width: 2, height: 2, depth_or_array_layers: 1 },
        TextureDimension::D2,
        TextureFormat::Rgba8UnormSrgb,
        RenderAssetUsages::default(),
    );
    assert!(matches!(
        ImageBufferHeightMap::try_from_image(image),
        Err(HeightMapLoaderError::IntoDynamicImageError(
            IntoDynamicImageError::UninitializedImage
        ))
    ));
}

#[test]
fn image_without_texels_is_an_empty_grid() {
    let image = texture(0, 0, Vec::new(), TextureFormat::Rgba8UnormSrgb);
    assert!(matches!(
        ImageBufferHeightMap::try_from_image(image),
        Err(HeightMapLoaderError::Grid(GridError::Empty))
    ));
}

#[test]
fn loaded_mesh_has_a_vertex_for_each_texel() {
    let image = texture(3, 2, rgba(&[1, 2, 3, 4, 5, 6]), TextureFormat::Rgba8UnormSrgb);
    let mesh = load_mesh(image).unwrap();
    let plain = MeshBuilder::grid(GridSpec { width: 3, height: 2 }).unwrap();
    assert_eq!(mesh.indices, plain.indices);
    assert_eq!(mesh.uvs, plain.uvs);
    let heights: Vec<u8> = mesh.positions.iter().map(|p| level(p.z)).collect();
    // The bottom row of the image comes first.
    assert_eq!(heights, vec![4, 5, 6, 1, 2, 3]);
    for (p, q) in mesh.positions.iter().zip(&plain.positions) {
        assert_eq!((p.x, p.y), (q.x, q.y));
    }
}

#[test]
fn load_passes_errors_on() {
    assert!(matches!(
        load_mesh(texture(1, 1, vec![9], TextureFormat::R8Unorm)),
        Err(HeightMapLoaderError::UnsupportedImageType)
    ));
    assert!(matches!(
        load_mesh(texture(0, 0, Vec::new(), TextureFormat::Rgba8UnormSrgb)),
        Err(HeightMapLoaderError::Grid(GridError::Empty))
    ));
    assert!(matches!(
        load_mesh(texture(1, 1, vec![0; 8], TextureFormat::Rgba16Unorm)),
        Err(HeightMapLoaderError::IntoDynamicImageError(_))
    ));
}

#[test]
fn image_resampled_on_a_coarser_grid() {
    let size = GridSpec { width: 5, height: 5 };
    let reds: Vec<u8> = (0..25).collect();
    let map = ImageBufferHeightMap::from_bytes(Subpixel::U8, size, &rgba(&reds)).unwrap();
    let mesh = map.build_mesh(GridSpec { width: 3, height: 3 }).unwrap();
    let heights: Vec<u8> = mesh.positions.iter().map(|p| level(p.z)).collect();
    assert_eq!(heights, vec![20, 22, 24, 10, 12, 14, 0, 2, 4]);
}

#[test]
fn heights_are_written_as_levels() {
    let size = GridSpec { width: 2, height: 2 };
    let heights = [at(0, 1), at(1, 2), at(1, 3), at(1, 1)];
    let map = ImageBufferHeightMap::from_heights(size, &heights).unwrap();
    assert_eq!(map.dimensions(), size);
    assert_eq!(map.subpixel(), Subpixel::U8);
    assert_eq!(map.h(at(0, 1), at(0, 1)), Height::Level(0));
    assert_eq!(map.h(at(1, 1), at(0, 1)), Height::Level(127));
    assert_eq!(map.h(at(0, 1), at(1, 1)), Height::Level(85));
    assert_eq!(map.h(at(1, 1), at(1, 1)), Height::Level(255));
}

#[test]
fn from_heights_refuses_empty_and_short() {
    let heights = [at(1, 2); 5];
    assert_eq!(
        ImageBufferHeightMap::from_heights(GridSpec { width: 0, height: 2 }, &heights).err(),
        Some(FromBytesError::Size(GridError::Empty))
    );
    assert_eq!(
        ImageBufferHeightMap::from_heights(GridSpec { width: 3, height: 2 }, &heights).err(),
        Some(FromBytesError::Short)
    );
    assert!(ImageBufferHeightMap::from_heights(GridSpec { width: 5, height: 1 }, &heights).is_ok());
    assert!(ImageBufferHeightMap::from_heights(GridSpec { width: 2, height: 2 }, &heights).is_ok());
}

#[test]
fn round_trip_stays_within_one_over_255() {
    let size = GridSpec { width: 7, height: 5 };
    let den = 1000;
    let mut heights = Vec::new();
    for i in 0..35u32 {
        heights.push(at((i * 29 + 3) % (den + 1), den));
    }
    let map = ImageBufferHeightMap::from_heights(size, &heights).unwrap();
    let mesh = map.build_mesh(size).unwrap();
    assert_eq!(mesh.positions.len(), 35);
    for (vertex, height) in mesh.positions.iter().zip(&heights) {
        let written = height.num as f32 / height.den as f32;
        let read = level(vertex.z) as f32 / 255.0;
        assert!((written - read).abs() <= 1.0 / 255.0);
    }
}

#[test]
fn failed_load_falls_back_to_a_flat_plane() {
    let failed = load_mesh(texture(1, 1, vec![9], TextureFormat::R8Unorm));
    let plane = bevy_heightmap::asset_loader::mesh_or_flat(failed);
    let flat = MeshBuilder::grid(GridSpec { width: 2, height: 2 }).unwrap();
    assert_eq!(plane.positions, flat.positions);
    assert_eq!(plane.uvs, flat.uvs);
    assert_eq!(plane.indices, vec![0, 1, 3, 0, 3, 2]);
    for p in &plane.positions {
        assert_eq!(p.z, Height::Level(0));
    }
}

#[test]
fn good_load_is_kept_as_it_is() {
    let loaded = load_mesh(texture(3, 1, rgba(&[7, 8, 9]), TextureFormat::Rgba8UnormSrgb));
    let mesh = bevy_heightmap::asset_loader::mesh_or_flat(loaded);
    let heights: Vec<u8> = mesh.positions.iter().map(|p| level(p.z)).collect();
    assert_eq!(heights, vec![7, 8, 9]);
    assert!(mesh.indices.is_empty());
}

#[test]
fn decode_failure_keeps_the_error_and_the_path() {
    let error = TextureError::InvalidData("no header".to_string());
    match decode_failure(error, "textures/terrain.hmp.png".to_string()) {
        HeightMapLoaderError::FileTexture(file) => {
            assert_eq!(file.path, "textures/terrain.hmp.png");
            assert!(matches!(file.error, TextureError::InvalidData(ref words) if words == "no header"));
        }
        other => panic!("expected a file error, got {other:?}"),
    }
}

#[test]
fn file_error_message_names_the_path_and_the_error() {
    let file = HeightMapFileError {
        error: TextureError::InvalidData("no header".to_string()),
        path: "textures/terrain.hmp.png".to_string(),
    };
    assert_eq!(
        file.message(),
        "Error reading image file textures/terrain.hmp.png: invalid data: no header, \
         this is an error in `bevy_render`."
    );
    assert_eq!(
        HeightMapFileError::message_of("a.png", "broken"),
        "Error reading image file a.png: broken, this is an error in `bevy_render`."
    );
}

#[test]
fn loaded_mesh_of_a_square_image() {
    let reds: Vec<u8> = (0..16).map(|i| 10 * i).collect();
    let mesh = load_mesh(texture(4, 4, rgba(&reds), TextureFormat::Rgba8UnormSrgb)).unwrap();
    assert_eq!(mesh.positions.len(), 16);
    assert_eq!(mesh.indices.len(), 6 * 3 * 3);
    for (i, p) in mesh.positions.iter().enumerate() {
        let (x, y) = (i % 4, i / 4);
        assert_eq!(level(p.z), reds[(3 - y) * 4 + x]);
    }
}
