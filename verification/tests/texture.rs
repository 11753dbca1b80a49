use std::borrow::Cow;
use std::path::{Path, PathBuf};
use three::factory::{Factory, ObjMaterial};
use three::node::{Material, SubNode, Texture};
use three::texture::{format_of_extension, FormatError, ImageFormat};

#[test]
fn every_known_extension_has_its_format() {
    assert_eq!(format_of_extension("png"), Some(ImageFormat::Png));
    assert_eq!(format_of_extension("jpg"), Some(ImageFormat::Jpeg));
    assert_eq!(format_of_extension("jpeg"), Some(ImageFormat::Jpeg));
    assert_eq!(format_of_extension("gif"), Some(ImageFormat::Gif));
    assert_eq!(format_of_extension("webp"), Some(ImageFormat::WebP));
    assert_eq!(format_of_extension("ppm"), Some(ImageFormat::Ppm));
    assert_eq!(format_of_extension("tiff"), Some(ImageFormat::Tiff));
    assert_eq!(format_of_extension("tga"), Some(ImageFormat::Tga));
    assert_eq!(format_of_extension("bmp"), Some(ImageFormat::Bmp));
    assert_eq!(format_of_extension("ico"), Some(ImageFormat::Ico));
    assert_eq!(format_of_extension("hdr"), Some(ImageFormat::Hdr));
}

#[test]
fn other_extensions_have_none() {
    assert_eq!(format_of_extension(""), None);
    assert_eq!(format_of_extension("PNG"), None);
    assert_eq!(format_of_extension(".png"), None);
    assert_eq!(format_of_extension("pn"), None);
    assert_eq!(format_of_extension("pngx"), None);
    assert_eq!(format_of_extension("tif"), None);
    assert_eq!(format_of_extension("obj"), None);
}

fn never(_: Cow<Path>) -> Texture {
    panic!("no texture is asked for")
}

fn material(kd: Option<u32>, ns: Option<u32>, map_kd: Option<&str>) -> ObjMaterial {
    ObjMaterial { kd, ns, map_kd: map_kd.map(String::from) }
}

#[test]
fn mesh_with_normals_is_shaded() {
    let glossy = material(Some(0x102030), Some(80), Some("wood.png"));
    assert_eq!(
        Factory::load_obj_material(&glossy, true, true, None, never),
        Material::Phong { color: 0x102030, glossiness: 80 }
    );
    let dull = material(Some(0x102030), None, Some("wood.png"));
    assert_eq!(
        Factory::load_obj_material(&dull, true, false, None, never),
        Material::Lambert { color: 0x102030, flat: false }
    );
}

#[test]
fn mesh_without_normals_is_plain() {
    let glossy = material(Some(0x102030), Some(80), None);
    assert_eq!(
        Factory::load_obj_material(&glossy, false, true, None, never),
        Material::Basic { color: 0x102030, map: None }
    );
    // A texture is named, but the mesh has no texture coordinates.
    let textured = material(Some(0x102030), None, Some("wood.png"));
    assert_eq!(
        Factory::load_obj_material(&textured, false, false, None, never),
        Material::Basic { color: 0x102030, map: None }
    );
}

#[test]
fn texture_is_asked_for_by_its_path() {
    let textured = material(Some(0x102030), None, Some("wood.png"));
    let dir = PathBuf::from("models");
    let load = |path: Cow<Path>| {
        assert_eq!(path.as_ref(), Path::new("models").join("wood.png").as_path());
        Texture { id: 42, range: None }
    };
    assert_eq!(
        Factory::load_obj_material(&textured, false, true, Some(dir.as_path()), load),
        Material::Basic { color: 0x102030, map: Some(Texture { id: 42, range: None }) }
    );
    let load_plain = |path: Cow<Path>| {
        assert_eq!(path.as_ref(), Path::new("wood.png"));
        Texture { id: 43, range: None }
    };
    assert_eq!(
        Factory::load_obj_material(&textured, false, true, None, load_plain),
        Material::Basic { color: 0x102030, map: Some(Texture { id: 43, range: None }) }
    );
}

#[test]
fn material_without_colour_is_white() {
    let bare = material(None, Some(80), Some("wood.png"));
    assert_eq!(
        Factory::load_obj_material(&bare, true, true, None, never),
        Material::Basic { color: 0xffffff, map: None }
    );
    assert_eq!(
        Factory::load_obj_material(&bare, false, true, None, never),
        Material::Basic { color: 0xffffff, map: None }
    );
}

#[test]
fn bone_carries_nothing() {
    let mut factory = Factory::new();
    let bone = factory.bone();
    assert_eq!(factory.hub.node(&bone.object).sub_node, SubNode::Empty);
    assert_eq!(bone.object.node().index(), 0);
}

fn format_at(path: &str) -> Result<ImageFormat, FormatError> {
    Factory::parse_texture_format(Path::new(path))
}

#[test]
fn format_is_told_by_the_name_in_any_case() {
    assert_eq!(format_at("a/B.JPG"), Ok(ImageFormat::Jpeg));
    assert_eq!(format_at("x.jpeg"), Ok(ImageFormat::Jpeg));
    assert_eq!(format_at("t.PnG"), Ok(ImageFormat::Png));
    assert_eq!(format_at("dir.d/photo.tar.Tga"), Ok(ImageFormat::Tga));
    assert_eq!(format_at("sky.HDR"), Ok(ImageFormat::Hdr));
    assert_eq!(format_at("sky.hdr"), Ok(ImageFormat::Hdr));
}

#[test]
fn name_without_extension_tells_nothing() {
    assert_eq!(format_at("noext"), Err(FormatError::NoExtension));
    assert_eq!(format_at("dir.png/noext"), Err(FormatError::NoExtension));
    assert_eq!(format_at(".png"), Err(FormatError::NoExtension));
    assert_eq!(format_at(""), Err(FormatError::NoExtension));
}

#[test]
fn unknown_extension_is_handed_back_in_lower_case() {
    assert_eq!(format_at("f.xyz"), Err(FormatError::Unrecognized(String::from("xyz"))));
    assert_eq!(format_at("f.XyZ"), Err(FormatError::Unrecognized(String::from("xyz"))));
    assert_eq!(format_at("f."), Err(FormatError::Unrecognized(String::new())));
    assert_eq!(format_at("f.png.bak"), Err(FormatError::Unrecognized(String::from("bak"))));
}
