use std::borrow::Cow;
use std::path::{Path, PathBuf};
use three::path::concat_path;

#[test]
fn name_alone_is_borrowed() {
    let path = concat_path(None, "texture.png");
    assert!(matches!(path, Cow::Borrowed(_)));
    assert_eq!(path.as_ref(), Path::new("texture.png"));
}

#[test]
fn name_is_adjoined_to_the_directory() {
    let base = PathBuf::from("models").join("car");
    let path = concat_path(Some(base.as_path()), "texture.png");
    assert!(matches!(path, Cow::Owned(_)));
    assert_eq!(path.as_ref(), Path::new("models").join("car").join("texture.png").as_path());
    assert_ne!(path.as_ref(), Path::new("texture.png"));
    assert_ne!(path.as_ref(), base.as_path());
}

#[test]
fn empty_name_keeps_the_directory() {
    let path = concat_path(Some(Path::new("models")), "");
    assert_eq!(path.as_ref(), Path::new("models").join("").as_path());
}
