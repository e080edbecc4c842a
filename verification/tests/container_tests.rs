use quibble::containers::{ContainerImage, ImageError};

// The namespace of a bare name keeps the sentinel `_`, as `ContainerImage`'s
// own defaults have it.
#[test]
fn parse_name() {
    let container = String::from("gitea:latest");
    let image = ContainerImage::parse(container).unwrap();

    assert_eq!(image.namespace, String::from("_"));
    assert_eq!(image.name, String::from("gitea"));
    assert_eq!(image.instance, String::from("docker.io"));
    assert_eq!(image.tag, String::from("latest"));
}

#[test]
fn parse_namespace() {
    let container = String::from("gitea/gitea");
    let image = ContainerImage::parse(container).unwrap();

    assert_eq!(image.namespace, String::from("gitea"));
    assert_eq!(image.name, String::from("gitea"));
    assert_eq!(image.instance, String::from("docker.io"));
    assert_eq!(image.tag, String::from("latest"));
}

#[test]
fn parse_tag() {
    let container = String::from("gitea/gitea:1.20");
    let image = ContainerImage::parse(container).unwrap();

    assert_eq!(image.namespace, String::from("gitea"));
    assert_eq!(image.name, String::from("gitea"));
    assert_eq!(image.instance, String::from("docker.io"));
    assert_eq!(image.tag, String::from("1.20"));
}

#[test]
fn parse_instance() {
    let container = String::from("ghcr.io/gitea/gitea");
    let image = ContainerImage::parse(container).unwrap();

    assert_eq!(image.namespace, String::from("gitea"));
    assert_eq!(image.name, String::from("gitea"));
    assert_eq!(image.instance, String::from("ghcr.io"));
    assert_eq!(image.tag, String::from("latest"));
}

#[test]
fn parse_too_many_segments() {
    let container = String::from("a/b/c/d");
    let err = ContainerImage::parse(container).unwrap_err();
    assert_eq!(err, ImageError::TooManySegments);
}

#[test]
fn parse_tag_takes_last_colon() {
    let image = ContainerImage::parse(String::from("registry/app:v1:v2")).unwrap();
    assert_eq!(image.name, String::from("app:v1"));
    assert_eq!(image.tag, String::from("v2"));
}

#[test]
fn new_image_defaults() {
    let image = ContainerImage::new();
    assert_eq!(image.namespace, String::from("_"));
    assert_eq!(image.name, String::from(""));
    assert_eq!(image.instance, String::from("docker.io"));
    assert_eq!(image.tag, String::from("latest"));
    assert!(image.digest.is_none());
    assert!(image.signature.is_none());
}
