//! Parsing of container image references into registry instance, namespace,
//! name, tag, and optional digest/signature.
use vstd::prelude::*;

use crate::text::{last_index, lemma_last_index, split_seq, str_rfind, str_split};

verus! {

/// Why an image reference could not be parsed.
#[derive(Clone, Copy, Debug, PartialEq, Eq, Structural)]
pub enum ImageError {
    /// The reference has more than three `/`-separated segments.
    TooManySegments,
    /// The service has no image reference at all.
    MissingImage,
}

/// A parsed container image reference.
#[derive(Debug)]
pub struct ContainerImage {
    /// Namespace / user; `_` when absent.
    pub namespace: String,
    /// Image name.
    pub name: String,
    /// Registry instance; `docker.io` when absent.
    pub instance: String,
    /// Tag; `latest` when absent.
    pub tag: String,
    /// Digest, when recorded.
    pub digest: Option<String>,
    /// Signature, when recorded.
    pub signature: Option<String>,
}

/// Spec-level value of a `ContainerImage`.
pub struct ContainerImageV {
    pub namespace: Seq<char>,
    pub name: Seq<char>,
    pub instance: Seq<char>,
    pub tag: Seq<char>,
    pub digest: Option<Seq<char>>,
    pub signature: Option<Seq<char>>,
}

impl View for ContainerImage {
    type V = ContainerImageV;

    open spec fn view(&self) -> ContainerImageV {
        ContainerImageV {
            namespace: self.namespace@,
            name: self.name@,
            instance: self.instance@,
            tag: self.tag@,
            digest: match self.digest {
                Some(ref d) => Some(d@),
                None => None,
            },
            signature: match self.signature {
                Some(ref s) => Some(s@),
                None => None,
            },
        }
    }
}

impl DeepView for ContainerImage {
    type V = ContainerImageV;

    open spec fn deep_view(&self) -> ContainerImageV {
        self.view()
    }
}

/// The image every field starts from: default registry, sentinel namespace,
/// empty name, rolling tag.
pub open spec fn default_image() -> ContainerImageV {
    ContainerImageV {
        namespace: "_"@,
        name: Seq::<char>::empty(),
        instance: "docker.io"@,
        tag: "latest"@,
        digest: None,
        signature: None,
    }
}

/// An image reference parses when it has at most three `/`-separated
/// segments.
pub open spec fn image_parse_ok(img: Seq<char>) -> bool {
    split_seq(img, '/').len() <= 3
}

/// The name-and-tag segment split on its last `:`: everything before it is
/// the name, everything after it the tag; with no `:` the whole segment is
/// the name and the tag stays `latest`.
pub open spec fn image_with_name_seg(base: ContainerImageV, seg: Seq<char>) -> ContainerImageV {
    let li = last_index(seg, ':');
    if li >= 0 {
        ContainerImageV { name: seg.take(li), tag: seg.skip(li + 1), ..base }
    } else {
        ContainerImageV { name: seg, ..base }
    }
}

/// What parsing an image reference yields: one segment is a bare name under
/// the sentinel namespace, two are namespace and name, three are instance,
/// namespace and name; the final segment then supplies name and tag.
pub open spec fn image_parse(img: Seq<char>) -> ContainerImageV {
    let segs = split_seq(img, '/');
    if segs.len() == 1 {
        image_with_name_seg(default_image(), segs[0])
    } else if segs.len() == 2 {
        image_with_name_seg(
            ContainerImageV { namespace: segs[0], ..default_image() },
            segs[1],
        )
    } else {
        image_with_name_seg(
            ContainerImageV { instance: segs[0], namespace: segs[1], ..default_image() },
            segs[2],
        )
    }
}

/// How a parsed image is displayed.
pub open spec fn image_render(v: ContainerImageV) -> Seq<char> {
    v.instance + "/"@ + v.namespace + "/"@ + v.name + ":"@ + v.tag
}

impl ContainerImage {
    /// An image with every field at its default.
    pub fn new() -> (r: ContainerImage)
        ensures
            r@ == default_image(),
    {
        ContainerImage {
            namespace: "_".to_owned(),
            name: String::new(),
            instance: "docker.io".to_owned(),
            tag: "latest".to_owned(),
            digest: None,
            signature: None,
        }
    }

    /// Parse an image reference; errors exactly when it has more than three
    /// `/`-separated segments.
    pub fn parse(container: String) -> (r: Result<ContainerImage, ImageError>)
        ensures
            r is Ok <==> image_parse_ok(container@),
            r is Ok ==> r.unwrap()@ == image_parse(container@),
            r is Err ==> r.unwrap_err() == ImageError::TooManySegments,
    {
        let segs = str_split(container.as_str(), '/');
        let mut result = ContainerImage::new();
        proof {
            assert(segs@.len() == segs.deep_view().len());
        }
        let name_seg: &String;
        if segs.len() == 1 {
            name_seg = &segs[0];
        } else if segs.len() == 2 {
            result.namespace = segs[0].clone();
            name_seg = &segs[1];
        } else if segs.len() == 3 {
            result.instance = segs[0].clone();
            result.namespace = segs[1].clone();
            name_seg = &segs[2];
        } else {
            return Err(ImageError::TooManySegments);
        }
        proof {
            assert(name_seg@ == segs.deep_view()[segs.deep_view().len() - 1]);
        }
        match str_rfind(name_seg.as_str(), ':') {
            Some(li) => {
                proof {
                    lemma_last_index(name_seg@, ':');
                }
                let n = name_seg.unicode_len();
                result.name = name_seg.as_str().substring_char(0, li).to_owned();
                result.tag = name_seg.as_str().substring_char(li + 1, n).to_owned();
                proof {
                    assert(result.name@ =~= name_seg@.take(li as int));
                    assert(result.tag@ =~= name_seg@.skip(li + 1));
                }
            },
            None => {
                result.name = name_seg.clone();
            },
        }
        Ok(result)
    }
}

} // verus!
