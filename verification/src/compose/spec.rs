//! Schema-tolerant document model of a compose manifest: every service field
//! is optional, and fields that hand-written YAML spells in more than one
//! shape are closed variants resolved at parse time.
use vstd::prelude::*;

use crate::containers::{image_parse, image_parse_ok, ContainerImage, ImageError};

verus! {

/// One parsed compose document: schema version, project name, and the
/// services in the order the parser delivered them (keys unique).
pub struct ComposeSpec {
    /// Version being used.
    pub version: Option<String>,
    /// Name of the compose project.
    pub name: Option<String>,
    /// Compose services, keyed by service name.
    pub services: Vec<(String, Service)>,
}

/// One deployable unit. Absence of a field is meaningful, not an error.
pub struct Service {
    /// External container image reference.
    pub image: Option<String>,
    /// Manual build specification.
    pub build: Option<StringOrBuild>,
    /// Container name.
    pub container_name: Option<String>,
    /// DNS server settings.
    pub dns: Option<StringOrList>,
    /// Environment files.
    pub env_file: Option<StringOrList>,
    /// Environment variables.
    pub environment: Option<ListOrHashMap>,
    /// Exposed ports.
    pub expose: Option<Vec<StringOrNumber>>,
    /// Published ports.
    pub ports: Option<Vec<StringOrNumber>>,
    /// Volume mounts.
    pub volumes: Option<Vec<String>>,
    /// Service labels.
    pub labels: Option<ListOrHashMap>,
    /// Security options.
    pub security_opt: Option<Vec<String>>,
    /// Restart policy.
    pub restart: Option<String>,
    /// Kernel sysctls.
    pub sysctls: Option<ListOrHashMap>,
    /// Added Linux capabilities.
    pub cap_add: Option<Vec<String>>,
    /// Whether the service runs privileged.
    pub privileged: Option<bool>,
}

/// A build specification in object form.
pub struct Build {
    pub context: Option<String>,
    pub dockerfile: Option<String>,
}

/// A field that is either a plain string or a build object.
pub enum StringOrBuild {
    Build(Build),
    Str(String),
}

/// A scalar that is a string, a number, or absent.
pub enum StringOrNumber {
    Num(usize),
    Str(String),
    Absent,
}

/// A field that is either one string or a list of strings.
pub enum StringOrList {
    VecStr(Vec<String>),
    Str(String),
}

/// A field that is either a list of scalars or a key-value mapping.
pub enum ListOrHashMap {
    Hash(Vec<(String, StringOrNumber)>),
    List(Vec<StringOrNumber>),
}

/// How a service announces itself in alert text: its container name, else
/// its parsed image name, else `unknown`.
pub open spec fn service_display(s: &Service) -> Seq<char> {
    match s.image {
        Some(ref i) => {
            match s.container_name {
                Some(ref n) => n@,
                None => if image_parse_ok(i@) {
                    image_parse(i@).name
                } else {
                    "unknown"@
                },
            }
        },
        None => match s.container_name {
            Some(ref n) => n@,
            None => "unknown"@,
        },
    }
}

impl Service {
    /// Parse this service's image reference; errors when the service has no
    /// image, or when the reference itself does not parse.
    pub fn parse_image(&self) -> (r: Result<ContainerImage, ImageError>)
        ensures
            match self.image {
                Some(ref i) => {
                    &&& r is Ok <==> image_parse_ok(i@)
                    &&& r is Ok ==> r.unwrap()@ == image_parse(i@)
                    &&& r is Err ==> r.unwrap_err() == ImageError::TooManySegments
                },
                None => r == Err::<ContainerImage, ImageError>(ImageError::MissingImage),
            },
    {
        match &self.image {
            Some(i) => ContainerImage::parse(i.clone()),
            None => Err(ImageError::MissingImage),
        }
    }

    /// Display name of the service, as used in alert text.
    pub fn display_name(&self) -> (r: String)
        ensures
            r@ == service_display(self),
    {
        if let Some(n) = &self.container_name {
            return n.clone();
        }
        match self.parse_image() {
            Ok(image) => image.name,
            Err(_) => "unknown".to_owned(),
        }
    }
}

} // verus!
