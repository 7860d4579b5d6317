use toml::de::Error as TomlError;
use vstd::prelude::*;

verus! {

#[verifier::external_type_specification]
#[verifier::external_body]
pub struct ExTomlError(TomlError);

/// What can go wrong while the configuration is read.
#[derive(Debug)]
pub enum Error {
    /// The file could not be found or read.
    StdIoError(std::io::Error),
    /// The file is no TOML of the expected shape.
    TomlDeError(TomlError),
}

/// `Path::is_relative` of the text as a path: as std documents it for Unix, a path is
/// absolute exactly when it starts with the root, `/`.
#[verifier::external_body]
fn path_is_relative(path: &str) -> (r: bool)
    ensures
        r == !(path@.len() > 0 && path@[0] == '/'),
{
    std::path::Path::new(path).is_relative()
}

/// How the path of the configuration file is made absolute.
pub enum ResolvedPath {
    /// A relative path, to be made absolute against the working directory, following links.
    Canonicalize(String),
    /// An absolute path, used as it is.
    AsIs(String),
}

/// The file the configuration is read from.
pub struct Provider {
    path: String,
}

impl Provider {
    pub closed spec fn spec_path(self) -> Seq<char> {
        self.path@
    }

    /// A provider that reads `./config.toml`.
    pub fn new() -> (p: Provider)
        ensures
            p.spec_path() == "./config.toml"@,
    {
        Provider::default()
    }

    /// The provider, reading from another file.
    pub fn with_path(self, path: &str) -> (p: Provider)
        ensures
            p.spec_path() == path@,
    {
        Provider { path: String::from_str(path) }
    }

    /// The path to read from: a relative one is to be made absolute, an absolute one is
    /// kept.
    pub fn resolve_path(&self) -> (r: ResolvedPath)
        ensures
            self.spec_path().len() > 0 && self.spec_path()[0] == '/' ==> (r matches ResolvedPath::AsIs(p)
                && p@ == self.spec_path()),
            !(self.spec_path().len() > 0 && self.spec_path()[0] == '/') ==> (r matches ResolvedPath::Canonicalize(p)
                && p@ == self.spec_path()),
    {
        if path_is_relative(self.path.as_str()) {
            ResolvedPath::Canonicalize(self.path.clone())
        } else {
            ResolvedPath::AsIs(self.path.clone())
        }
    }
}

impl Default for Provider {
    fn default() -> (p: Provider)
        ensures
            p.spec_path() == "./config.toml"@,
    {
        Provider { path: String::from_str("./config.toml") }
    }
}

} // verus!
