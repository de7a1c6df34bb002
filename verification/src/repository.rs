use vstd::prelude::*;

use std::path::PathBuf;

verus! {

/// `std::path::PathBuf`, carried as an opaque value.
#[verifier::external_type_specification]
#[verifier::external_body]
pub struct ExPathBuf(PathBuf);

/// The configuration file in TOML format at a given path. Reading and
/// writing the file is the front end's part.
pub struct TomlConfigRepository {
    path: PathBuf,
}

impl TomlConfigRepository {
    /// The path of the configuration file.
    pub closed spec fn path_model(&self) -> PathBuf {
        self.path
    }

    /// A repository for the file at `path`.
    pub fn new(path: PathBuf) -> (r: Self)
        ensures
            r.path_model() == path,
    {
        TomlConfigRepository { path }
    }

    /// The path of the configuration file.
    pub fn path(&self) -> (p: &PathBuf)
        ensures
            *p == self.path_model(),
    {
        &self.path
    }
}

} // verus!
