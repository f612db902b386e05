//! Defaults: the display width, and the places where a backing file is
//! looked for when no path is given.

use crate::error::ErrorView;
use crate::error::PierError;
use crate::error::PierResult;
use vstd::prelude::*;

verus! {

/// Width used to display a query when neither the caller nor the registry
/// asks for another one.
pub const FALLBACK_QUERY_DISPLAY_WIDTH: usize = 100;

/// A directory that a fallback location is relative to.
#[derive(Clone, Copy, Debug, PartialEq, Eq, Structural)]
pub enum BaseDir {
    /// The directory in which the command runs.
    WorkingDir,
    /// The user's directory for configuration files.
    ConfigHome,
    /// The user's home directory.
    Home,
}

/// A place where a backing file may be: a file name below a directory.
#[derive(Debug, PartialEq, Eq)]
pub struct ConfigLocation {
    pub base: BaseDir,
    pub file: String,
}

/// What a [`ConfigLocation`] holds.
pub struct LocationView {
    pub base: BaseDir,
    pub file: Seq<char>,
}

impl View for ConfigLocation {
    type V = LocationView;

    open spec fn view(&self) -> LocationView {
        LocationView { base: self.base, file: self.file@ }
    }
}

/// The fallback locations in the order in which they are tried. The order
/// is fixed: a new location may only be added behind the last.
pub open spec fn fallback_locations() -> Seq<LocationView> {
    seq![
        LocationView { base: BaseDir::WorkingDir, file: "pier.toml"@ },
        LocationView { base: BaseDir::ConfigHome, file: "pier/config.toml"@ },
        LocationView { base: BaseDir::ConfigHome, file: "pier/config"@ },
        LocationView { base: BaseDir::ConfigHome, file: "pier.toml"@ },
        LocationView { base: BaseDir::Home, file: ".pier.toml"@ },
        LocationView { base: BaseDir::Home, file: ".pier"@ },
    ]
}

/// The location of the file that initialisation creates when no path is
/// given and no fallback location exists.
pub open spec fn init_location() -> LocationView {
    LocationView { base: BaseDir::ConfigHome, file: "pier/config.toml"@ }
}

/// A path, and whether a file exists there.
#[derive(Debug, PartialEq, Eq)]
pub struct PathProbe {
    pub path: String,
    pub exists: bool,
}

/// Position `at` holds the first probe of `probes` whose path exists.
pub open spec fn is_first_existing(probes: Seq<PathProbe>, at: int) -> bool {
    &&& 0 <= at < probes.len()
    &&& probes[at].exists
    &&& forall|i: int| 0 <= i < at ==> !(#[trigger] probes[i]).exists
}

/// No probe of `probes` has a path that exists.
pub open spec fn none_exists(probes: Seq<PathProbe>) -> bool {
    forall|i: int| 0 <= i < probes.len() ==> !(#[trigger] probes[i]).exists
}

/// The path that resolution gives: the explicit one where there is one,
/// else that of the first probe that exists.
pub open spec fn resolves_to(
    explicit: Option<Seq<char>>,
    probes: Seq<PathProbe>,
    path: Seq<char>,
) -> bool {
    match explicit {
        Some(given) => path == given,
        None => exists|at: int|
            is_first_existing(probes, at) && path == (#[trigger] probes[at]).path@,
    }
}

/// The fallback locations in the order in which they are tried.
pub fn default_config_locations() -> (locations: Vec<ConfigLocation>)
    ensures
        Seq::new(locations@.len(), |i: int| locations@[i]@) == fallback_locations(),
{
    let mut locations: Vec<ConfigLocation> = Vec::new();
    locations.push(ConfigLocation { base: BaseDir::WorkingDir, file: "pier.toml".to_owned() });
    locations.push(
        ConfigLocation { base: BaseDir::ConfigHome, file: "pier/config.toml".to_owned() },
    );
    locations.push(ConfigLocation { base: BaseDir::ConfigHome, file: "pier/config".to_owned() });
    locations.push(ConfigLocation { base: BaseDir::ConfigHome, file: "pier.toml".to_owned() });
    locations.push(ConfigLocation { base: BaseDir::Home, file: ".pier.toml".to_owned() });
    locations.push(ConfigLocation { base: BaseDir::Home, file: ".pier".to_owned() });
    locations
}

/// The location of the file that initialisation creates when no path is
/// given and no fallback location exists.
pub fn default_init_location() -> (location: ConfigLocation)
    ensures
        location@ == init_location(),
{
    ConfigLocation { base: BaseDir::ConfigHome, file: "pier/config.toml".to_owned() }
}

/// The path of the first probe that exists. The probes are those of the
/// fallback locations, in their order.
pub fn fallback_path(found: &Vec<PathProbe>) -> (path: PierResult<String>)
    ensures
        match path {
            Ok(first) => exists|at: int|
                is_first_existing(found@, at) && first@ == (#[trigger] found@[at]).path@,
            Err(error) => none_exists(found@) && error@ == ErrorView::NoConfigFile,
        },
{
    let mut i: usize = 0;
    while i < found.len()
        invariant
            i <= found.len(),
            forall|j: int| 0 <= j < i ==> !(#[trigger] found@[j]).exists,
        decreases found.len() - i,
    {
        if found[i].exists {
            return Ok(found[i].path.clone());
        }
        i += 1;
    }
    Err(PierError::NoConfigFile)
}

/// The path of the backing file: `explicit` as it is where it is given,
/// whether or not a file exists there; else the path of the first fallback
/// probe that exists.
pub fn resolve_path(explicit: Option<String>, found: &Vec<PathProbe>) -> (path: PierResult<String>)
    ensures
        match path {
            Ok(chosen) => resolves_to(explicit.deep_view(), found@, chosen@),
            Err(error) => explicit is None && none_exists(found@) && error@
                == ErrorView::NoConfigFile,
        },
{
    match explicit {
        Some(given) => Ok(given),
        None => fallback_path(found),
    }
}

} // verus!
