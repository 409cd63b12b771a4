//! From the descriptors found under the installation root to the
//! installations they describe. A descriptor that gives no installation is
//! passed over; it never stops the scan.

use vstd::prelude::*;
use crate::environment::{home_directory, resolve};
use crate::ide::config_path::{
    choose_config_path,
    chosen_config_path,
    default_config_root,
    default_config_root_is_home_relative,
    lies_under_home,
    override_of,
};
use crate::ide::data::{installation_of, IDEData, InstallationError, InstallationModel};
use crate::ide::product_info::IDEProductInfo;
use crate::ide::properties::IDEProperties;
use crate::ide::IDEType;
use crate::paths::{join, joined, parent, parent_of};

verus! {

/// The files that describe an installation, as a glob pattern under the
/// installation root.
pub fn descriptor_pattern() -> (pattern: &'static str)
    ensures
        pattern@ == "**/product-info.json"@,
{
    "**/product-info.json"
}

/// The properties file of an installation.
pub open spec fn local_properties_file_of(install_dir: Seq<char>) -> Seq<char> {
    joined(install_dir, "bin/idea.properties"@)
}

/// The properties file that holds for every installation.
pub open spec fn global_properties_file_of(home: Seq<char>) -> Seq<char> {
    joined(home, "idea.properties"@)
}

/// The properties file of the installation in `install_dir`.
pub fn local_properties_file(install_dir: &str) -> (file: String)
    ensures
        file@ == local_properties_file_of(install_dir@),
{
    join(install_dir, "bin/idea.properties")
}

/// The properties file in the home directory `home`.
pub fn global_properties_file(home: &str) -> (file: String)
    ensures
        file@ == global_properties_file_of(home@),
{
    join(home, "idea.properties")
}

/// The properties file in the home directory that the environment names, if
/// it names one.
pub fn global_properties_file_at_home() -> (file: Option<String>)
    ensures
        file matches Some(path) ==> exists|home: Seq<char>|
            path@ == #[trigger] global_properties_file_of(home),
{
    match home_directory() {
        Some(home) => {
            let file = global_properties_file(home.as_str());
            assert(file@ == global_properties_file_of(home@));
            Some(file)
        },
        None => None,
    }
}

/// The directory of the installation that the descriptor at `path` describes.
pub fn install_dir_of(path: &str) -> (dir: Option<String>)
    ensures
        match dir {
            Some(d) => parent_of(path@) == Some(d@),
            None => parent_of(path@) is None,
        },
{
    parent(path)
}

/// One descriptor file that the walk came upon, with what could be read of it.
#[derive(Debug)]
pub struct FoundDescriptor {
    /// The descriptor file.
    pub path: String,
    /// The descriptor, unless the file could not be read or understood.
    pub product_info: Option<IDEProductInfo>,
    /// The installation's own properties, if it has a readable properties
    /// file.
    pub properties: Option<IDEProperties>,
}

/// Why a descriptor was passed over.
#[derive(Debug, Clone, Copy, PartialEq, Eq, Structural)]
pub enum SkippedDescriptor {
    /// The file could not be read or understood.
    Unreadable,
    /// The descriptor file lies in no directory.
    NoInstallDir,
    /// None of the three sources gives a usable configuration directory.
    NoConfigPath,
    /// The descriptor and its directories make no installation.
    NotInstallable(InstallationError),
}

/// The resolved default roots, one per vendor directory.
#[derive(Debug)]
pub struct ConfigRoots {
    /// What `~/.config/Google` resolved to.
    pub google: Option<String>,
    /// What `~/.config/JetBrains` resolved to.
    pub jetbrains: Option<String>,
}

impl ConfigRoots {
    /// The root under which the product's default configuration lies.
    pub open spec fn root_of(&self, ide: IDEType) -> Option<Seq<char>> {
        let root = if ide == IDEType::AndroidStudio {
            self.google
        } else {
            self.jetbrains
        };
        match root {
            Some(dir) => Some(dir@),
            None => None,
        }
    }

    /// Whether each root that there is lies where it should: at the vendor's
    /// directory under some home directory.
    pub open spec fn lie_under_home(&self) -> bool {
        &&& lies_under_home(self.root_of(IDEType::AndroidStudio), IDEType::AndroidStudio)
        &&& lies_under_home(self.root_of(IDEType::Rider), IDEType::Rider)
    }

    /// Resolves both default roots against the environment. A root that
    /// resolves is the vendor's directory under the home directory that the
    /// environment named when it was asked.
    pub fn from_environment() -> (roots: Self)
        ensures
            roots.lie_under_home(),
    {
        proof {
            default_config_root_is_home_relative(IDEType::AndroidStudio);
            default_config_root_is_home_relative(IDEType::Rider);
        }
        ConfigRoots {
            google: resolve(default_config_root(IDEType::AndroidStudio)),
            jetbrains: resolve(default_config_root(IDEType::Rider)),
        }
    }
}

/// The path that the installation's own properties set, if any.
pub open spec fn own_override_of(found: &FoundDescriptor) -> Option<Seq<char>> {
    match found.properties {
        Some(p) => override_of(Some(&p)),
        None => None,
    }
}

/// The installation that a found descriptor gives, or why it gives none.
pub open spec fn installed(
    found: &FoundDescriptor,
    global: Option<&IDEProperties>,
    roots: &ConfigRoots,
) -> Result<InstallationModel, SkippedDescriptor> {
    match parent_of(found.path@) {
        None => Err(SkippedDescriptor::NoInstallDir),
        Some(install_dir) => match found.product_info {
            None => Err(SkippedDescriptor::Unreadable),
            Some(info) => match chosen_config_path(
                override_of(global),
                own_override_of(found),
                roots.root_of(info.ide_type),
                info.data_directory_name@,
            ) {
                None => Err(SkippedDescriptor::NoConfigPath),
                Some(config_path) => match installation_of(info@, install_dir, config_path) {
                    Ok(data) => Ok(data),
                    Err(e) => Err(SkippedDescriptor::NotInstallable(e)),
                },
            },
        },
    }
}

/// The installations that the found descriptors give, in the order in which
/// they were found.
pub open spec fn scanned(
    found: Seq<FoundDescriptor>,
    global: Option<&IDEProperties>,
    roots: &ConfigRoots,
) -> Seq<InstallationModel>
    decreases found.len(),
{
    if found.len() == 0 {
        Seq::empty()
    } else {
        let before = scanned(found.drop_last(), global, roots);
        match installed(&found.last(), global, roots) {
            Ok(data) => before.push(data),
            Err(_) => before,
        }
    }
}

/// Builds the installation that a found descriptor gives.
pub fn install(found: &FoundDescriptor, global: Option<&IDEProperties>, roots: &ConfigRoots) -> (
    installation: Result<IDEData, SkippedDescriptor>
)
    ensures
        match installation {
            Ok(data) => data.well_formed() && installed(found, global, roots) == Ok::<
                InstallationModel,
                SkippedDescriptor,
            >(data@),
            Err(e) => installed(found, global, roots) == Err::<
                InstallationModel,
                SkippedDescriptor,
            >(e),
        },
{
    let install_dir = match parent(found.path.as_str()) {
        Some(dir) => dir,
        None => { return Err(SkippedDescriptor::NoInstallDir); },
    };
    let info = match &found.product_info {
        Some(info) => info,
        None => { return Err(SkippedDescriptor::Unreadable); },
    };
    let root = if info.ide_type == IDEType::AndroidStudio {
        &roots.google
    } else {
        &roots.jetbrains
    };
    let chosen = match root {
        Some(dir) => choose_config_path(
            global,
            found.properties.as_ref(),
            Some(dir.as_str()),
            info.data_directory_name.as_str(),
        ),
        None => choose_config_path(
            global,
            found.properties.as_ref(),
            None,
            info.data_directory_name.as_str(),
        ),
    };
    let config_path = match chosen {
        Some(path) => path,
        None => { return Err(SkippedDescriptor::NoConfigPath); },
    };
    match IDEData::from_product_info(info, install_dir.as_str(), config_path.as_str()) {
        Ok(data) => Ok(data),
        Err(e) => Err(SkippedDescriptor::NotInstallable(e)),
    }
}

/// Builds every installation that the found descriptors give and passes over
/// the rest.
pub fn scan_under(
    found: &Vec<FoundDescriptor>,
    global: Option<&IDEProperties>,
    roots: &ConfigRoots,
) -> (installations: Vec<IDEData>)
    ensures
        installations@.map_values(|d: IDEData| d@) == scanned(found@, global, roots),
        forall|i: int| 0 <= i < installations@.len() ==> (#[trigger] installations@[i]).well_formed(),
{
    let mut installations: Vec<IDEData> = Vec::new();
    let mut i: usize = 0;
    while i < found.len()
        invariant
            i <= found.len(),
            installations@.map_values(|d: IDEData| d@) == scanned(
                found@.take(i as int),
                global,
                roots,
            ),
            forall|k: int|
                0 <= k < installations@.len() ==> (#[trigger] installations@[k]).well_formed(),
        decreases found.len() - i,
    {
        proof {
            assert(found@.take(i + 1).drop_last() == found@.take(i as int));
            assert(found@.take(i + 1).last() == found@[i as int]);
        }
        let ghost before = installations@;
        match install(&found[i], global, roots) {
            Ok(data) => {
                installations.push(data);
                assert(installations@.map_values(|d: IDEData| d@) == before.map_values(
                    |d: IDEData| d@,
                ).push(data@));
            },
            Err(_) => {},
        }
        i += 1;
    }
    assert(found@.take(found.len() as int) == found@);
    installations
}

/// Builds every installation that the found descriptors give, with the
/// default roots that the environment resolves to: the result is what
/// `scan_under` gives for those roots.
pub fn scan(found: &Vec<FoundDescriptor>, global: Option<&IDEProperties>) -> (installations: Vec<
    IDEData,
>)
    ensures
        forall|i: int| 0 <= i < installations@.len() ==> (#[trigger] installations@[i]).well_formed(),
        exists|roots: ConfigRoots|
            roots.lie_under_home() && installations@.map_values(|d: IDEData| d@)
                == #[trigger] scanned(found@, global, &roots),
{
    let roots = ConfigRoots::from_environment();
    scan_under(found, global, &roots)
}

} // verus!
