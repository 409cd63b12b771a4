//! An installed product: its descriptor joined with the directories it was
//! found in and configured for.

use vstd::prelude::*;
use crate::ide::config_path::{is_config_dir, is_usable_config_dir};
use crate::ide::product_info::{IDEProductInfo, ProductInfoModel};
use crate::ide::IDEType;
use crate::paths::{is_absolute, is_absolute_path, join, joined};

verus! {

/// One installed product.
#[derive(Debug, Clone)]
#[allow(dead_code)]
pub struct IDEData {
    /// The descriptor that the installation was built from.
    pub product_info: IDEProductInfo,
    /// The directory that holds the installation.
    pub install_dir: String,
    pub ide_type: IDEType,
    pub version: String,
    /// The directory that holds this installation's user configuration.
    pub config_path: String,
    pub fallback_icon_path: String,
    /// The window class of the first launch settings.
    pub icon_name: String,
    pub launcher_path: String,
}

/// The text held by an `IDEData`.
pub struct InstallationModel {
    pub product_info: ProductInfoModel,
    pub install_dir: Seq<char>,
    pub ide_type: IDEType,
    pub version: Seq<char>,
    pub config_path: Seq<char>,
    pub fallback_icon_path: Seq<char>,
    pub icon_name: Seq<char>,
    pub launcher_path: Seq<char>,
}

impl View for IDEData {
    type V = InstallationModel;

    open spec fn view(&self) -> InstallationModel {
        InstallationModel {
            product_info: self.product_info@,
            install_dir: self.install_dir@,
            ide_type: self.ide_type,
            version: self.version@,
            config_path: self.config_path@,
            fallback_icon_path: self.fallback_icon_path@,
            icon_name: self.icon_name@,
            launcher_path: self.launcher_path@,
        }
    }
}

/// Why a descriptor gives no installation.
#[derive(Debug, Clone, Copy, PartialEq, Eq, Structural)]
pub enum InstallationError {
    /// The descriptor names no way to launch the product.
    NoLaunchSettings,
    /// The installation directory does not start at the root.
    RelativeInstallDir,
    /// The configuration directory does not start at the root or still holds
    /// a placeholder.
    UnusableConfigPath,
}

/// Whether the paths of an installation are all resolved: each starts at the
/// root, and the configuration directory holds no placeholder.
pub open spec fn resolved_installation(data: InstallationModel) -> bool {
    &&& is_config_dir(data.config_path)
    &&& is_absolute_path(data.install_dir)
    &&& is_absolute_path(data.fallback_icon_path)
    &&& is_absolute_path(data.launcher_path)
}

/// The installation that a descriptor found in `install_dir` describes: the
/// first launch settings give the launcher and the icon name, and both
/// relative paths are taken from the installation directory.
pub open spec fn installation_of(
    info: ProductInfoModel,
    install_dir: Seq<char>,
    config_path: Seq<char>,
) -> Result<InstallationModel, InstallationError> {
    if info.launch_settings.len() == 0 {
        Err(InstallationError::NoLaunchSettings)
    } else if !is_absolute_path(install_dir) {
        Err(InstallationError::RelativeInstallDir)
    } else if !is_config_dir(config_path) {
        Err(InstallationError::UnusableConfigPath)
    } else {
        Ok(
            InstallationModel {
                product_info: info,
                install_dir,
                ide_type: info.ide_type,
                version: info.version,
                config_path,
                fallback_icon_path: joined(install_dir, info.svg_icon_path),
                icon_name: info.launch_settings[0].startup_wm_class,
                launcher_path: joined(install_dir, info.launch_settings[0].launcher_path),
            },
        )
    }
}

/// A path taken from a directory that starts at the root starts at the root.
pub proof fn joined_stays_absolute(base: Seq<char>, rel: Seq<char>)
    requires
        is_absolute_path(base),
    ensures
        is_absolute_path(joined(base, rel)),
{
}

/// Every installation that `installation_of` describes is resolved.
pub proof fn installation_of_is_resolved(
    info: ProductInfoModel,
    install_dir: Seq<char>,
    config_path: Seq<char>,
)
    ensures
        installation_of(info, install_dir, config_path) matches Ok(data) ==> resolved_installation(
            data,
        ),
{
    if installation_of(info, install_dir, config_path) is Ok {
        joined_stays_absolute(install_dir, info.svg_icon_path);
        joined_stays_absolute(install_dir, info.launch_settings[0].launcher_path);
    }
}

impl IDEData {
    /// Whether the installation's paths are all resolved.
    pub open spec fn well_formed(&self) -> bool {
        resolved_installation(self@)
    }

    /// Builds the installation that `product_info` describes. A descriptor
    /// without launch settings describes none, and both directories must be
    /// resolved.
    pub fn from_product_info(
        product_info: &IDEProductInfo,
        install_dir: &str,
        config_path: &str,
    ) -> (installation: Result<Self, InstallationError>)
        ensures
            match installation {
                Ok(data) => data.well_formed() && installation_of(
                    product_info@,
                    install_dir@,
                    config_path@,
                ) == Ok::<InstallationModel, InstallationError>(data@),
                Err(e) => installation_of(product_info@, install_dir@, config_path@) == Err::<
                    InstallationModel,
                    InstallationError,
                >(e),
            },
    {
        if product_info.launch_settings.len() == 0 {
            return Err(InstallationError::NoLaunchSettings);
        }
        if !is_absolute(install_dir) {
            return Err(InstallationError::RelativeInstallDir);
        }
        if !is_usable_config_dir(config_path) {
            return Err(InstallationError::UnusableConfigPath);
        }
        let launch_settings = &product_info.launch_settings[0];
        proof {
            installation_of_is_resolved(product_info@, install_dir@, config_path@);
        }
        Ok(
            Self {
                product_info: product_info.duplicate(),
                install_dir: install_dir.to_owned(),
                config_path: config_path.to_owned(),
                ide_type: product_info.ide_type,
                version: product_info.version.clone(),
                fallback_icon_path: join(install_dir, product_info.svg_icon_path.as_str()),
                icon_name: launch_settings.startup_wm_class.clone(),
                launcher_path: join(install_dir, launch_settings.launcher_path.as_str()),
            },
        )
    }
}

} // verus!
