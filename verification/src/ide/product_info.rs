//! What an installation's descriptor holds once it has been read.

use vstd::prelude::*;
use crate::ide::{product_of_code, IDEType};

verus! {

/// How one platform starts the product.
#[derive(Debug, Clone)]
pub struct IDELaunchSettings {
    /// The launcher, relative to the installation directory.
    pub launcher_path: String,
    /// The window class, under which the product's icon is looked up.
    pub startup_wm_class: String,
}

/// The text held by an `IDELaunchSettings`.
pub struct LaunchSettingsModel {
    pub launcher_path: Seq<char>,
    pub startup_wm_class: Seq<char>,
}

impl View for IDELaunchSettings {
    type V = LaunchSettingsModel;

    open spec fn view(&self) -> LaunchSettingsModel {
        LaunchSettingsModel {
            launcher_path: self.launcher_path@,
            startup_wm_class: self.startup_wm_class@,
        }
    }
}

/// A product descriptor.
#[derive(Debug, Clone)]
pub struct IDEProductInfo {
    pub name: String,
    pub version: String,
    pub build_number: String,
    pub ide_type: IDEType,
    /// The name of the product's directory under the vendor's configuration
    /// directory.
    pub data_directory_name: String,
    /// The fallback icon, relative to the installation directory.
    pub svg_icon_path: String,
    /// One entry per platform; only the first is used.
    pub launch_settings: Vec<IDELaunchSettings>,
}

/// The text held by an `IDEProductInfo`.
pub struct ProductInfoModel {
    pub name: Seq<char>,
    pub version: Seq<char>,
    pub build_number: Seq<char>,
    pub ide_type: IDEType,
    pub data_directory_name: Seq<char>,
    pub svg_icon_path: Seq<char>,
    pub launch_settings: Seq<LaunchSettingsModel>,
}

impl View for IDEProductInfo {
    type V = ProductInfoModel;

    open spec fn view(&self) -> ProductInfoModel {
        ProductInfoModel {
            name: self.name@,
            version: self.version@,
            build_number: self.build_number@,
            ide_type: self.ide_type,
            data_directory_name: self.data_directory_name@,
            svg_icon_path: self.svg_icon_path@,
            launch_settings: self.launch_settings@.map_values(|s: IDELaunchSettings| s@),
        }
    }
}

/// Why the fields of a descriptor make no descriptor.
#[derive(Debug, Clone, Copy, PartialEq, Eq, Structural)]
pub enum DescriptorError {
    /// The product code names no supported product.
    UnknownProductCode,
    /// The list of launch settings is empty.
    NoLaunchSettings,
}

/// What `IDEProductInfo::from_fields` makes of a descriptor's fields.
pub open spec fn descriptor_of(
    name: Seq<char>,
    version: Seq<char>,
    build_number: Seq<char>,
    product_code: Seq<char>,
    data_directory_name: Seq<char>,
    svg_icon_path: Seq<char>,
    launch_settings: Seq<LaunchSettingsModel>,
) -> Result<ProductInfoModel, DescriptorError> {
    match product_of_code(product_code) {
        None => Err(DescriptorError::UnknownProductCode),
        Some(ide_type) => if launch_settings.len() == 0 {
            Err(DescriptorError::NoLaunchSettings)
        } else {
            Ok(
                ProductInfoModel {
                    name,
                    version,
                    build_number,
                    ide_type,
                    data_directory_name,
                    svg_icon_path,
                    launch_settings,
                },
            )
        },
    }
}

impl IDELaunchSettings {
    /// A copy of the settings.
    pub fn duplicate(&self) -> (copy: Self)
        ensures
            copy@ == self@,
    {
        IDELaunchSettings {
            launcher_path: self.launcher_path.clone(),
            startup_wm_class: self.startup_wm_class.clone(),
        }
    }
}

impl IDEProductInfo {
    /// A copy of the descriptor.
    pub fn duplicate(&self) -> (copy: Self)
        ensures
            copy@ == self@,
    {
        let mut launch_settings: Vec<IDELaunchSettings> = Vec::new();
        let mut i: usize = 0;
        while i < self.launch_settings.len()
            invariant
                i <= self.launch_settings.len(),
                launch_settings@.len() == i,
                forall|k: int|
                    0 <= k < i ==> (#[trigger] launch_settings@[k])@ == self.launch_settings@[k]@,
            decreases self.launch_settings.len() - i,
        {
            launch_settings.push(self.launch_settings[i].duplicate());
            i += 1;
        }
        assert(launch_settings@.map_values(|s: IDELaunchSettings| s@)
            =~= self.launch_settings@.map_values(|s: IDELaunchSettings| s@));
        IDEProductInfo {
            name: self.name.clone(),
            version: self.version.clone(),
            build_number: self.build_number.clone(),
            ide_type: self.ide_type,
            data_directory_name: self.data_directory_name.clone(),
            svg_icon_path: self.svg_icon_path.clone(),
            launch_settings,
        }
    }

    /// Whether the descriptor names a way to launch the product.
    pub open spec fn well_formed(&self) -> bool {
        self.launch_settings@.len() > 0
    }

    /// Builds a descriptor from the fields of its file. The product code must
    /// name a supported product and at least one way to launch it must be
    /// given.
    pub fn from_fields(
        name: String,
        version: String,
        build_number: String,
        product_code: &str,
        data_directory_name: String,
        svg_icon_path: String,
        launch_settings: Vec<IDELaunchSettings>,
    ) -> (descriptor: Result<IDEProductInfo, DescriptorError>)
        ensures
            match descriptor {
                Ok(info) => info.well_formed() && descriptor_of(
                    name@,
                    version@,
                    build_number@,
                    product_code@,
                    data_directory_name@,
                    svg_icon_path@,
                    launch_settings@.map_values(|s: IDELaunchSettings| s@),
                ) == Ok::<ProductInfoModel, DescriptorError>(info@),
                Err(e) => descriptor_of(
                    name@,
                    version@,
                    build_number@,
                    product_code@,
                    data_directory_name@,
                    svg_icon_path@,
                    launch_settings@.map_values(|s: IDELaunchSettings| s@),
                ) == Err::<ProductInfoModel, DescriptorError>(e),
            },
    {
        let ide_type = match IDEType::from_product_code(product_code) {
            Some(ide_type) => ide_type,
            None => { return Err(DescriptorError::UnknownProductCode); },
        };
        if launch_settings.len() == 0 {
            return Err(DescriptorError::NoLaunchSettings);
        }
        Ok(
            IDEProductInfo {
                name,
                version,
                build_number,
                ide_type,
                data_directory_name,
                svg_icon_path,
                launch_settings,
            },
        )
    }
}

} // verus!
