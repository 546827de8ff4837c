//! What the instance of the graphics interface is created with.

use vstd::prelude::*;

use crate::engine::Info;
use crate::vulkan::manager::VulkanManager;
use crate::vulkan::outside::{debug_utils_name, packed_version};

verus! {

/// The layers that check how the graphics interface is used.
#[derive(Debug, PartialEq, Eq)]
pub enum Validation {
    Disabled,
    /// These layers, with messages from the creation of the instance on.
    Enabled { layer_names: Vec<String> },
}

/// What the instance is created with.
#[derive(Debug, PartialEq, Eq)]
pub struct InstanceInfo {
    pub application_name: String,
    pub application_version: u32,
    pub engine_name: String,
    pub engine_version: u32,
    pub api_version: u32,
    pub extension_names: Vec<String>,
    pub validation: Validation,
}

impl VulkanManager {
    /// What the instance is created with: the name of the program for the application and the
    /// engine, the extensions that the surface needs and the one that reports errors, and the
    /// validation layers if they are wanted and present.
    #[allow(deprecated)]
    pub fn init_instance(
        engine_info: &Info,
        surface_extensions: Vec<String>,
        layer_names: Vec<String>,
        enable_validation_layers: bool,
        has_validation_layers_support: bool,
    ) -> (info: InstanceInfo)
        requires
            !engine_info.app_name@.contains('\0'),
        ensures
            info.application_name@ == engine_info.app_name@,
            info.engine_name@ == engine_info.app_name@,
            info.application_version == packed_version(0, 0, 1),
            info.engine_version == packed_version(0, 0, 1),
            info.api_version == packed_version(1, 2, 0),
            info.extension_names@.drop_last() == surface_extensions@,
            info.extension_names@.len() == surface_extensions@.len() + 1,
            info.extension_names@.last()@ == "VK_EXT_debug_utils"@,
            enable_validation_layers && has_validation_layers_support ==> info.validation == (
            Validation::Enabled { layer_names }),
            !(enable_validation_layers && has_validation_layers_support) ==> info.validation
                == Validation::Disabled,
    {
        let mut extension_names = surface_extensions;
        extension_names.push(debug_utils_name());
        assert(extension_names@.drop_last() == surface_extensions@);
        let validation = if enable_validation_layers && has_validation_layers_support {
            Validation::Enabled { layer_names }
        } else {
            Validation::Disabled
        };
        InstanceInfo {
            application_name: engine_info.app_name.clone(),
            application_version: ash::vk::make_version(0, 0, 1),
            engine_name: engine_info.app_name.clone(),
            engine_version: ash::vk::make_version(0, 0, 1),
            api_version: ash::vk::make_version(1, 2, 0),
            extension_names,
            validation,
        }
    }
}

} // verus!
