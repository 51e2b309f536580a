//! Bring-up of a Vulkan instance, device and queue that a renderer adopts
//! instead of discovering a device on its own.

use vstd::prelude::*;

pub mod devices;
pub mod names;
pub mod sdk;
pub mod versions;
pub mod vulkan_init;

use crate::names::{contains_name, names_of, with_name};

verus! {

/// The extensions that the rest of a program asks for before the graphics
/// device is brought up: one list for the instance and one for the device.
/// Neither list names an extension twice, and each keeps the order in which
/// its names were first added.
pub struct GraphicsInteropSettings {
    vulkan_instance_extensions: Vec<String>,
    vulkan_device_extensions: Vec<String>,
}

impl GraphicsInteropSettings {
    /// The instance extensions asked for, oldest first.
    pub closed spec fn instance_extensions(&self) -> Seq<Seq<char>> {
        names_of(self.vulkan_instance_extensions@)
    }

    /// The device extensions asked for, oldest first.
    pub closed spec fn device_extensions(&self) -> Seq<Seq<char>> {
        names_of(self.vulkan_device_extensions@)
    }

    /// Neither list names an extension twice.
    pub open spec fn well_formed(&self) -> bool {
        &&& self.instance_extensions().no_duplicates()
        &&& self.device_extensions().no_duplicates()
    }

    /// Settings that ask for no extension.
    pub fn new() -> (settings: GraphicsInteropSettings)
        ensures
            settings.well_formed(),
            settings.instance_extensions() == Seq::<Seq<char>>::empty(),
            settings.device_extensions() == Seq::<Seq<char>>::empty(),
    {
        let settings = GraphicsInteropSettings {
            vulkan_instance_extensions: Vec::new(),
            vulkan_device_extensions: Vec::new(),
        };
        assert(settings.instance_extensions() =~= Seq::<Seq<char>>::empty());
        assert(settings.device_extensions() =~= Seq::<Seq<char>>::empty());
        settings
    }

    /// Asks for an instance extension. A name that is already listed changes
    /// nothing; a new one goes to the end of the list.
    pub fn add_vk_instance_extension(&mut self, extension: &str)
        ensures
            old(self).well_formed() ==> final(self).well_formed(),
            final(self).instance_extensions() == with_name(
                old(self).instance_extensions(),
                extension@,
            ),
            final(self).device_extensions() == old(self).device_extensions(),
    {
        let name = extension.to_owned();
        if !contains_name(&self.vulkan_instance_extensions, &name) {
            self.vulkan_instance_extensions.push(name);
            assert(names_of(self.vulkan_instance_extensions@) =~= names_of(
                old(self).vulkan_instance_extensions@,
            ).push(extension@));
        }
    }

    /// Asks for a device extension. A name that is already listed changes
    /// nothing; a new one goes to the end of the list.
    pub fn add_vk_device_extension(&mut self, extension: &str)
        ensures
            old(self).well_formed() ==> final(self).well_formed(),
            final(self).device_extensions() == with_name(
                old(self).device_extensions(),
                extension@,
            ),
            final(self).instance_extensions() == old(self).instance_extensions(),
    {
        let name = extension.to_owned();
        if !contains_name(&self.vulkan_device_extensions, &name) {
            self.vulkan_device_extensions.push(name);
            assert(names_of(self.vulkan_device_extensions@) =~= names_of(
                old(self).vulkan_device_extensions@,
            ).push(extension@));
        }
    }

    /// Gives up the settings for the device extensions asked for, in the
    /// order of their first registration.
    pub fn into_device_extensions(self) -> (listed: Vec<String>)
        ensures
            names_of(listed@) == self.device_extensions(),
    {
        self.vulkan_device_extensions
    }

    /// The instance extensions asked for, in the order of their first
    /// registration.
    pub fn read_vk_instance_extensions(&self) -> (listed: &[String])
        ensures
            names_of(listed@) == self.instance_extensions(),
    {
        self.vulkan_instance_extensions.as_slice()
    }

    /// The device extensions asked for, in the order of their first
    /// registration.
    pub fn read_vk_device_extensions(&self) -> (listed: &[String])
        ensures
            names_of(listed@) == self.device_extensions(),
    {
        self.vulkan_device_extensions.as_slice()
    }
}

impl Default for GraphicsInteropSettings {
    /// Settings that ask for no extension.
    fn default() -> (settings: GraphicsInteropSettings)
        ensures
            settings.well_formed(),
            settings.instance_extensions() == Seq::<Seq<char>>::empty(),
            settings.device_extensions() == Seq::<Seq<char>>::empty(),
    {
        GraphicsInteropSettings::new()
    }
}

} // verus!
