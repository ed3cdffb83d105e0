//! The Vulkan layer: the negotiation with the loader, which entry points
//! the layer answers for itself, and where in a chain of create-info
//! structures the loader has left the link to the next layer.

use vstd::prelude::*;
use vstd::slice::slice_index_get;
use vstd::string::StringSliceAdditionalSpecFns;

verus! {

#[derive(PartialEq, Eq, Copy, Clone, Debug, Structural)]
pub struct VkLayerNegotiateStructType(pub i32);

impl VkLayerNegotiateStructType {
    pub const LAYER_NEGOTIATE_INTERFACE_STRUCT: i32 = 1;
}

#[derive(PartialEq, Eq, Copy, Clone, Debug, Structural)]
pub struct VkLayerFunction(pub i32);

impl VkLayerFunction {
    pub const VK_LAYER_FUNCTION_LINK: i32 = 0;

    pub const VK_LAYER_FUNCTION_DATA_CALLBACK: i32 = 1;
}

/// `VK_SUCCESS`.
pub const SUCCESS: i32 = 0;

/// `VK_ERROR_INITIALIZATION_FAILED`.
pub const ERROR_INITIALIZATION_FAILED: i32 = -3;

/// `VK_STRUCTURE_TYPE_LOADER_INSTANCE_CREATE_INFO`.
pub const LOADER_INSTANCE_CREATE_INFO: i32 = 47;

/// `VK_STRUCTURE_TYPE_LOADER_DEVICE_CREATE_INFO`.
pub const LOADER_DEVICE_CREATE_INFO: i32 = 48;

/// The only version of the layer interface that the layer speaks.
pub const LAYER_INTERFACE_VERSION: u32 = 2;

/// Negotiates the layer interface. The loader has to hand in a negotiate
/// structure and to speak version 2 at least; the layer then settles on
/// version 2. Anything else fails the initialization.
pub fn vk_main(s_type: VkLayerNegotiateStructType, loader_layer_interface_version: u32) -> (version:
    Result<u32, i32>)
    ensures
        version == if s_type.0 == VkLayerNegotiateStructType::LAYER_NEGOTIATE_INTERFACE_STRUCT
            && loader_layer_interface_version >= LAYER_INTERFACE_VERSION {
            Ok::<u32, i32>(LAYER_INTERFACE_VERSION)
        } else {
            Err(ERROR_INITIALIZATION_FAILED)
        },
{
    if s_type.0 != VkLayerNegotiateStructType::LAYER_NEGOTIATE_INTERFACE_STRUCT {
        return Err(ERROR_INITIALIZATION_FAILED);
    }
    let target_ld = loader_layer_interface_version;
    if target_ld < 2 {
        // We only support Layer Interface Version 2.
        return Err(ERROR_INITIALIZATION_FAILED);
    }
    Ok(LAYER_INTERFACE_VERSION)
}

/// An entry point that the layer answers for itself.
#[derive(PartialEq, Eq, Copy, Clone, Debug, Structural)]
pub enum LayerEntry {
    GetInstanceProcAddr,
    GetDeviceProcAddr,
    CreateInstance,
    DestroyInstance,
    CreateDevice,
    DestroyDevice,
    CreateSwapchainKHR,
}

/// Whether `name` spells `literal`.
pub open spec fn spells(name: Seq<u8>, literal: &str) -> bool {
    name == literal.spec_bytes()
}

/// Whether two byte strings are the same.
pub fn bytes_equal(a: &[u8], b: &[u8]) -> (same: bool)
    ensures
        same <==> a@ == b@,
{
    if a.len() != b.len() {
        return false;
    }
    let mut at: usize = 0;
    while at < a.len()
        invariant
            at <= a@.len() == b@.len(),
            a@.take(at as int) == b@.take(at as int),
        decreases a@.len() - at,
    {
        if *slice_index_get(a, at) != *slice_index_get(b, at) {
            assert(a@[at as int] != b@[at as int]);
            return false;
        }
        assert(a@.take(at + 1) =~= a@.take(at as int).push(a@[at as int]));
        assert(b@.take(at + 1) =~= b@.take(at as int).push(b@[at as int]));
        at += 1;
    }
    assert(a@.take(at as int) =~= a@);
    assert(b@.take(at as int) =~= b@);
    true
}

fn is_name(name: &[u8], literal: &str) -> (same: bool)
    ensures
        same <==> spells(name@, literal),
{
    bytes_equal(name, literal.as_bytes())
}

/// The entry point of the layer that a device-level name stands for.
pub open spec fn device_entry(name: Seq<u8>) -> Option<LayerEntry> {
    if spells(name, "vkGetDeviceProcAddr") {
        Some(LayerEntry::GetDeviceProcAddr)
    } else if spells(name, "vkCreateDevice") {
        Some(LayerEntry::CreateDevice)
    } else if spells(name, "vkDestroyDevice") {
        Some(LayerEntry::DestroyDevice)
    } else if spells(name, "vkCreateSwapchainKHR") {
        Some(LayerEntry::CreateSwapchainKHR)
    } else {
        None
    }
}

/// The entry point of the layer that an instance-level name stands for.
pub open spec fn instance_entry(name: Seq<u8>) -> Option<LayerEntry> {
    if spells(name, "vkGetInstanceProcAddr") {
        Some(LayerEntry::GetInstanceProcAddr)
    } else if spells(name, "vkCreateInstance") {
        Some(LayerEntry::CreateInstance)
    } else if spells(name, "vkDestroyInstance") {
        Some(LayerEntry::DestroyInstance)
    } else if spells(name, "vkGetDeviceProcAddr") {
        Some(LayerEntry::GetDeviceProcAddr)
    } else if spells(name, "vkCreateDevice") {
        Some(LayerEntry::CreateDevice)
    } else if spells(name, "vkDestroyDevice") {
        Some(LayerEntry::DestroyDevice)
    } else {
        None
    }
}

/// Resolves a name for a device. `None` stands for the next layer: the
/// name is looked up in the dispatch table of the device.
pub fn get_device_proc_addr(name: &[u8]) -> (entry: Option<LayerEntry>)
    ensures
        entry == device_entry(name@),
{
    if is_name(name, "vkGetDeviceProcAddr") {
        Some(LayerEntry::GetDeviceProcAddr)
    } else if is_name(name, "vkCreateDevice") {
        Some(LayerEntry::CreateDevice)
    } else if is_name(name, "vkDestroyDevice") {
        Some(LayerEntry::DestroyDevice)
    } else if is_name(name, "vkCreateSwapchainKHR") {
        Some(LayerEntry::CreateSwapchainKHR)
    } else {
        None
    }
}

/// Resolves a name for an instance. `None` stands for the next layer:
/// the name is looked up in the dispatch table of the instance.
pub fn get_instance_proc_addr(name: &[u8]) -> (entry: Option<LayerEntry>)
    ensures
        entry == instance_entry(name@),
{
    if is_name(name, "vkGetInstanceProcAddr") {
        Some(LayerEntry::GetInstanceProcAddr)
    } else if is_name(name, "vkCreateInstance") {
        Some(LayerEntry::CreateInstance)
    } else if is_name(name, "vkDestroyInstance") {
        Some(LayerEntry::DestroyInstance)
    } else if is_name(name, "vkGetDeviceProcAddr") {
        Some(LayerEntry::GetDeviceProcAddr)
    } else if is_name(name, "vkCreateDevice") {
        Some(LayerEntry::CreateDevice)
    } else if is_name(name, "vkDestroyDevice") {
        Some(LayerEntry::DestroyDevice)
    } else {
        None
    }
}

/// Resolves a name for a device without the layer's hooks: only the
/// resolver itself is the layer's own.
pub fn get_base_device_proc_addr(name: &[u8]) -> (entry: Option<LayerEntry>)
    ensures
        entry == if spells(name@, "vkGetDeviceProcAddr") {
            Some(LayerEntry::GetDeviceProcAddr)
        } else {
            None
        },
{
    if is_name(name, "vkGetDeviceProcAddr") {
        Some(LayerEntry::GetDeviceProcAddr)
    } else {
        None
    }
}

/// Resolves a name for an instance without the layer's hooks: only the
/// two resolvers are the layer's own.
pub fn get_base_instance_proc_addr(name: &[u8]) -> (entry: Option<LayerEntry>)
    ensures
        entry == if spells(name@, "vkGetInstanceProcAddr") {
            Some(LayerEntry::GetInstanceProcAddr)
        } else if spells(name@, "vkGetDeviceProcAddr") {
            Some(LayerEntry::GetDeviceProcAddr)
        } else {
            None
        },
{
    if is_name(name, "vkGetInstanceProcAddr") {
        Some(LayerEntry::GetInstanceProcAddr)
    } else if is_name(name, "vkGetDeviceProcAddr") {
        Some(LayerEntry::GetDeviceProcAddr)
    } else {
        None
    }
}

/// The head of one structure in the `pNext` chain of a create-info.
#[derive(PartialEq, Eq, Copy, Clone, Debug, Structural)]
pub struct LayerCreateInfo {
    pub s_type: i32,
    pub function: VkLayerFunction,
}

impl LayerCreateInfo {
    /// Whether this is the loader's structure of type `s_type` that
    /// carries the link to the next layer.
    pub open spec fn spec_is_link(self, s_type: i32) -> bool {
        self.s_type == s_type && self.function.0 == VkLayerFunction::VK_LAYER_FUNCTION_LINK
    }

    /// Whether this is the loader's structure of type `s_type` that
    /// carries the link to the next layer.
    #[verifier::when_used_as_spec(spec_is_link)]
    pub fn is_link(self, s_type: i32) -> (link: bool)
        ensures
            link == self.spec_is_link(s_type),
    {
        self.s_type == s_type && self.function.0 == VkLayerFunction::VK_LAYER_FUNCTION_LINK
    }
}

/// Finds the link to the next layer in a chain: the position of the
/// first structure of type `s_type` that carries it.
pub fn find_link(chain: &[LayerCreateInfo], s_type: i32) -> (position: Option<usize>)
    ensures
        match position {
            Some(at) => at < chain@.len() && chain@[at as int].is_link(s_type) && forall|i: int|
                0 <= i < at ==> !(#[trigger] chain@[i]).is_link(s_type),
            None => forall|i: int| 0 <= i < chain@.len() ==> !(#[trigger] chain@[i]).is_link(s_type),
        },
{
    let mut at: usize = 0;
    while at < chain.len()
        invariant
            at <= chain@.len(),
            forall|i: int| 0 <= i < at ==> !(#[trigger] chain@[i]).is_link(s_type),
        decreases chain@.len() - at,
    {
        if slice_index_get(chain, at).is_link(s_type) {
            return Some(at);
        }
        at += 1;
    }
    None
}

/// What creating a device through the layer returns: without a link
/// nothing is created; else the result of the next layer, unless the
/// global kernel could not be acquired for the new device.
pub fn create_device(link: Option<usize>, next_result: i32, kernel_acquired: bool) -> (result: i32)
    ensures
        result == if link.is_some() && kernel_acquired {
            next_result
        } else {
            ERROR_INITIALIZATION_FAILED
        },
{
    if link.is_none() {
        return ERROR_INITIALIZATION_FAILED;
    }
    if kernel_acquired {
        next_result
    } else {
        ERROR_INITIALIZATION_FAILED
    }
}

/// What creating an instance through the layer returns: without a link
/// nothing is created; else the result of the next layer.
pub fn create_instance(link: Option<usize>, next_result: i32) -> (result: i32)
    ensures
        result == if link.is_some() {
            next_result
        } else {
            ERROR_INITIALIZATION_FAILED
        },
{
    if link.is_none() {
        return ERROR_INITIALIZATION_FAILED;
    }
    next_result
}

} // verus!
