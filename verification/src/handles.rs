//! The native handle types that the core carries around without looking inside.

use vstd::prelude::*;

verus! {

/// `ash::vk::Semaphore`, carried as an opaque value.
#[verifier::external_type_specification]
#[verifier::external_body]
pub struct ExSemaphore(ash::vk::Semaphore);

/// `ash::vk::Fence`, carried as an opaque value.
#[verifier::external_type_specification]
#[verifier::external_body]
pub struct ExFence(ash::vk::Fence);

/// `ash::vk::CommandPool`, carried as an opaque value.
#[verifier::external_type_specification]
#[verifier::external_body]
pub struct ExCommandPool(ash::vk::CommandPool);

/// `ash::vk::CommandBuffer`, carried as an opaque value.
#[verifier::external_type_specification]
#[verifier::external_body]
pub struct ExCommandBuffer(ash::vk::CommandBuffer);

/// `ash::vk::Image`, carried as an opaque value.
#[verifier::external_type_specification]
#[verifier::external_body]
pub struct ExImage(ash::vk::Image);

/// `ash::vk::ImageView`, carried as an opaque value.
#[verifier::external_type_specification]
#[verifier::external_body]
pub struct ExImageView(ash::vk::ImageView);

/// `ash::vk::Buffer`, carried as an opaque value.
#[verifier::external_type_specification]
#[verifier::external_body]
pub struct ExBuffer(ash::vk::Buffer);

/// `ash::vk::DeviceMemory`, carried as an opaque value.
#[verifier::external_type_specification]
#[verifier::external_body]
pub struct ExDeviceMemory(ash::vk::DeviceMemory);

/// `ash::vk::ShaderModule`, carried as an opaque value.
#[verifier::external_type_specification]
#[verifier::external_body]
pub struct ExShaderModule(ash::vk::ShaderModule);

/// `ash::vk::DescriptorPool`, carried as an opaque value.
#[verifier::external_type_specification]
#[verifier::external_body]
pub struct ExDescriptorPool(ash::vk::DescriptorPool);

/// `ash::vk::DescriptorSetLayout`, carried as an opaque value.
#[verifier::external_type_specification]
#[verifier::external_body]
pub struct ExDescriptorSetLayout(ash::vk::DescriptorSetLayout);

/// `ash::vk::DescriptorSet`, carried as an opaque value.
#[verifier::external_type_specification]
#[verifier::external_body]
pub struct ExDescriptorSet(ash::vk::DescriptorSet);

/// `ash::vk::Pipeline`, carried as an opaque value.
#[verifier::external_type_specification]
#[verifier::external_body]
pub struct ExPipeline(ash::vk::Pipeline);

/// `ash::vk::PipelineLayout`, carried as an opaque value.
#[verifier::external_type_specification]
#[verifier::external_body]
pub struct ExPipelineLayout(ash::vk::PipelineLayout);

/// `ash::vk::Queue`, carried as an opaque value.
#[verifier::external_type_specification]
#[verifier::external_body]
pub struct ExQueue(ash::vk::Queue);

/// `ash::vk::SwapchainKHR`, carried as an opaque value.
#[verifier::external_type_specification]
#[verifier::external_body]
pub struct ExSwapchainKHR(ash::vk::SwapchainKHR);

/// `ash::vk::SurfaceKHR`, carried as an opaque value.
#[verifier::external_type_specification]
#[verifier::external_body]
pub struct ExSurfaceKHR(ash::vk::SurfaceKHR);

/// `ash::vk::PhysicalDevice`, carried as an opaque value.
#[verifier::external_type_specification]
#[verifier::external_body]
pub struct ExPhysicalDevice(ash::vk::PhysicalDevice);

/// `ash::vk::DebugUtilsMessengerEXT`, carried as an opaque value.
#[verifier::external_type_specification]
#[verifier::external_body]
pub struct ExDebugUtilsMessengerEXT(ash::vk::DebugUtilsMessengerEXT);

/// `gpu_allocator::vulkan::Allocation`: one block of device memory handed out
/// by the allocator, carried as an opaque value.
#[verifier::external_type_specification]
#[verifier::external_body]
pub struct ExAllocation(gpu_allocator::vulkan::Allocation);

/// `gpu_allocator::AllocationError`: why the allocator refused, carried as an
/// opaque value.
#[verifier::external_type_specification]
#[verifier::external_body]
pub struct ExAllocationError(gpu_allocator::AllocationError);

} // verus!
