//! The explicit API outside the DirectX family: the functions that its library exports.
use crate::interface::{append_entries, lists_table, Interface, MethodEntry};
use crate::protocol::tables_match;
use crate::RenderEngine;
use vstd::prelude::*;

verus! {

/// The exported functions, in the order in which they are resolved.
#[allow(non_camel_case_types)]
#[derive(Debug, Clone, Copy, PartialEq, Eq, Structural)]
pub enum VulkanStaticMethods {
    vkCreateInstance,
    vkDestroyInstance,
    vkEnumeratePhysicalDevices,
    vkGetPhysicalDeviceFeatures,
    vkGetPhysicalDeviceFormatProperties,
    vkGetPhysicalDeviceImageFormatProperties,
    vkGetPhysicalDeviceProperties,
    vkGetPhysicalDeviceQueueFamilyProperties,
    vkGetPhysicalDeviceMemoryProperties,
    vkGetInstanceProcAddr,
    vkGetDeviceProcAddr,
    vkCreateDevice,
    vkDestroyDevice,
    vkEnumerateInstanceExtensionProperties,
    vkEnumerateDeviceExtensionProperties,
    vkEnumerateDeviceLayerProperties,
    vkGetDeviceQueue,
    vkQueueSubmit,
    vkQueueWaitIdle,
    vkDeviceWaitIdle,
    vkAllocateMemory,
    vkFreeMemory,
    vkMapMemory,
    vkUnmapMemory,
    vkFlushMappedMemoryRanges,
    vkInvalidateMappedMemoryRanges,
    vkGetDeviceMemoryCommitment,
    vkBindBufferMemory,
    vkBindImageMemory,
    vkGetBufferMemoryRequirements,
    vkGetImageMemoryRequirements,
    vkGetImageSparseMemoryRequirements,
    vkGetPhysicalDeviceSparseImageFormatProperties,
    vkQueueBindSparse,
    vkCreateFence,
    vkDestroyFence,
    vkResetFences,
    vkGetFenceStatus,
    vkWaitForFences,
    vkCreateSemaphore,
    vkDestroySemaphore,
    vkCreateEvent,
    vkDestroyEvent,
    vkGetEventStatus,
    vkSetEvent,
    vkResetEvent,
    vkCreateQueryPool,
    vkDestroyQueryPool,
    vkGetQueryPoolResults,
    vkCreateBuffer,
    vkDestroyBuffer,
    vkCreateBufferView,
    vkDestroyBufferView,
    vkCreateImage,
    vkDestroyImage,
    vkGetImageSubresourceLayout,
    vkCreateImageView,
    vkDestroyImageView,
    vkCreateShaderModule,
    vkDestroyShaderModule,
    vkCreatePipelineCache,
    vkDestroyPipelineCache,
    vkGetPipelineCacheData,
    vkMergePipelineCaches,
    vkCreateGraphicsPipelines,
    vkCreateComputePipelines,
    vkDestroyPipeline,
    vkCreatePipelineLayout,
    vkDestroyPipelineLayout,
    vkCreateSampler,
    vkDestroySampler,
    vkCreateDescriptorSetLayout,
    vkDestroyDescriptorSetLayout,
    vkCreateDescriptorPool,
    vkDestroyDescriptorPool,
    vkResetDescriptorPool,
    vkAllocateDescriptorSets,
    vkFreeDescriptorSets,
    vkUpdateDescriptorSets,
    vkCreateFramebuffer,
    vkDestroyFramebuffer,
    vkCreateRenderPass,
    vkDestroyRenderPass,
    vkGetRenderAreaGranularity,
    vkCreateCommandPool,
    vkDestroyCommandPool,
    vkResetCommandPool,
    vkAllocateCommandBuffers,
    vkFreeCommandBuffers,
    vkBeginCommandBuffer,
    vkEndCommandBuffer,
    vkResetCommandBuffer,
    vkCmdBindPipeline,
    vkCmdSetViewport,
    vkCmdSetScissor,
    vkCmdSetLineWidth,
    vkCmdSetDepthBias,
    vkCmdSetBlendConstants,
    vkCmdSetDepthBounds,
    vkCmdSetStencilCompareMask,
    vkCmdSetStencilWriteMask,
    vkCmdSetStencilReference,
    vkCmdBindDescriptorSets,
    vkCmdBindIndexBuffer,
    vkCmdBindVertexBuffers,
    vkCmdDraw,
    vkCmdDrawIndexed,
    vkCmdDrawIndirect,
    vkCmdDrawIndexedIndirect,
    vkCmdDispatch,
    vkCmdDispatchIndirect,
    vkCmdCopyBuffer,
    vkCmdCopyImage,
    vkCmdBlitImage,
    vkCmdCopyBufferToImage,
    vkCmdCopyImageToBuffer,
    vkCmdUpdateBuffer,
    vkCmdFillBuffer,
    vkCmdClearColorImage,
    vkCmdClearDepthStencilImage,
    vkCmdClearAttachments,
    vkCmdResolveImage,
    vkCmdSetEvent,
    vkCmdResetEvent,
    vkCmdWaitEvents,
    vkCmdPipelineBarrier,
    vkCmdBeginQuery,
    vkCmdEndQuery,
    vkCmdResetQueryPool,
    vkCmdWriteTimestamp,
    vkCmdCopyQueryPoolResults,
    vkCmdPushConstants,
    vkCmdBeginRenderPass,
    vkCmdNextSubpass,
    vkCmdEndRenderPass,
    vkCmdExecuteCommands,
}

impl VulkanStaticMethods {
    /// How many methods the interface declares, and so how many slots its table has.
    pub const COUNT: usize = 136;

    /// The position of the method in the dispatch table.
    pub open spec fn slot(self) -> nat {
        match self {
            Self::vkCreateInstance => 0,
            Self::vkDestroyInstance => 1,
            Self::vkEnumeratePhysicalDevices => 2,
            Self::vkGetPhysicalDeviceFeatures => 3,
            Self::vkGetPhysicalDeviceFormatProperties => 4,
            Self::vkGetPhysicalDeviceImageFormatProperties => 5,
            Self::vkGetPhysicalDeviceProperties => 6,
            Self::vkGetPhysicalDeviceQueueFamilyProperties => 7,
            Self::vkGetPhysicalDeviceMemoryProperties => 8,
            Self::vkGetInstanceProcAddr => 9,
            Self::vkGetDeviceProcAddr => 10,
            Self::vkCreateDevice => 11,
            Self::vkDestroyDevice => 12,
            Self::vkEnumerateInstanceExtensionProperties => 13,
            Self::vkEnumerateDeviceExtensionProperties => 14,
            Self::vkEnumerateDeviceLayerProperties => 15,
            Self::vkGetDeviceQueue => 16,
            Self::vkQueueSubmit => 17,
            Self::vkQueueWaitIdle => 18,
            Self::vkDeviceWaitIdle => 19,
            Self::vkAllocateMemory => 20,
            Self::vkFreeMemory => 21,
            Self::vkMapMemory => 22,
            Self::vkUnmapMemory => 23,
            Self::vkFlushMappedMemoryRanges => 24,
            Self::vkInvalidateMappedMemoryRanges => 25,
            Self::vkGetDeviceMemoryCommitment => 26,
            Self::vkBindBufferMemory => 27,
            Self::vkBindImageMemory => 28,
            Self::vkGetBufferMemoryRequirements => 29,
            Self::vkGetImageMemoryRequirements => 30,
            Self::vkGetImageSparseMemoryRequirements => 31,
            Self::vkGetPhysicalDeviceSparseImageFormatProperties => 32,
            Self::vkQueueBindSparse => 33,
            Self::vkCreateFence => 34,
            Self::vkDestroyFence => 35,
            Self::vkResetFences => 36,
            Self::vkGetFenceStatus => 37,
            Self::vkWaitForFences => 38,
            Self::vkCreateSemaphore => 39,
            Self::vkDestroySemaphore => 40,
            Self::vkCreateEvent => 41,
            Self::vkDestroyEvent => 42,
            Self::vkGetEventStatus => 43,
            Self::vkSetEvent => 44,
            Self::vkResetEvent => 45,
            Self::vkCreateQueryPool => 46,
            Self::vkDestroyQueryPool => 47,
            Self::vkGetQueryPoolResults => 48,
            Self::vkCreateBuffer => 49,
            Self::vkDestroyBuffer => 50,
            Self::vkCreateBufferView => 51,
            Self::vkDestroyBufferView => 52,
            Self::vkCreateImage => 53,
            Self::vkDestroyImage => 54,
            Self::vkGetImageSubresourceLayout => 55,
            Self::vkCreateImageView => 56,
            Self::vkDestroyImageView => 57,
            Self::vkCreateShaderModule => 58,
            Self::vkDestroyShaderModule => 59,
            Self::vkCreatePipelineCache => 60,
            Self::vkDestroyPipelineCache => 61,
            Self::vkGetPipelineCacheData => 62,
            Self::vkMergePipelineCaches => 63,
            Self::vkCreateGraphicsPipelines => 64,
            Self::vkCreateComputePipelines => 65,
            Self::vkDestroyPipeline => 66,
            Self::vkCreatePipelineLayout => 67,
            Self::vkDestroyPipelineLayout => 68,
            Self::vkCreateSampler => 69,
            Self::vkDestroySampler => 70,
            Self::vkCreateDescriptorSetLayout => 71,
            Self::vkDestroyDescriptorSetLayout => 72,
            Self::vkCreateDescriptorPool => 73,
            Self::vkDestroyDescriptorPool => 74,
            Self::vkResetDescriptorPool => 75,
            Self::vkAllocateDescriptorSets => 76,
            Self::vkFreeDescriptorSets => 77,
            Self::vkUpdateDescriptorSets => 78,
            Self::vkCreateFramebuffer => 79,
            Self::vkDestroyFramebuffer => 80,
            Self::vkCreateRenderPass => 81,
            Self::vkDestroyRenderPass => 82,
            Self::vkGetRenderAreaGranularity => 83,
            Self::vkCreateCommandPool => 84,
            Self::vkDestroyCommandPool => 85,
            Self::vkResetCommandPool => 86,
            Self::vkAllocateCommandBuffers => 87,
            Self::vkFreeCommandBuffers => 88,
            Self::vkBeginCommandBuffer => 89,
            Self::vkEndCommandBuffer => 90,
            Self::vkResetCommandBuffer => 91,
            Self::vkCmdBindPipeline => 92,
            Self::vkCmdSetViewport => 93,
            Self::vkCmdSetScissor => 94,
            Self::vkCmdSetLineWidth => 95,
            Self::vkCmdSetDepthBias => 96,
            Self::vkCmdSetBlendConstants => 97,
            Self::vkCmdSetDepthBounds => 98,
            Self::vkCmdSetStencilCompareMask => 99,
            Self::vkCmdSetStencilWriteMask => 100,
            Self::vkCmdSetStencilReference => 101,
            Self::vkCmdBindDescriptorSets => 102,
            Self::vkCmdBindIndexBuffer => 103,
            Self::vkCmdBindVertexBuffers => 104,
            Self::vkCmdDraw => 105,
            Self::vkCmdDrawIndexed => 106,
            Self::vkCmdDrawIndirect => 107,
            Self::vkCmdDrawIndexedIndirect => 108,
            Self::vkCmdDispatch => 109,
            Self::vkCmdDispatchIndirect => 110,
            Self::vkCmdCopyBuffer => 111,
            Self::vkCmdCopyImage => 112,
            Self::vkCmdBlitImage => 113,
            Self::vkCmdCopyBufferToImage => 114,
            Self::vkCmdCopyImageToBuffer => 115,
            Self::vkCmdUpdateBuffer => 116,
            Self::vkCmdFillBuffer => 117,
            Self::vkCmdClearColorImage => 118,
            Self::vkCmdClearDepthStencilImage => 119,
            Self::vkCmdClearAttachments => 120,
            Self::vkCmdResolveImage => 121,
            Self::vkCmdSetEvent => 122,
            Self::vkCmdResetEvent => 123,
            Self::vkCmdWaitEvents => 124,
            Self::vkCmdPipelineBarrier => 125,
            Self::vkCmdBeginQuery => 126,
            Self::vkCmdEndQuery => 127,
            Self::vkCmdResetQueryPool => 128,
            Self::vkCmdWriteTimestamp => 129,
            Self::vkCmdCopyQueryPoolResults => 130,
            Self::vkCmdPushConstants => 131,
            Self::vkCmdBeginRenderPass => 132,
            Self::vkCmdNextSubpass => 133,
            Self::vkCmdEndRenderPass => 134,
            Self::vkCmdExecuteCommands => 135,
        }
    }

    /// The symbolic name of the method.
    pub open spec fn label(self) -> Seq<char> {
        match self {
            Self::vkCreateInstance => "vkCreateInstance"@,
            Self::vkDestroyInstance => "vkDestroyInstance"@,
            Self::vkEnumeratePhysicalDevices => "vkEnumeratePhysicalDevices"@,
            Self::vkGetPhysicalDeviceFeatures => "vkGetPhysicalDeviceFeatures"@,
            Self::vkGetPhysicalDeviceFormatProperties => "vkGetPhysicalDeviceFormatProperties"@,
            Self::vkGetPhysicalDeviceImageFormatProperties => "vkGetPhysicalDeviceImageFormatProperties"@,
            Self::vkGetPhysicalDeviceProperties => "vkGetPhysicalDeviceProperties"@,
            Self::vkGetPhysicalDeviceQueueFamilyProperties => "vkGetPhysicalDeviceQueueFamilyProperties"@,
            Self::vkGetPhysicalDeviceMemoryProperties => "vkGetPhysicalDeviceMemoryProperties"@,
            Self::vkGetInstanceProcAddr => "vkGetInstanceProcAddr"@,
            Self::vkGetDeviceProcAddr => "vkGetDeviceProcAddr"@,
            Self::vkCreateDevice => "vkCreateDevice"@,
            Self::vkDestroyDevice => "vkDestroyDevice"@,
            Self::vkEnumerateInstanceExtensionProperties => "vkEnumerateInstanceExtensionProperties"@,
            Self::vkEnumerateDeviceExtensionProperties => "vkEnumerateDeviceExtensionProperties"@,
            Self::vkEnumerateDeviceLayerProperties => "vkEnumerateDeviceLayerProperties"@,
            Self::vkGetDeviceQueue => "vkGetDeviceQueue"@,
            Self::vkQueueSubmit => "vkQueueSubmit"@,
            Self::vkQueueWaitIdle => "vkQueueWaitIdle"@,
            Self::vkDeviceWaitIdle => "vkDeviceWaitIdle"@,
            Self::vkAllocateMemory => "vkAllocateMemory"@,
            Self::vkFreeMemory => "vkFreeMemory"@,
            Self::vkMapMemory => "vkMapMemory"@,
            Self::vkUnmapMemory => "vkUnmapMemory"@,
            Self::vkFlushMappedMemoryRanges => "vkFlushMappedMemoryRanges"@,
            Self::vkInvalidateMappedMemoryRanges => "vkInvalidateMappedMemoryRanges"@,
            Self::vkGetDeviceMemoryCommitment => "vkGetDeviceMemoryCommitment"@,
            Self::vkBindBufferMemory => "vkBindBufferMemory"@,
            Self::vkBindImageMemory => "vkBindImageMemory"@,
            Self::vkGetBufferMemoryRequirements => "vkGetBufferMemoryRequirements"@,
            Self::vkGetImageMemoryRequirements => "vkGetImageMemoryRequirements"@,
            Self::vkGetImageSparseMemoryRequirements => "vkGetImageSparseMemoryRequirements"@,
            Self::vkGetPhysicalDeviceSparseImageFormatProperties => "vkGetPhysicalDeviceSparseImageFormatProperties"@,
            Self::vkQueueBindSparse => "vkQueueBindSparse"@,
            Self::vkCreateFence => "vkCreateFence"@,
            Self::vkDestroyFence => "vkDestroyFence"@,
            Self::vkResetFences => "vkResetFences"@,
            Self::vkGetFenceStatus => "vkGetFenceStatus"@,
            Self::vkWaitForFences => "vkWaitForFences"@,
            Self::vkCreateSemaphore => "vkCreateSemaphore"@,
            Self::vkDestroySemaphore => "vkDestroySemaphore"@,
            Self::vkCreateEvent => "vkCreateEvent"@,
            Self::vkDestroyEvent => "vkDestroyEvent"@,
            Self::vkGetEventStatus => "vkGetEventStatus"@,
            Self::vkSetEvent => "vkSetEvent"@,
            Self::vkResetEvent => "vkResetEvent"@,
            Self::vkCreateQueryPool => "vkCreateQueryPool"@,
            Self::vkDestroyQueryPool => "vkDestroyQueryPool"@,
            Self::vkGetQueryPoolResults => "vkGetQueryPoolResults"@,
            Self::vkCreateBuffer => "vkCreateBuffer"@,
            Self::vkDestroyBuffer => "vkDestroyBuffer"@,
            Self::vkCreateBufferView => "vkCreateBufferView"@,
            Self::vkDestroyBufferView => "vkDestroyBufferView"@,
            Self::vkCreateImage => "vkCreateImage"@,
            Self::vkDestroyImage => "vkDestroyImage"@,
            Self::vkGetImageSubresourceLayout => "vkGetImageSubresourceLayout"@,
            Self::vkCreateImageView => "vkCreateImageView"@,
            Self::vkDestroyImageView => "vkDestroyImageView"@,
            Self::vkCreateShaderModule => "vkCreateShaderModule"@,
            Self::vkDestroyShaderModule => "vkDestroyShaderModule"@,
            Self::vkCreatePipelineCache => "vkCreatePipelineCache"@,
            Self::vkDestroyPipelineCache => "vkDestroyPipelineCache"@,
            Self::vkGetPipelineCacheData => "vkGetPipelineCacheData"@,
            Self::vkMergePipelineCaches => "vkMergePipelineCaches"@,
            Self::vkCreateGraphicsPipelines => "vkCreateGraphicsPipelines"@,
            Self::vkCreateComputePipelines => "vkCreateComputePipelines"@,
            Self::vkDestroyPipeline => "vkDestroyPipeline"@,
            Self::vkCreatePipelineLayout => "vkCreatePipelineLayout"@,
            Self::vkDestroyPipelineLayout => "vkDestroyPipelineLayout"@,
            Self::vkCreateSampler => "vkCreateSampler"@,
            Self::vkDestroySampler => "vkDestroySampler"@,
            Self::vkCreateDescriptorSetLayout => "vkCreateDescriptorSetLayout"@,
            Self::vkDestroyDescriptorSetLayout => "vkDestroyDescriptorSetLayout"@,
            Self::vkCreateDescriptorPool => "vkCreateDescriptorPool"@,
            Self::vkDestroyDescriptorPool => "vkDestroyDescriptorPool"@,
            Self::vkResetDescriptorPool => "vkResetDescriptorPool"@,
            Self::vkAllocateDescriptorSets => "vkAllocateDescriptorSets"@,
            Self::vkFreeDescriptorSets => "vkFreeDescriptorSets"@,
            Self::vkUpdateDescriptorSets => "vkUpdateDescriptorSets"@,
            Self::vkCreateFramebuffer => "vkCreateFramebuffer"@,
            Self::vkDestroyFramebuffer => "vkDestroyFramebuffer"@,
            Self::vkCreateRenderPass => "vkCreateRenderPass"@,
            Self::vkDestroyRenderPass => "vkDestroyRenderPass"@,
            Self::vkGetRenderAreaGranularity => "vkGetRenderAreaGranularity"@,
            Self::vkCreateCommandPool => "vkCreateCommandPool"@,
            Self::vkDestroyCommandPool => "vkDestroyCommandPool"@,
            Self::vkResetCommandPool => "vkResetCommandPool"@,
            Self::vkAllocateCommandBuffers => "vkAllocateCommandBuffers"@,
            Self::vkFreeCommandBuffers => "vkFreeCommandBuffers"@,
            Self::vkBeginCommandBuffer => "vkBeginCommandBuffer"@,
            Self::vkEndCommandBuffer => "vkEndCommandBuffer"@,
            Self::vkResetCommandBuffer => "vkResetCommandBuffer"@,
            Self::vkCmdBindPipeline => "vkCmdBindPipeline"@,
            Self::vkCmdSetViewport => "vkCmdSetViewport"@,
            Self::vkCmdSetScissor => "vkCmdSetScissor"@,
            Self::vkCmdSetLineWidth => "vkCmdSetLineWidth"@,
            Self::vkCmdSetDepthBias => "vkCmdSetDepthBias"@,
            Self::vkCmdSetBlendConstants => "vkCmdSetBlendConstants"@,
            Self::vkCmdSetDepthBounds => "vkCmdSetDepthBounds"@,
            Self::vkCmdSetStencilCompareMask => "vkCmdSetStencilCompareMask"@,
            Self::vkCmdSetStencilWriteMask => "vkCmdSetStencilWriteMask"@,
            Self::vkCmdSetStencilReference => "vkCmdSetStencilReference"@,
            Self::vkCmdBindDescriptorSets => "vkCmdBindDescriptorSets"@,
            Self::vkCmdBindIndexBuffer => "vkCmdBindIndexBuffer"@,
            Self::vkCmdBindVertexBuffers => "vkCmdBindVertexBuffers"@,
            Self::vkCmdDraw => "vkCmdDraw"@,
            Self::vkCmdDrawIndexed => "vkCmdDrawIndexed"@,
            Self::vkCmdDrawIndirect => "vkCmdDrawIndirect"@,
            Self::vkCmdDrawIndexedIndirect => "vkCmdDrawIndexedIndirect"@,
            Self::vkCmdDispatch => "vkCmdDispatch"@,
            Self::vkCmdDispatchIndirect => "vkCmdDispatchIndirect"@,
            Self::vkCmdCopyBuffer => "vkCmdCopyBuffer"@,
            Self::vkCmdCopyImage => "vkCmdCopyImage"@,
            Self::vkCmdBlitImage => "vkCmdBlitImage"@,
            Self::vkCmdCopyBufferToImage => "vkCmdCopyBufferToImage"@,
            Self::vkCmdCopyImageToBuffer => "vkCmdCopyImageToBuffer"@,
            Self::vkCmdUpdateBuffer => "vkCmdUpdateBuffer"@,
            Self::vkCmdFillBuffer => "vkCmdFillBuffer"@,
            Self::vkCmdClearColorImage => "vkCmdClearColorImage"@,
            Self::vkCmdClearDepthStencilImage => "vkCmdClearDepthStencilImage"@,
            Self::vkCmdClearAttachments => "vkCmdClearAttachments"@,
            Self::vkCmdResolveImage => "vkCmdResolveImage"@,
            Self::vkCmdSetEvent => "vkCmdSetEvent"@,
            Self::vkCmdResetEvent => "vkCmdResetEvent"@,
            Self::vkCmdWaitEvents => "vkCmdWaitEvents"@,
            Self::vkCmdPipelineBarrier => "vkCmdPipelineBarrier"@,
            Self::vkCmdBeginQuery => "vkCmdBeginQuery"@,
            Self::vkCmdEndQuery => "vkCmdEndQuery"@,
            Self::vkCmdResetQueryPool => "vkCmdResetQueryPool"@,
            Self::vkCmdWriteTimestamp => "vkCmdWriteTimestamp"@,
            Self::vkCmdCopyQueryPoolResults => "vkCmdCopyQueryPoolResults"@,
            Self::vkCmdPushConstants => "vkCmdPushConstants"@,
            Self::vkCmdBeginRenderPass => "vkCmdBeginRenderPass"@,
            Self::vkCmdNextSubpass => "vkCmdNextSubpass"@,
            Self::vkCmdEndRenderPass => "vkCmdEndRenderPass"@,
            Self::vkCmdExecuteCommands => "vkCmdExecuteCommands"@,
        }
    }

    /// The method that stands at position `i`, where the table has such a position.
    pub open spec fn at(i: nat) -> Option<Self> {
        if exists|m: Self| m.slot() == i {
            Some(choose|m: Self| m.slot() == i)
        } else {
            None
        }
    }

    /// The position of the method in the dispatch table.
    pub fn ordinal(&self) -> (i: usize)
        ensures
            i == self.slot(),
            i < Self::COUNT,
    {
        match self {
            Self::vkCreateInstance => 0,
            Self::vkDestroyInstance => 1,
            Self::vkEnumeratePhysicalDevices => 2,
            Self::vkGetPhysicalDeviceFeatures => 3,
            Self::vkGetPhysicalDeviceFormatProperties => 4,
            Self::vkGetPhysicalDeviceImageFormatProperties => 5,
            Self::vkGetPhysicalDeviceProperties => 6,
            Self::vkGetPhysicalDeviceQueueFamilyProperties => 7,
            Self::vkGetPhysicalDeviceMemoryProperties => 8,
            Self::vkGetInstanceProcAddr => 9,
            Self::vkGetDeviceProcAddr => 10,
            Self::vkCreateDevice => 11,
            Self::vkDestroyDevice => 12,
            Self::vkEnumerateInstanceExtensionProperties => 13,
            Self::vkEnumerateDeviceExtensionProperties => 14,
            Self::vkEnumerateDeviceLayerProperties => 15,
            Self::vkGetDeviceQueue => 16,
            Self::vkQueueSubmit => 17,
            Self::vkQueueWaitIdle => 18,
            Self::vkDeviceWaitIdle => 19,
            Self::vkAllocateMemory => 20,
            Self::vkFreeMemory => 21,
            Self::vkMapMemory => 22,
            Self::vkUnmapMemory => 23,
            Self::vkFlushMappedMemoryRanges => 24,
            Self::vkInvalidateMappedMemoryRanges => 25,
            Self::vkGetDeviceMemoryCommitment => 26,
            Self::vkBindBufferMemory => 27,
            Self::vkBindImageMemory => 28,
            Self::vkGetBufferMemoryRequirements => 29,
            Self::vkGetImageMemoryRequirements => 30,
            Self::vkGetImageSparseMemoryRequirements => 31,
            Self::vkGetPhysicalDeviceSparseImageFormatProperties => 32,
            Self::vkQueueBindSparse => 33,
            Self::vkCreateFence => 34,
            Self::vkDestroyFence => 35,
            Self::vkResetFences => 36,
            Self::vkGetFenceStatus => 37,
            Self::vkWaitForFences => 38,
            Self::vkCreateSemaphore => 39,
            Self::vkDestroySemaphore => 40,
            Self::vkCreateEvent => 41,
            Self::vkDestroyEvent => 42,
            Self::vkGetEventStatus => 43,
            Self::vkSetEvent => 44,
            Self::vkResetEvent => 45,
            Self::vkCreateQueryPool => 46,
            Self::vkDestroyQueryPool => 47,
            Self::vkGetQueryPoolResults => 48,
            Self::vkCreateBuffer => 49,
            Self::vkDestroyBuffer => 50,
            Self::vkCreateBufferView => 51,
            Self::vkDestroyBufferView => 52,
            Self::vkCreateImage => 53,
            Self::vkDestroyImage => 54,
            Self::vkGetImageSubresourceLayout => 55,
            Self::vkCreateImageView => 56,
            Self::vkDestroyImageView => 57,
            Self::vkCreateShaderModule => 58,
            Self::vkDestroyShaderModule => 59,
            Self::vkCreatePipelineCache => 60,
            Self::vkDestroyPipelineCache => 61,
            Self::vkGetPipelineCacheData => 62,
            Self::vkMergePipelineCaches => 63,
            Self::vkCreateGraphicsPipelines => 64,
            Self::vkCreateComputePipelines => 65,
            Self::vkDestroyPipeline => 66,
            Self::vkCreatePipelineLayout => 67,
            Self::vkDestroyPipelineLayout => 68,
            Self::vkCreateSampler => 69,
            Self::vkDestroySampler => 70,
            Self::vkCreateDescriptorSetLayout => 71,
            Self::vkDestroyDescriptorSetLayout => 72,
            Self::vkCreateDescriptorPool => 73,
            Self::vkDestroyDescriptorPool => 74,
            Self::vkResetDescriptorPool => 75,
            Self::vkAllocateDescriptorSets => 76,
            Self::vkFreeDescriptorSets => 77,
            Self::vkUpdateDescriptorSets => 78,
            Self::vkCreateFramebuffer => 79,
            Self::vkDestroyFramebuffer => 80,
            Self::vkCreateRenderPass => 81,
            Self::vkDestroyRenderPass => 82,
            Self::vkGetRenderAreaGranularity => 83,
            Self::vkCreateCommandPool => 84,
            Self::vkDestroyCommandPool => 85,
            Self::vkResetCommandPool => 86,
            Self::vkAllocateCommandBuffers => 87,
            Self::vkFreeCommandBuffers => 88,
            Self::vkBeginCommandBuffer => 89,
            Self::vkEndCommandBuffer => 90,
            Self::vkResetCommandBuffer => 91,
            Self::vkCmdBindPipeline => 92,
            Self::vkCmdSetViewport => 93,
            Self::vkCmdSetScissor => 94,
            Self::vkCmdSetLineWidth => 95,
            Self::vkCmdSetDepthBias => 96,
            Self::vkCmdSetBlendConstants => 97,
            Self::vkCmdSetDepthBounds => 98,
            Self::vkCmdSetStencilCompareMask => 99,
            Self::vkCmdSetStencilWriteMask => 100,
            Self::vkCmdSetStencilReference => 101,
            Self::vkCmdBindDescriptorSets => 102,
            Self::vkCmdBindIndexBuffer => 103,
            Self::vkCmdBindVertexBuffers => 104,
            Self::vkCmdDraw => 105,
            Self::vkCmdDrawIndexed => 106,
            Self::vkCmdDrawIndirect => 107,
            Self::vkCmdDrawIndexedIndirect => 108,
            Self::vkCmdDispatch => 109,
            Self::vkCmdDispatchIndirect => 110,
            Self::vkCmdCopyBuffer => 111,
            Self::vkCmdCopyImage => 112,
            Self::vkCmdBlitImage => 113,
            Self::vkCmdCopyBufferToImage => 114,
            Self::vkCmdCopyImageToBuffer => 115,
            Self::vkCmdUpdateBuffer => 116,
            Self::vkCmdFillBuffer => 117,
            Self::vkCmdClearColorImage => 118,
            Self::vkCmdClearDepthStencilImage => 119,
            Self::vkCmdClearAttachments => 120,
            Self::vkCmdResolveImage => 121,
            Self::vkCmdSetEvent => 122,
            Self::vkCmdResetEvent => 123,
            Self::vkCmdWaitEvents => 124,
            Self::vkCmdPipelineBarrier => 125,
            Self::vkCmdBeginQuery => 126,
            Self::vkCmdEndQuery => 127,
            Self::vkCmdResetQueryPool => 128,
            Self::vkCmdWriteTimestamp => 129,
            Self::vkCmdCopyQueryPoolResults => 130,
            Self::vkCmdPushConstants => 131,
            Self::vkCmdBeginRenderPass => 132,
            Self::vkCmdNextSubpass => 133,
            Self::vkCmdEndRenderPass => 134,
            Self::vkCmdExecuteCommands => 135,
        }
    }

    /// The method that stands at a position of the dispatch table, if the table is that long.
    pub fn from_ordinal(i: usize) -> (method: Option<Self>)
        ensures
            method == Self::at(i as nat),
            method is Some <==> i < Self::COUNT,
    {
        let method = match i {
            0 => Some(Self::vkCreateInstance),
            1 => Some(Self::vkDestroyInstance),
            2 => Some(Self::vkEnumeratePhysicalDevices),
            3 => Some(Self::vkGetPhysicalDeviceFeatures),
            4 => Some(Self::vkGetPhysicalDeviceFormatProperties),
            5 => Some(Self::vkGetPhysicalDeviceImageFormatProperties),
            6 => Some(Self::vkGetPhysicalDeviceProperties),
            7 => Some(Self::vkGetPhysicalDeviceQueueFamilyProperties),
            8 => Some(Self::vkGetPhysicalDeviceMemoryProperties),
            9 => Some(Self::vkGetInstanceProcAddr),
            10 => Some(Self::vkGetDeviceProcAddr),
            11 => Some(Self::vkCreateDevice),
            12 => Some(Self::vkDestroyDevice),
            13 => Some(Self::vkEnumerateInstanceExtensionProperties),
            14 => Some(Self::vkEnumerateDeviceExtensionProperties),
            15 => Some(Self::vkEnumerateDeviceLayerProperties),
            16 => Some(Self::vkGetDeviceQueue),
            17 => Some(Self::vkQueueSubmit),
            18 => Some(Self::vkQueueWaitIdle),
            19 => Some(Self::vkDeviceWaitIdle),
            20 => Some(Self::vkAllocateMemory),
            21 => Some(Self::vkFreeMemory),
            22 => Some(Self::vkMapMemory),
            23 => Some(Self::vkUnmapMemory),
            24 => Some(Self::vkFlushMappedMemoryRanges),
            25 => Some(Self::vkInvalidateMappedMemoryRanges),
            26 => Some(Self::vkGetDeviceMemoryCommitment),
            27 => Some(Self::vkBindBufferMemory),
            28 => Some(Self::vkBindImageMemory),
            29 => Some(Self::vkGetBufferMemoryRequirements),
            30 => Some(Self::vkGetImageMemoryRequirements),
            31 => Some(Self::vkGetImageSparseMemoryRequirements),
            32 => Some(Self::vkGetPhysicalDeviceSparseImageFormatProperties),
            33 => Some(Self::vkQueueBindSparse),
            34 => Some(Self::vkCreateFence),
            35 => Some(Self::vkDestroyFence),
            36 => Some(Self::vkResetFences),
            37 => Some(Self::vkGetFenceStatus),
            38 => Some(Self::vkWaitForFences),
            39 => Some(Self::vkCreateSemaphore),
            40 => Some(Self::vkDestroySemaphore),
            41 => Some(Self::vkCreateEvent),
            42 => Some(Self::vkDestroyEvent),
            43 => Some(Self::vkGetEventStatus),
            44 => Some(Self::vkSetEvent),
            45 => Some(Self::vkResetEvent),
            46 => Some(Self::vkCreateQueryPool),
            47 => Some(Self::vkDestroyQueryPool),
            48 => Some(Self::vkGetQueryPoolResults),
            49 => Some(Self::vkCreateBuffer),
            50 => Some(Self::vkDestroyBuffer),
            51 => Some(Self::vkCreateBufferView),
            52 => Some(Self::vkDestroyBufferView),
            53 => Some(Self::vkCreateImage),
            54 => Some(Self::vkDestroyImage),
            55 => Some(Self::vkGetImageSubresourceLayout),
            56 => Some(Self::vkCreateImageView),
            57 => Some(Self::vkDestroyImageView),
            58 => Some(Self::vkCreateShaderModule),
            59 => Some(Self::vkDestroyShaderModule),
            60 => Some(Self::vkCreatePipelineCache),
            61 => Some(Self::vkDestroyPipelineCache),
            62 => Some(Self::vkGetPipelineCacheData),
            63 => Some(Self::vkMergePipelineCaches),
            64 => Some(Self::vkCreateGraphicsPipelines),
            65 => Some(Self::vkCreateComputePipelines),
            66 => Some(Self::vkDestroyPipeline),
            67 => Some(Self::vkCreatePipelineLayout),
            68 => Some(Self::vkDestroyPipelineLayout),
            69 => Some(Self::vkCreateSampler),
            70 => Some(Self::vkDestroySampler),
            71 => Some(Self::vkCreateDescriptorSetLayout),
            72 => Some(Self::vkDestroyDescriptorSetLayout),
            73 => Some(Self::vkCreateDescriptorPool),
            74 => Some(Self::vkDestroyDescriptorPool),
            75 => Some(Self::vkResetDescriptorPool),
            76 => Some(Self::vkAllocateDescriptorSets),
            77 => Some(Self::vkFreeDescriptorSets),
            78 => Some(Self::vkUpdateDescriptorSets),
            79 => Some(Self::vkCreateFramebuffer),
            80 => Some(Self::vkDestroyFramebuffer),
            81 => Some(Self::vkCreateRenderPass),
            82 => Some(Self::vkDestroyRenderPass),
            83 => Some(Self::vkGetRenderAreaGranularity),
            84 => Some(Self::vkCreateCommandPool),
            85 => Some(Self::vkDestroyCommandPool),
            86 => Some(Self::vkResetCommandPool),
            87 => Some(Self::vkAllocateCommandBuffers),
            88 => Some(Self::vkFreeCommandBuffers),
            89 => Some(Self::vkBeginCommandBuffer),
            90 => Some(Self::vkEndCommandBuffer),
            91 => Some(Self::vkResetCommandBuffer),
            92 => Some(Self::vkCmdBindPipeline),
            93 => Some(Self::vkCmdSetViewport),
            94 => Some(Self::vkCmdSetScissor),
            95 => Some(Self::vkCmdSetLineWidth),
            96 => Some(Self::vkCmdSetDepthBias),
            97 => Some(Self::vkCmdSetBlendConstants),
            98 => Some(Self::vkCmdSetDepthBounds),
            99 => Some(Self::vkCmdSetStencilCompareMask),
            100 => Some(Self::vkCmdSetStencilWriteMask),
            101 => Some(Self::vkCmdSetStencilReference),
            102 => Some(Self::vkCmdBindDescriptorSets),
            103 => Some(Self::vkCmdBindIndexBuffer),
            104 => Some(Self::vkCmdBindVertexBuffers),
            105 => Some(Self::vkCmdDraw),
            106 => Some(Self::vkCmdDrawIndexed),
            107 => Some(Self::vkCmdDrawIndirect),
            108 => Some(Self::vkCmdDrawIndexedIndirect),
            109 => Some(Self::vkCmdDispatch),
            110 => Some(Self::vkCmdDispatchIndirect),
            111 => Some(Self::vkCmdCopyBuffer),
            112 => Some(Self::vkCmdCopyImage),
            113 => Some(Self::vkCmdBlitImage),
            114 => Some(Self::vkCmdCopyBufferToImage),
            115 => Some(Self::vkCmdCopyImageToBuffer),
            116 => Some(Self::vkCmdUpdateBuffer),
            117 => Some(Self::vkCmdFillBuffer),
            118 => Some(Self::vkCmdClearColorImage),
            119 => Some(Self::vkCmdClearDepthStencilImage),
            120 => Some(Self::vkCmdClearAttachments),
            121 => Some(Self::vkCmdResolveImage),
            122 => Some(Self::vkCmdSetEvent),
            123 => Some(Self::vkCmdResetEvent),
            124 => Some(Self::vkCmdWaitEvents),
            125 => Some(Self::vkCmdPipelineBarrier),
            126 => Some(Self::vkCmdBeginQuery),
            127 => Some(Self::vkCmdEndQuery),
            128 => Some(Self::vkCmdResetQueryPool),
            129 => Some(Self::vkCmdWriteTimestamp),
            130 => Some(Self::vkCmdCopyQueryPoolResults),
            131 => Some(Self::vkCmdPushConstants),
            132 => Some(Self::vkCmdBeginRenderPass),
            133 => Some(Self::vkCmdNextSubpass),
            134 => Some(Self::vkCmdEndRenderPass),
            135 => Some(Self::vkCmdExecuteCommands),
            _ => None,
        };
        proof {
            if let Some(m) = method {
                assert(m.slot() == i);
            }
        }
        method
    }

    /// The symbolic name of the method.
    pub fn name(&self) -> (s: &'static str)
        ensures
            s@ == self.label(),
    {
        match self {
            Self::vkCreateInstance => "vkCreateInstance",
            Self::vkDestroyInstance => "vkDestroyInstance",
            Self::vkEnumeratePhysicalDevices => "vkEnumeratePhysicalDevices",
            Self::vkGetPhysicalDeviceFeatures => "vkGetPhysicalDeviceFeatures",
            Self::vkGetPhysicalDeviceFormatProperties => "vkGetPhysicalDeviceFormatProperties",
            Self::vkGetPhysicalDeviceImageFormatProperties => "vkGetPhysicalDeviceImageFormatProperties",
            Self::vkGetPhysicalDeviceProperties => "vkGetPhysicalDeviceProperties",
            Self::vkGetPhysicalDeviceQueueFamilyProperties => "vkGetPhysicalDeviceQueueFamilyProperties",
            Self::vkGetPhysicalDeviceMemoryProperties => "vkGetPhysicalDeviceMemoryProperties",
            Self::vkGetInstanceProcAddr => "vkGetInstanceProcAddr",
            Self::vkGetDeviceProcAddr => "vkGetDeviceProcAddr",
            Self::vkCreateDevice => "vkCreateDevice",
            Self::vkDestroyDevice => "vkDestroyDevice",
            Self::vkEnumerateInstanceExtensionProperties => "vkEnumerateInstanceExtensionProperties",
            Self::vkEnumerateDeviceExtensionProperties => "vkEnumerateDeviceExtensionProperties",
            Self::vkEnumerateDeviceLayerProperties => "vkEnumerateDeviceLayerProperties",
            Self::vkGetDeviceQueue => "vkGetDeviceQueue",
            Self::vkQueueSubmit => "vkQueueSubmit",
            Self::vkQueueWaitIdle => "vkQueueWaitIdle",
            Self::vkDeviceWaitIdle => "vkDeviceWaitIdle",
            Self::vkAllocateMemory => "vkAllocateMemory",
            Self::vkFreeMemory => "vkFreeMemory",
            Self::vkMapMemory => "vkMapMemory",
            Self::vkUnmapMemory => "vkUnmapMemory",
            Self::vkFlushMappedMemoryRanges => "vkFlushMappedMemoryRanges",
            Self::vkInvalidateMappedMemoryRanges => "vkInvalidateMappedMemoryRanges",
            Self::vkGetDeviceMemoryCommitment => "vkGetDeviceMemoryCommitment",
            Self::vkBindBufferMemory => "vkBindBufferMemory",
            Self::vkBindImageMemory => "vkBindImageMemory",
            Self::vkGetBufferMemoryRequirements => "vkGetBufferMemoryRequirements",
            Self::vkGetImageMemoryRequirements => "vkGetImageMemoryRequirements",
            Self::vkGetImageSparseMemoryRequirements => "vkGetImageSparseMemoryRequirements",
            Self::vkGetPhysicalDeviceSparseImageFormatProperties => "vkGetPhysicalDeviceSparseImageFormatProperties",
            Self::vkQueueBindSparse => "vkQueueBindSparse",
            Self::vkCreateFence => "vkCreateFence",
            Self::vkDestroyFence => "vkDestroyFence",
            Self::vkResetFences => "vkResetFences",
            Self::vkGetFenceStatus => "vkGetFenceStatus",
            Self::vkWaitForFences => "vkWaitForFences",
            Self::vkCreateSemaphore => "vkCreateSemaphore",
            Self::vkDestroySemaphore => "vkDestroySemaphore",
            Self::vkCreateEvent => "vkCreateEvent",
            Self::vkDestroyEvent => "vkDestroyEvent",
            Self::vkGetEventStatus => "vkGetEventStatus",
            Self::vkSetEvent => "vkSetEvent",
            Self::vkResetEvent => "vkResetEvent",
            Self::vkCreateQueryPool => "vkCreateQueryPool",
            Self::vkDestroyQueryPool => "vkDestroyQueryPool",
            Self::vkGetQueryPoolResults => "vkGetQueryPoolResults",
            Self::vkCreateBuffer => "vkCreateBuffer",
            Self::vkDestroyBuffer => "vkDestroyBuffer",
            Self::vkCreateBufferView => "vkCreateBufferView",
            Self::vkDestroyBufferView => "vkDestroyBufferView",
            Self::vkCreateImage => "vkCreateImage",
            Self::vkDestroyImage => "vkDestroyImage",
            Self::vkGetImageSubresourceLayout => "vkGetImageSubresourceLayout",
            Self::vkCreateImageView => "vkCreateImageView",
            Self::vkDestroyImageView => "vkDestroyImageView",
            Self::vkCreateShaderModule => "vkCreateShaderModule",
            Self::vkDestroyShaderModule => "vkDestroyShaderModule",
            Self::vkCreatePipelineCache => "vkCreatePipelineCache",
            Self::vkDestroyPipelineCache => "vkDestroyPipelineCache",
            Self::vkGetPipelineCacheData => "vkGetPipelineCacheData",
            Self::vkMergePipelineCaches => "vkMergePipelineCaches",
            Self::vkCreateGraphicsPipelines => "vkCreateGraphicsPipelines",
            Self::vkCreateComputePipelines => "vkCreateComputePipelines",
            Self::vkDestroyPipeline => "vkDestroyPipeline",
            Self::vkCreatePipelineLayout => "vkCreatePipelineLayout",
            Self::vkDestroyPipelineLayout => "vkDestroyPipelineLayout",
            Self::vkCreateSampler => "vkCreateSampler",
            Self::vkDestroySampler => "vkDestroySampler",
            Self::vkCreateDescriptorSetLayout => "vkCreateDescriptorSetLayout",
            Self::vkDestroyDescriptorSetLayout => "vkDestroyDescriptorSetLayout",
            Self::vkCreateDescriptorPool => "vkCreateDescriptorPool",
            Self::vkDestroyDescriptorPool => "vkDestroyDescriptorPool",
            Self::vkResetDescriptorPool => "vkResetDescriptorPool",
            Self::vkAllocateDescriptorSets => "vkAllocateDescriptorSets",
            Self::vkFreeDescriptorSets => "vkFreeDescriptorSets",
            Self::vkUpdateDescriptorSets => "vkUpdateDescriptorSets",
            Self::vkCreateFramebuffer => "vkCreateFramebuffer",
            Self::vkDestroyFramebuffer => "vkDestroyFramebuffer",
            Self::vkCreateRenderPass => "vkCreateRenderPass",
            Self::vkDestroyRenderPass => "vkDestroyRenderPass",
            Self::vkGetRenderAreaGranularity => "vkGetRenderAreaGranularity",
            Self::vkCreateCommandPool => "vkCreateCommandPool",
            Self::vkDestroyCommandPool => "vkDestroyCommandPool",
            Self::vkResetCommandPool => "vkResetCommandPool",
            Self::vkAllocateCommandBuffers => "vkAllocateCommandBuffers",
            Self::vkFreeCommandBuffers => "vkFreeCommandBuffers",
            Self::vkBeginCommandBuffer => "vkBeginCommandBuffer",
            Self::vkEndCommandBuffer => "vkEndCommandBuffer",
            Self::vkResetCommandBuffer => "vkResetCommandBuffer",
            Self::vkCmdBindPipeline => "vkCmdBindPipeline",
            Self::vkCmdSetViewport => "vkCmdSetViewport",
            Self::vkCmdSetScissor => "vkCmdSetScissor",
            Self::vkCmdSetLineWidth => "vkCmdSetLineWidth",
            Self::vkCmdSetDepthBias => "vkCmdSetDepthBias",
            Self::vkCmdSetBlendConstants => "vkCmdSetBlendConstants",
            Self::vkCmdSetDepthBounds => "vkCmdSetDepthBounds",
            Self::vkCmdSetStencilCompareMask => "vkCmdSetStencilCompareMask",
            Self::vkCmdSetStencilWriteMask => "vkCmdSetStencilWriteMask",
            Self::vkCmdSetStencilReference => "vkCmdSetStencilReference",
            Self::vkCmdBindDescriptorSets => "vkCmdBindDescriptorSets",
            Self::vkCmdBindIndexBuffer => "vkCmdBindIndexBuffer",
            Self::vkCmdBindVertexBuffers => "vkCmdBindVertexBuffers",
            Self::vkCmdDraw => "vkCmdDraw",
            Self::vkCmdDrawIndexed => "vkCmdDrawIndexed",
            Self::vkCmdDrawIndirect => "vkCmdDrawIndirect",
            Self::vkCmdDrawIndexedIndirect => "vkCmdDrawIndexedIndirect",
            Self::vkCmdDispatch => "vkCmdDispatch",
            Self::vkCmdDispatchIndirect => "vkCmdDispatchIndirect",
            Self::vkCmdCopyBuffer => "vkCmdCopyBuffer",
            Self::vkCmdCopyImage => "vkCmdCopyImage",
            Self::vkCmdBlitImage => "vkCmdBlitImage",
            Self::vkCmdCopyBufferToImage => "vkCmdCopyBufferToImage",
            Self::vkCmdCopyImageToBuffer => "vkCmdCopyImageToBuffer",
            Self::vkCmdUpdateBuffer => "vkCmdUpdateBuffer",
            Self::vkCmdFillBuffer => "vkCmdFillBuffer",
            Self::vkCmdClearColorImage => "vkCmdClearColorImage",
            Self::vkCmdClearDepthStencilImage => "vkCmdClearDepthStencilImage",
            Self::vkCmdClearAttachments => "vkCmdClearAttachments",
            Self::vkCmdResolveImage => "vkCmdResolveImage",
            Self::vkCmdSetEvent => "vkCmdSetEvent",
            Self::vkCmdResetEvent => "vkCmdResetEvent",
            Self::vkCmdWaitEvents => "vkCmdWaitEvents",
            Self::vkCmdPipelineBarrier => "vkCmdPipelineBarrier",
            Self::vkCmdBeginQuery => "vkCmdBeginQuery",
            Self::vkCmdEndQuery => "vkCmdEndQuery",
            Self::vkCmdResetQueryPool => "vkCmdResetQueryPool",
            Self::vkCmdWriteTimestamp => "vkCmdWriteTimestamp",
            Self::vkCmdCopyQueryPoolResults => "vkCmdCopyQueryPoolResults",
            Self::vkCmdPushConstants => "vkCmdPushConstants",
            Self::vkCmdBeginRenderPass => "vkCmdBeginRenderPass",
            Self::vkCmdNextSubpass => "vkCmdNextSubpass",
            Self::vkCmdEndRenderPass => "vkCmdEndRenderPass",
            Self::vkCmdExecuteCommands => "vkCmdExecuteCommands",
        }
    }

    /// Every method stands at its own position, and that position is in the table.
    pub proof fn lemma_at_slot(method: Self)
        ensures
            Self::at(method.slot()) == Some(method),
            method.slot() < Self::COUNT,
    {
    }

    /// No two methods share a position.
    pub proof fn lemma_slot_injective(a: Self, b: Self)
        requires
            a.slot() == b.slot(),
        ensures
            a == b,
    {
    }
}

/// The addresses of the exported functions that a bootstrap resolves.
#[derive(Debug, PartialEq, Eq)]
pub struct VulkanMethods {
    static_methods: Vec<usize>,
}

impl VulkanMethods {
    /// The tables, in the order in which a bootstrap reads them.
    pub closed spec fn tables(&self) -> Seq<Seq<usize>> {
        seq![self.static_methods@]
    }

    #[verifier::type_invariant]
    spec fn every_table_is_complete(&self) -> bool {
        &&& self.static_methods@.len() == VulkanStaticMethods::COUNT
    }

    /// Puts the tables together, where each is as long as its interface declares.
    pub fn new(static_methods: Vec<usize>) -> (methods: Option<Self>)
        ensures
            methods is Some <==> static_methods@.len() == VulkanStaticMethods::COUNT,
            methods matches Some(m) ==> m.tables() == seq![static_methods@],
            methods matches Some(m) ==> tables_match(RenderEngine::Vulkan, m.tables()),
    {
        if static_methods.len() == VulkanStaticMethods::COUNT {
            let methods = VulkanMethods { static_methods };
            proof {
                lemma_layout(methods.tables());
            }
            Some(methods)
        } else {
            None
        }
    }

    /// The addresses of the exported functions.
    pub fn static_methods(&self) -> (table: &Vec<usize>)
        ensures
            table@ == self.tables()[0],
            table@.len() == VulkanStaticMethods::COUNT,
    {
        proof {
            use_type_invariant(self);
        }
        &self.static_methods
    }

    /// Whether `listing` lists every slot of every table with the name of its
    /// method, table after table, the lines numbered through.
    pub open spec fn listed(&self, listing: Seq<MethodEntry>) -> bool {
        &&& listing.len() == VulkanStaticMethods::COUNT
        &&& lists_table(listing, 0, Interface::VulkanStatic, self.tables()[0])
    }

    /// Lists every slot of every table with the name of its method.
    pub fn entries(&self) -> (listing: Vec<MethodEntry>)
        ensures
            self.listed(listing@),
    {
        proof {
            use_type_invariant(self);
        }
        let mut listing: Vec<MethodEntry> = Vec::new();
        append_entries(&mut listing, Interface::VulkanStatic, &self.static_methods);
        listing
    }
}

/// Tables of the declared lengths are the tables of the backend's layout.
proof fn lemma_layout(tables: Seq<Seq<usize>>)
    requires
        tables.len() == 1,
        tables[0].len() == VulkanStaticMethods::COUNT,
    ensures
        tables_match(RenderEngine::Vulkan, tables),
{
}

} // verus!
