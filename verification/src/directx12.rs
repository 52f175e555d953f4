//! The explicit generation: device, command queue, command allocator, command
//! list and swapchain.
use crate::interface::{append_entries, lists_table, Interface, MethodEntry};
use crate::protocol::tables_match;
use crate::RenderEngine;
use vstd::prelude::*;

verus! {

/// The methods of the device, in the order of its dispatch table.
#[derive(Debug, Clone, Copy, PartialEq, Eq, Structural)]
pub enum DirectX12DeviceMethods {
    QueryInterface,
    AddRef,
    Release,
    GetPrivateData,
    SetPrivateData,
    SetPrivateDataInterface,
    SetName,
    GetNodeCount,
    CreateCommandQueue,
    CreateCommandAllocator,
    CreateGraphicsPipelineState,
    CreateComputePipelineState,
    CreateCommandList,
    CheckFeatureSupport,
    CreateDescriptorHeap,
    GetDescriptorHandleIncrementSize,
    CreateRootSignature,
    CreateConstantBufferView,
    CreateShaderResourceView,
    CreateUnorderedAccessView,
    CreateRenderTargetView,
    CreateDepthStencilView,
    CreateSampler,
    CopyDescriptors,
    CopyDescriptorsSimple,
    GetResourceAllocationInfo,
    GetCustomHeapProperties,
    CreateCommittedResource,
    CreateHeap,
    CreatePlacedResource,
    CreateReservedResource,
    CreateSharedHandle,
    OpenSharedHandle,
    OpenSharedHandleByName,
    MakeResident,
    Evict,
    CreateFence,
    GetDeviceRemovedReason,
    GetCopyableFootprints,
    CreateQueryHeap,
    SetStablePowerState,
    CreateCommandSignature,
    GetResourceTiling,
    GetAdapterLuid,
}

impl DirectX12DeviceMethods {
    /// How many methods the interface declares, and so how many slots its table has.
    pub const COUNT: usize = 44;

    /// The position of the method in the dispatch table.
    pub open spec fn slot(self) -> nat {
        match self {
            Self::QueryInterface => 0,
            Self::AddRef => 1,
            Self::Release => 2,
            Self::GetPrivateData => 3,
            Self::SetPrivateData => 4,
            Self::SetPrivateDataInterface => 5,
            Self::SetName => 6,
            Self::GetNodeCount => 7,
            Self::CreateCommandQueue => 8,
            Self::CreateCommandAllocator => 9,
            Self::CreateGraphicsPipelineState => 10,
            Self::CreateComputePipelineState => 11,
            Self::CreateCommandList => 12,
            Self::CheckFeatureSupport => 13,
            Self::CreateDescriptorHeap => 14,
            Self::GetDescriptorHandleIncrementSize => 15,
            Self::CreateRootSignature => 16,
            Self::CreateConstantBufferView => 17,
            Self::CreateShaderResourceView => 18,
            Self::CreateUnorderedAccessView => 19,
            Self::CreateRenderTargetView => 20,
            Self::CreateDepthStencilView => 21,
            Self::CreateSampler => 22,
            Self::CopyDescriptors => 23,
            Self::CopyDescriptorsSimple => 24,
            Self::GetResourceAllocationInfo => 25,
            Self::GetCustomHeapProperties => 26,
            Self::CreateCommittedResource => 27,
            Self::CreateHeap => 28,
            Self::CreatePlacedResource => 29,
            Self::CreateReservedResource => 30,
            Self::CreateSharedHandle => 31,
            Self::OpenSharedHandle => 32,
            Self::OpenSharedHandleByName => 33,
            Self::MakeResident => 34,
            Self::Evict => 35,
            Self::CreateFence => 36,
            Self::GetDeviceRemovedReason => 37,
            Self::GetCopyableFootprints => 38,
            Self::CreateQueryHeap => 39,
            Self::SetStablePowerState => 40,
            Self::CreateCommandSignature => 41,
            Self::GetResourceTiling => 42,
            Self::GetAdapterLuid => 43,
        }
    }

    /// The symbolic name of the method.
    pub open spec fn label(self) -> Seq<char> {
        match self {
            Self::QueryInterface => "QueryInterface"@,
            Self::AddRef => "AddRef"@,
            Self::Release => "Release"@,
            Self::GetPrivateData => "GetPrivateData"@,
            Self::SetPrivateData => "SetPrivateData"@,
            Self::SetPrivateDataInterface => "SetPrivateDataInterface"@,
            Self::SetName => "SetName"@,
            Self::GetNodeCount => "GetNodeCount"@,
            Self::CreateCommandQueue => "CreateCommandQueue"@,
            Self::CreateCommandAllocator => "CreateCommandAllocator"@,
            Self::CreateGraphicsPipelineState => "CreateGraphicsPipelineState"@,
            Self::CreateComputePipelineState => "CreateComputePipelineState"@,
            Self::CreateCommandList => "CreateCommandList"@,
            Self::CheckFeatureSupport => "CheckFeatureSupport"@,
            Self::CreateDescriptorHeap => "CreateDescriptorHeap"@,
            Self::GetDescriptorHandleIncrementSize => "GetDescriptorHandleIncrementSize"@,
            Self::CreateRootSignature => "CreateRootSignature"@,
            Self::CreateConstantBufferView => "CreateConstantBufferView"@,
            Self::CreateShaderResourceView => "CreateShaderResourceView"@,
            Self::CreateUnorderedAccessView => "CreateUnorderedAccessView"@,
            Self::CreateRenderTargetView => "CreateRenderTargetView"@,
            Self::CreateDepthStencilView => "CreateDepthStencilView"@,
            Self::CreateSampler => "CreateSampler"@,
            Self::CopyDescriptors => "CopyDescriptors"@,
            Self::CopyDescriptorsSimple => "CopyDescriptorsSimple"@,
            Self::GetResourceAllocationInfo => "GetResourceAllocationInfo"@,
            Self::GetCustomHeapProperties => "GetCustomHeapProperties"@,
            Self::CreateCommittedResource => "CreateCommittedResource"@,
            Self::CreateHeap => "CreateHeap"@,
            Self::CreatePlacedResource => "CreatePlacedResource"@,
            Self::CreateReservedResource => "CreateReservedResource"@,
            Self::CreateSharedHandle => "CreateSharedHandle"@,
            Self::OpenSharedHandle => "OpenSharedHandle"@,
            Self::OpenSharedHandleByName => "OpenSharedHandleByName"@,
            Self::MakeResident => "MakeResident"@,
            Self::Evict => "Evict"@,
            Self::CreateFence => "CreateFence"@,
            Self::GetDeviceRemovedReason => "GetDeviceRemovedReason"@,
            Self::GetCopyableFootprints => "GetCopyableFootprints"@,
            Self::CreateQueryHeap => "CreateQueryHeap"@,
            Self::SetStablePowerState => "SetStablePowerState"@,
            Self::CreateCommandSignature => "CreateCommandSignature"@,
            Self::GetResourceTiling => "GetResourceTiling"@,
            Self::GetAdapterLuid => "GetAdapterLuid"@,
        }
    }

    /// The method that stands at position `i`, where the table has such a position.
    pub open spec fn at(i: nat) -> Option<Self> {
        if exists|m: Self| m.slot() == i {
            Some(choose|m: Self| m.slot() == i)
        } else {
            None
        }
    }

    /// The position of the method in the dispatch table.
    pub fn ordinal(&self) -> (i: usize)
        ensures
            i == self.slot(),
            i < Self::COUNT,
    {
        match self {
            Self::QueryInterface => 0,
            Self::AddRef => 1,
            Self::Release => 2,
            Self::GetPrivateData => 3,
            Self::SetPrivateData => 4,
            Self::SetPrivateDataInterface => 5,
            Self::SetName => 6,
            Self::GetNodeCount => 7,
            Self::CreateCommandQueue => 8,
            Self::CreateCommandAllocator => 9,
            Self::CreateGraphicsPipelineState => 10,
            Self::CreateComputePipelineState => 11,
            Self::CreateCommandList => 12,
            Self::CheckFeatureSupport => 13,
            Self::CreateDescriptorHeap => 14,
            Self::GetDescriptorHandleIncrementSize => 15,
            Self::CreateRootSignature => 16,
            Self::CreateConstantBufferView => 17,
            Self::CreateShaderResourceView => 18,
            Self::CreateUnorderedAccessView => 19,
            Self::CreateRenderTargetView => 20,
            Self::CreateDepthStencilView => 21,
            Self::CreateSampler => 22,
            Self::CopyDescriptors => 23,
            Self::CopyDescriptorsSimple => 24,
            Self::GetResourceAllocationInfo => 25,
            Self::GetCustomHeapProperties => 26,
            Self::CreateCommittedResource => 27,
            Self::CreateHeap => 28,
            Self::CreatePlacedResource => 29,
            Self::CreateReservedResource => 30,
            Self::CreateSharedHandle => 31,
            Self::OpenSharedHandle => 32,
            Self::OpenSharedHandleByName => 33,
            Self::MakeResident => 34,
            Self::Evict => 35,
            Self::CreateFence => 36,
            Self::GetDeviceRemovedReason => 37,
            Self::GetCopyableFootprints => 38,
            Self::CreateQueryHeap => 39,
            Self::SetStablePowerState => 40,
            Self::CreateCommandSignature => 41,
            Self::GetResourceTiling => 42,
            Self::GetAdapterLuid => 43,
        }
    }

    /// The method that stands at a position of the dispatch table, if the table is that long.
    pub fn from_ordinal(i: usize) -> (method: Option<Self>)
        ensures
            method == Self::at(i as nat),
            method is Some <==> i < Self::COUNT,
    {
        let method = match i {
            0 => Some(Self::QueryInterface),
            1 => Some(Self::AddRef),
            2 => Some(Self::Release),
            3 => Some(Self::GetPrivateData),
            4 => Some(Self::SetPrivateData),
            5 => Some(Self::SetPrivateDataInterface),
            6 => Some(Self::SetName),
            7 => Some(Self::GetNodeCount),
            8 => Some(Self::CreateCommandQueue),
            9 => Some(Self::CreateCommandAllocator),
            10 => Some(Self::CreateGraphicsPipelineState),
            11 => Some(Self::CreateComputePipelineState),
            12 => Some(Self::CreateCommandList),
            13 => Some(Self::CheckFeatureSupport),
            14 => Some(Self::CreateDescriptorHeap),
            15 => Some(Self::GetDescriptorHandleIncrementSize),
            16 => Some(Self::CreateRootSignature),
            17 => Some(Self::CreateConstantBufferView),
            18 => Some(Self::CreateShaderResourceView),
            19 => Some(Self::CreateUnorderedAccessView),
            20 => Some(Self::CreateRenderTargetView),
            21 => Some(Self::CreateDepthStencilView),
            22 => Some(Self::CreateSampler),
            23 => Some(Self::CopyDescriptors),
            24 => Some(Self::CopyDescriptorsSimple),
            25 => Some(Self::GetResourceAllocationInfo),
            26 => Some(Self::GetCustomHeapProperties),
            27 => Some(Self::CreateCommittedResource),
            28 => Some(Self::CreateHeap),
            29 => Some(Self::CreatePlacedResource),
            30 => Some(Self::CreateReservedResource),
            31 => Some(Self::CreateSharedHandle),
            32 => Some(Self::OpenSharedHandle),
            33 => Some(Self::OpenSharedHandleByName),
            34 => Some(Self::MakeResident),
            35 => Some(Self::Evict),
            36 => Some(Self::CreateFence),
            37 => Some(Self::GetDeviceRemovedReason),
            38 => Some(Self::GetCopyableFootprints),
            39 => Some(Self::CreateQueryHeap),
            40 => Some(Self::SetStablePowerState),
            41 => Some(Self::CreateCommandSignature),
            42 => Some(Self::GetResourceTiling),
            43 => Some(Self::GetAdapterLuid),
            _ => None,
        };
        proof {
            if let Some(m) = method {
                assert(m.slot() == i);
            }
        }
        method
    }

    /// The symbolic name of the method.
    pub fn name(&self) -> (s: &'static str)
        ensures
            s@ == self.label(),
    {
        match self {
            Self::QueryInterface => "QueryInterface",
            Self::AddRef => "AddRef",
            Self::Release => "Release",
            Self::GetPrivateData => "GetPrivateData",
            Self::SetPrivateData => "SetPrivateData",
            Self::SetPrivateDataInterface => "SetPrivateDataInterface",
            Self::SetName => "SetName",
            Self::GetNodeCount => "GetNodeCount",
            Self::CreateCommandQueue => "CreateCommandQueue",
            Self::CreateCommandAllocator => "CreateCommandAllocator",
            Self::CreateGraphicsPipelineState => "CreateGraphicsPipelineState",
            Self::CreateComputePipelineState => "CreateComputePipelineState",
            Self::CreateCommandList => "CreateCommandList",
            Self::CheckFeatureSupport => "CheckFeatureSupport",
            Self::CreateDescriptorHeap => "CreateDescriptorHeap",
            Self::GetDescriptorHandleIncrementSize => "GetDescriptorHandleIncrementSize",
            Self::CreateRootSignature => "CreateRootSignature",
            Self::CreateConstantBufferView => "CreateConstantBufferView",
            Self::CreateShaderResourceView => "CreateShaderResourceView",
            Self::CreateUnorderedAccessView => "CreateUnorderedAccessView",
            Self::CreateRenderTargetView => "CreateRenderTargetView",
            Self::CreateDepthStencilView => "CreateDepthStencilView",
            Self::CreateSampler => "CreateSampler",
            Self::CopyDescriptors => "CopyDescriptors",
            Self::CopyDescriptorsSimple => "CopyDescriptorsSimple",
            Self::GetResourceAllocationInfo => "GetResourceAllocationInfo",
            Self::GetCustomHeapProperties => "GetCustomHeapProperties",
            Self::CreateCommittedResource => "CreateCommittedResource",
            Self::CreateHeap => "CreateHeap",
            Self::CreatePlacedResource => "CreatePlacedResource",
            Self::CreateReservedResource => "CreateReservedResource",
            Self::CreateSharedHandle => "CreateSharedHandle",
            Self::OpenSharedHandle => "OpenSharedHandle",
            Self::OpenSharedHandleByName => "OpenSharedHandleByName",
            Self::MakeResident => "MakeResident",
            Self::Evict => "Evict",
            Self::CreateFence => "CreateFence",
            Self::GetDeviceRemovedReason => "GetDeviceRemovedReason",
            Self::GetCopyableFootprints => "GetCopyableFootprints",
            Self::CreateQueryHeap => "CreateQueryHeap",
            Self::SetStablePowerState => "SetStablePowerState",
            Self::CreateCommandSignature => "CreateCommandSignature",
            Self::GetResourceTiling => "GetResourceTiling",
            Self::GetAdapterLuid => "GetAdapterLuid",
        }
    }

    /// Every method stands at its own position, and that position is in the table.
    pub proof fn lemma_at_slot(method: Self)
        ensures
            Self::at(method.slot()) == Some(method),
            method.slot() < Self::COUNT,
    {
    }

    /// No two methods share a position.
    pub proof fn lemma_slot_injective(a: Self, b: Self)
        requires
            a.slot() == b.slot(),
        ensures
            a == b,
    {
    }
}

/// The methods of the command queue, in the order of its dispatch table.
#[derive(Debug, Clone, Copy, PartialEq, Eq, Structural)]
pub enum DirectX12CommandQueueMethods {
    QueryInterface,
    AddRef,
    Release,
    GetPrivateData,
    SetPrivateData,
    SetPrivateDataInterface,
    SetName,
    GetDevice,
    UpdateTileMappings,
    CopyTileMappings,
    ExecuteCommandLists,
    SetMarker,
    BeginEvent,
    EndEvent,
    Signal,
    Wait,
    GetTimestampFrequency,
    GetClockCalibration,
    GetDesc,
}

impl DirectX12CommandQueueMethods {
    /// How many methods the interface declares, and so how many slots its table has.
    pub const COUNT: usize = 19;

    /// The position of the method in the dispatch table.
    pub open spec fn slot(self) -> nat {
        match self {
            Self::QueryInterface => 0,
            Self::AddRef => 1,
            Self::Release => 2,
            Self::GetPrivateData => 3,
            Self::SetPrivateData => 4,
            Self::SetPrivateDataInterface => 5,
            Self::SetName => 6,
            Self::GetDevice => 7,
            Self::UpdateTileMappings => 8,
            Self::CopyTileMappings => 9,
            Self::ExecuteCommandLists => 10,
            Self::SetMarker => 11,
            Self::BeginEvent => 12,
            Self::EndEvent => 13,
            Self::Signal => 14,
            Self::Wait => 15,
            Self::GetTimestampFrequency => 16,
            Self::GetClockCalibration => 17,
            Self::GetDesc => 18,
        }
    }

    /// The symbolic name of the method.
    pub open spec fn label(self) -> Seq<char> {
        match self {
            Self::QueryInterface => "QueryInterface"@,
            Self::AddRef => "AddRef"@,
            Self::Release => "Release"@,
            Self::GetPrivateData => "GetPrivateData"@,
            Self::SetPrivateData => "SetPrivateData"@,
            Self::SetPrivateDataInterface => "SetPrivateDataInterface"@,
            Self::SetName => "SetName"@,
            Self::GetDevice => "GetDevice"@,
            Self::UpdateTileMappings => "UpdateTileMappings"@,
            Self::CopyTileMappings => "CopyTileMappings"@,
            Self::ExecuteCommandLists => "ExecuteCommandLists"@,
            Self::SetMarker => "SetMarker"@,
            Self::BeginEvent => "BeginEvent"@,
            Self::EndEvent => "EndEvent"@,
            Self::Signal => "Signal"@,
            Self::Wait => "Wait"@,
            Self::GetTimestampFrequency => "GetTimestampFrequency"@,
            Self::GetClockCalibration => "GetClockCalibration"@,
            Self::GetDesc => "GetDesc"@,
        }
    }

    /// The method that stands at position `i`, where the table has such a position.
    pub open spec fn at(i: nat) -> Option<Self> {
        if exists|m: Self| m.slot() == i {
            Some(choose|m: Self| m.slot() == i)
        } else {
            None
        }
    }

    /// The position of the method in the dispatch table.
    pub fn ordinal(&self) -> (i: usize)
        ensures
            i == self.slot(),
            i < Self::COUNT,
    {
        match self {
            Self::QueryInterface => 0,
            Self::AddRef => 1,
            Self::Release => 2,
            Self::GetPrivateData => 3,
            Self::SetPrivateData => 4,
            Self::SetPrivateDataInterface => 5,
            Self::SetName => 6,
            Self::GetDevice => 7,
            Self::UpdateTileMappings => 8,
            Self::CopyTileMappings => 9,
            Self::ExecuteCommandLists => 10,
            Self::SetMarker => 11,
            Self::BeginEvent => 12,
            Self::EndEvent => 13,
            Self::Signal => 14,
            Self::Wait => 15,
            Self::GetTimestampFrequency => 16,
            Self::GetClockCalibration => 17,
            Self::GetDesc => 18,
        }
    }

    /// The method that stands at a position of the dispatch table, if the table is that long.
    pub fn from_ordinal(i: usize) -> (method: Option<Self>)
        ensures
            method == Self::at(i as nat),
            method is Some <==> i < Self::COUNT,
    {
        let method = match i {
            0 => Some(Self::QueryInterface),
            1 => Some(Self::AddRef),
            2 => Some(Self::Release),
            3 => Some(Self::GetPrivateData),
            4 => Some(Self::SetPrivateData),
            5 => Some(Self::SetPrivateDataInterface),
            6 => Some(Self::SetName),
            7 => Some(Self::GetDevice),
            8 => Some(Self::UpdateTileMappings),
            9 => Some(Self::CopyTileMappings),
            10 => Some(Self::ExecuteCommandLists),
            11 => Some(Self::SetMarker),
            12 => Some(Self::BeginEvent),
            13 => Some(Self::EndEvent),
            14 => Some(Self::Signal),
            15 => Some(Self::Wait),
            16 => Some(Self::GetTimestampFrequency),
            17 => Some(Self::GetClockCalibration),
            18 => Some(Self::GetDesc),
            _ => None,
        };
        proof {
            if let Some(m) = method {
                assert(m.slot() == i);
            }
        }
        method
    }

    /// The symbolic name of the method.
    pub fn name(&self) -> (s: &'static str)
        ensures
            s@ == self.label(),
    {
        match self {
            Self::QueryInterface => "QueryInterface",
            Self::AddRef => "AddRef",
            Self::Release => "Release",
            Self::GetPrivateData => "GetPrivateData",
            Self::SetPrivateData => "SetPrivateData",
            Self::SetPrivateDataInterface => "SetPrivateDataInterface",
            Self::SetName => "SetName",
            Self::GetDevice => "GetDevice",
            Self::UpdateTileMappings => "UpdateTileMappings",
            Self::CopyTileMappings => "CopyTileMappings",
            Self::ExecuteCommandLists => "ExecuteCommandLists",
            Self::SetMarker => "SetMarker",
            Self::BeginEvent => "BeginEvent",
            Self::EndEvent => "EndEvent",
            Self::Signal => "Signal",
            Self::Wait => "Wait",
            Self::GetTimestampFrequency => "GetTimestampFrequency",
            Self::GetClockCalibration => "GetClockCalibration",
            Self::GetDesc => "GetDesc",
        }
    }

    /// Every method stands at its own position, and that position is in the table.
    pub proof fn lemma_at_slot(method: Self)
        ensures
            Self::at(method.slot()) == Some(method),
            method.slot() < Self::COUNT,
    {
    }

    /// No two methods share a position.
    pub proof fn lemma_slot_injective(a: Self, b: Self)
        requires
            a.slot() == b.slot(),
        ensures
            a == b,
    {
    }
}

/// The methods of the command allocator, in the order of its dispatch table.
#[derive(Debug, Clone, Copy, PartialEq, Eq, Structural)]
pub enum DirectX12CommandAllocatorMethods {
    QueryInterface,
    AddRef,
    Release,
    GetPrivateData,
    SetPrivateData,
    SetPrivateDataInterface,
    SetName,
    GetDevice,
    Reset,
}

impl DirectX12CommandAllocatorMethods {
    /// How many methods the interface declares, and so how many slots its table has.
    pub const COUNT: usize = 9;

    /// The position of the method in the dispatch table.
    pub open spec fn slot(self) -> nat {
        match self {
            Self::QueryInterface => 0,
            Self::AddRef => 1,
            Self::Release => 2,
            Self::GetPrivateData => 3,
            Self::SetPrivateData => 4,
            Self::SetPrivateDataInterface => 5,
            Self::SetName => 6,
            Self::GetDevice => 7,
            Self::Reset => 8,
        }
    }

    /// The symbolic name of the method.
    pub open spec fn label(self) -> Seq<char> {
        match self {
            Self::QueryInterface => "QueryInterface"@,
            Self::AddRef => "AddRef"@,
            Self::Release => "Release"@,
            Self::GetPrivateData => "GetPrivateData"@,
            Self::SetPrivateData => "SetPrivateData"@,
            Self::SetPrivateDataInterface => "SetPrivateDataInterface"@,
            Self::SetName => "SetName"@,
            Self::GetDevice => "GetDevice"@,
            Self::Reset => "Reset"@,
        }
    }

    /// The method that stands at position `i`, where the table has such a position.
    pub open spec fn at(i: nat) -> Option<Self> {
        if exists|m: Self| m.slot() == i {
            Some(choose|m: Self| m.slot() == i)
        } else {
            None
        }
    }

    /// The position of the method in the dispatch table.
    pub fn ordinal(&self) -> (i: usize)
        ensures
            i == self.slot(),
            i < Self::COUNT,
    {
        match self {
            Self::QueryInterface => 0,
            Self::AddRef => 1,
            Self::Release => 2,
            Self::GetPrivateData => 3,
            Self::SetPrivateData => 4,
            Self::SetPrivateDataInterface => 5,
            Self::SetName => 6,
            Self::GetDevice => 7,
            Self::Reset => 8,
        }
    }

    /// The method that stands at a position of the dispatch table, if the table is that long.
    pub fn from_ordinal(i: usize) -> (method: Option<Self>)
        ensures
            method == Self::at(i as nat),
            method is Some <==> i < Self::COUNT,
    {
        let method = match i {
            0 => Some(Self::QueryInterface),
            1 => Some(Self::AddRef),
            2 => Some(Self::Release),
            3 => Some(Self::GetPrivateData),
            4 => Some(Self::SetPrivateData),
            5 => Some(Self::SetPrivateDataInterface),
            6 => Some(Self::SetName),
            7 => Some(Self::GetDevice),
            8 => Some(Self::Reset),
            _ => None,
        };
        proof {
            if let Some(m) = method {
                assert(m.slot() == i);
            }
        }
        method
    }

    /// The symbolic name of the method.
    pub fn name(&self) -> (s: &'static str)
        ensures
            s@ == self.label(),
    {
        match self {
            Self::QueryInterface => "QueryInterface",
            Self::AddRef => "AddRef",
            Self::Release => "Release",
            Self::GetPrivateData => "GetPrivateData",
            Self::SetPrivateData => "SetPrivateData",
            Self::SetPrivateDataInterface => "SetPrivateDataInterface",
            Self::SetName => "SetName",
            Self::GetDevice => "GetDevice",
            Self::Reset => "Reset",
        }
    }

    /// Every method stands at its own position, and that position is in the table.
    pub proof fn lemma_at_slot(method: Self)
        ensures
            Self::at(method.slot()) == Some(method),
            method.slot() < Self::COUNT,
    {
    }

    /// No two methods share a position.
    pub proof fn lemma_slot_injective(a: Self, b: Self)
        requires
            a.slot() == b.slot(),
        ensures
            a == b,
    {
    }
}

/// The methods of the command list, in the order of its dispatch table.
#[derive(Debug, Clone, Copy, PartialEq, Eq, Structural)]
pub enum DirectX12CommandListMethods {
    QueryInterface,
    AddRef,
    Release,
    GetPrivateData,
    SetPrivateData,
    SetPrivateDataInterface,
    SetName,
    GetDevice,
    GetType,
    Close,
    Reset,
    ClearState,
    DrawInstanced,
    DrawIndexedInstanced,
    Dispatch,
    CopyBufferRegion,
    CopyTextureRegion,
    CopyResource,
    CopyTiles,
    ResolveSubresource,
    IASetPrimitiveTopology,
    RSSetViewports,
    RSSetScissorRects,
    OMSetBlendFactor,
    OMSetStencilRef,
    SetPipelineState,
    ResourceBarrier,
    ExecuteBundle,
    SetDescriptorHeaps,
    SetComputeRootSignature,
    SetGraphicsRootSignature,
    SetComputeRootDescriptorTable,
    SetGraphicsRootDescriptorTable,
    SetComputeRoot32BitConstant,
    SetGraphicsRoot32BitConstant,
    SetComputeRoot32BitConstants,
    SetGraphicsRoot32BitConstants,
    SetComputeRootConstantBufferView,
    SetGraphicsRootConstantBufferView,
    SetComputeRootShaderResourceView,
    SetGraphicsRootShaderResourceView,
    SetComputeRootUnorderedAccessView,
    SetGraphicsRootUnorderedAccessView,
    IASetIndexBuffer,
    IASetVertexBuffers,
    SOSetTargets,
    OMSetRenderTargets,
    ClearDepthStencilView,
    ClearRenderTargetView,
    ClearUnorderedAccessViewUint,
    ClearUnorderedAccessViewFloat,
    DiscardResource,
    BeginQuery,
    EndQuery,
    ResolveQueryData,
    SetPredication,
    SetMarker,
    BeginEvent,
    EndEvent,
    ExecuteIndirect,
}

impl DirectX12CommandListMethods {
    /// How many methods the interface declares, and so how many slots its table has.
    pub const COUNT: usize = 60;

    /// The position of the method in the dispatch table.
    pub open spec fn slot(self) -> nat {
        match self {
            Self::QueryInterface => 0,
            Self::AddRef => 1,
            Self::Release => 2,
            Self::GetPrivateData => 3,
            Self::SetPrivateData => 4,
            Self::SetPrivateDataInterface => 5,
            Self::SetName => 6,
            Self::GetDevice => 7,
            Self::GetType => 8,
            Self::Close => 9,
            Self::Reset => 10,
            Self::ClearState => 11,
            Self::DrawInstanced => 12,
            Self::DrawIndexedInstanced => 13,
            Self::Dispatch => 14,
            Self::CopyBufferRegion => 15,
            Self::CopyTextureRegion => 16,
            Self::CopyResource => 17,
            Self::CopyTiles => 18,
            Self::ResolveSubresource => 19,
            Self::IASetPrimitiveTopology => 20,
            Self::RSSetViewports => 21,
            Self::RSSetScissorRects => 22,
            Self::OMSetBlendFactor => 23,
            Self::OMSetStencilRef => 24,
            Self::SetPipelineState => 25,
            Self::ResourceBarrier => 26,
            Self::ExecuteBundle => 27,
            Self::SetDescriptorHeaps => 28,
            Self::SetComputeRootSignature => 29,
            Self::SetGraphicsRootSignature => 30,
            Self::SetComputeRootDescriptorTable => 31,
            Self::SetGraphicsRootDescriptorTable => 32,
            Self::SetComputeRoot32BitConstant => 33,
            Self::SetGraphicsRoot32BitConstant => 34,
            Self::SetComputeRoot32BitConstants => 35,
            Self::SetGraphicsRoot32BitConstants => 36,
            Self::SetComputeRootConstantBufferView => 37,
            Self::SetGraphicsRootConstantBufferView => 38,
            Self::SetComputeRootShaderResourceView => 39,
            Self::SetGraphicsRootShaderResourceView => 40,
            Self::SetComputeRootUnorderedAccessView => 41,
            Self::SetGraphicsRootUnorderedAccessView => 42,
            Self::IASetIndexBuffer => 43,
            Self::IASetVertexBuffers => 44,
            Self::SOSetTargets => 45,
            Self::OMSetRenderTargets => 46,
            Self::ClearDepthStencilView => 47,
            Self::ClearRenderTargetView => 48,
            Self::ClearUnorderedAccessViewUint => 49,
            Self::ClearUnorderedAccessViewFloat => 50,
            Self::DiscardResource => 51,
            Self::BeginQuery => 52,
            Self::EndQuery => 53,
            Self::ResolveQueryData => 54,
            Self::SetPredication => 55,
            Self::SetMarker => 56,
            Self::BeginEvent => 57,
            Self::EndEvent => 58,
            Self::ExecuteIndirect => 59,
        }
    }

    /// The symbolic name of the method.
    pub open spec fn label(self) -> Seq<char> {
        match self {
            Self::QueryInterface => "QueryInterface"@,
            Self::AddRef => "AddRef"@,
            Self::Release => "Release"@,
            Self::GetPrivateData => "GetPrivateData"@,
            Self::SetPrivateData => "SetPrivateData"@,
            Self::SetPrivateDataInterface => "SetPrivateDataInterface"@,
            Self::SetName => "SetName"@,
            Self::GetDevice => "GetDevice"@,
            Self::GetType => "GetType"@,
            Self::Close => "Close"@,
            Self::Reset => "Reset"@,
            Self::ClearState => "ClearState"@,
            Self::DrawInstanced => "DrawInstanced"@,
            Self::DrawIndexedInstanced => "DrawIndexedInstanced"@,
            Self::Dispatch => "Dispatch"@,
            Self::CopyBufferRegion => "CopyBufferRegion"@,
            Self::CopyTextureRegion => "CopyTextureRegion"@,
            Self::CopyResource => "CopyResource"@,
            Self::CopyTiles => "CopyTiles"@,
            Self::ResolveSubresource => "ResolveSubresource"@,
            Self::IASetPrimitiveTopology => "IASetPrimitiveTopology"@,
            Self::RSSetViewports => "RSSetViewports"@,
            Self::RSSetScissorRects => "RSSetScissorRects"@,
            Self::OMSetBlendFactor => "OMSetBlendFactor"@,
            Self::OMSetStencilRef => "OMSetStencilRef"@,
            Self::SetPipelineState => "SetPipelineState"@,
            Self::ResourceBarrier => "ResourceBarrier"@,
            Self::ExecuteBundle => "ExecuteBundle"@,
            Self::SetDescriptorHeaps => "SetDescriptorHeaps"@,
            Self::SetComputeRootSignature => "SetComputeRootSignature"@,
            Self::SetGraphicsRootSignature => "SetGraphicsRootSignature"@,
            Self::SetComputeRootDescriptorTable => "SetComputeRootDescriptorTable"@,
            Self::SetGraphicsRootDescriptorTable => "SetGraphicsRootDescriptorTable"@,
            Self::SetComputeRoot32BitConstant => "SetComputeRoot32BitConstant"@,
            Self::SetGraphicsRoot32BitConstant => "SetGraphicsRoot32BitConstant"@,
            Self::SetComputeRoot32BitConstants => "SetComputeRoot32BitConstants"@,
            Self::SetGraphicsRoot32BitConstants => "SetGraphicsRoot32BitConstants"@,
            Self::SetComputeRootConstantBufferView => "SetComputeRootConstantBufferView"@,
            Self::SetGraphicsRootConstantBufferView => "SetGraphicsRootConstantBufferView"@,
            Self::SetComputeRootShaderResourceView => "SetComputeRootShaderResourceView"@,
            Self::SetGraphicsRootShaderResourceView => "SetGraphicsRootShaderResourceView"@,
            Self::SetComputeRootUnorderedAccessView => "SetComputeRootUnorderedAccessView"@,
            Self::SetGraphicsRootUnorderedAccessView => "SetGraphicsRootUnorderedAccessView"@,
            Self::IASetIndexBuffer => "IASetIndexBuffer"@,
            Self::IASetVertexBuffers => "IASetVertexBuffers"@,
            Self::SOSetTargets => "SOSetTargets"@,
            Self::OMSetRenderTargets => "OMSetRenderTargets"@,
            Self::ClearDepthStencilView => "ClearDepthStencilView"@,
            Self::ClearRenderTargetView => "ClearRenderTargetView"@,
            Self::ClearUnorderedAccessViewUint => "ClearUnorderedAccessViewUint"@,
            Self::ClearUnorderedAccessViewFloat => "ClearUnorderedAccessViewFloat"@,
            Self::DiscardResource => "DiscardResource"@,
            Self::BeginQuery => "BeginQuery"@,
            Self::EndQuery => "EndQuery"@,
            Self::ResolveQueryData => "ResolveQueryData"@,
            Self::SetPredication => "SetPredication"@,
            Self::SetMarker => "SetMarker"@,
            Self::BeginEvent => "BeginEvent"@,
            Self::EndEvent => "EndEvent"@,
            Self::ExecuteIndirect => "ExecuteIndirect"@,
        }
    }

    /// The method that stands at position `i`, where the table has such a position.
    pub open spec fn at(i: nat) -> Option<Self> {
        if exists|m: Self| m.slot() == i {
            Some(choose|m: Self| m.slot() == i)
        } else {
            None
        }
    }

    /// The position of the method in the dispatch table.
    pub fn ordinal(&self) -> (i: usize)
        ensures
            i == self.slot(),
            i < Self::COUNT,
    {
        match self {
            Self::QueryInterface => 0,
            Self::AddRef => 1,
            Self::Release => 2,
            Self::GetPrivateData => 3,
            Self::SetPrivateData => 4,
            Self::SetPrivateDataInterface => 5,
            Self::SetName => 6,
            Self::GetDevice => 7,
            Self::GetType => 8,
            Self::Close => 9,
            Self::Reset => 10,
            Self::ClearState => 11,
            Self::DrawInstanced => 12,
            Self::DrawIndexedInstanced => 13,
            Self::Dispatch => 14,
            Self::CopyBufferRegion => 15,
            Self::CopyTextureRegion => 16,
            Self::CopyResource => 17,
            Self::CopyTiles => 18,
            Self::ResolveSubresource => 19,
            Self::IASetPrimitiveTopology => 20,
            Self::RSSetViewports => 21,
            Self::RSSetScissorRects => 22,
            Self::OMSetBlendFactor => 23,
            Self::OMSetStencilRef => 24,
            Self::SetPipelineState => 25,
            Self::ResourceBarrier => 26,
            Self::ExecuteBundle => 27,
            Self::SetDescriptorHeaps => 28,
            Self::SetComputeRootSignature => 29,
            Self::SetGraphicsRootSignature => 30,
            Self::SetComputeRootDescriptorTable => 31,
            Self::SetGraphicsRootDescriptorTable => 32,
            Self::SetComputeRoot32BitConstant => 33,
            Self::SetGraphicsRoot32BitConstant => 34,
            Self::SetComputeRoot32BitConstants => 35,
            Self::SetGraphicsRoot32BitConstants => 36,
            Self::SetComputeRootConstantBufferView => 37,
            Self::SetGraphicsRootConstantBufferView => 38,
            Self::SetComputeRootShaderResourceView => 39,
            Self::SetGraphicsRootShaderResourceView => 40,
            Self::SetComputeRootUnorderedAccessView => 41,
            Self::SetGraphicsRootUnorderedAccessView => 42,
            Self::IASetIndexBuffer => 43,
            Self::IASetVertexBuffers => 44,
            Self::SOSetTargets => 45,
            Self::OMSetRenderTargets => 46,
            Self::ClearDepthStencilView => 47,
            Self::ClearRenderTargetView => 48,
            Self::ClearUnorderedAccessViewUint => 49,
            Self::ClearUnorderedAccessViewFloat => 50,
            Self::DiscardResource => 51,
            Self::BeginQuery => 52,
            Self::EndQuery => 53,
            Self::ResolveQueryData => 54,
            Self::SetPredication => 55,
            Self::SetMarker => 56,
            Self::BeginEvent => 57,
            Self::EndEvent => 58,
            Self::ExecuteIndirect => 59,
        }
    }

    /// The method that stands at a position of the dispatch table, if the table is that long.
    pub fn from_ordinal(i: usize) -> (method: Option<Self>)
        ensures
            method == Self::at(i as nat),
            method is Some <==> i < Self::COUNT,
    {
        let method = match i {
            0 => Some(Self::QueryInterface),
            1 => Some(Self::AddRef),
            2 => Some(Self::Release),
            3 => Some(Self::GetPrivateData),
            4 => Some(Self::SetPrivateData),
            5 => Some(Self::SetPrivateDataInterface),
            6 => Some(Self::SetName),
            7 => Some(Self::GetDevice),
            8 => Some(Self::GetType),
            9 => Some(Self::Close),
            10 => Some(Self::Reset),
            11 => Some(Self::ClearState),
            12 => Some(Self::DrawInstanced),
            13 => Some(Self::DrawIndexedInstanced),
            14 => Some(Self::Dispatch),
            15 => Some(Self::CopyBufferRegion),
            16 => Some(Self::CopyTextureRegion),
            17 => Some(Self::CopyResource),
            18 => Some(Self::CopyTiles),
            19 => Some(Self::ResolveSubresource),
            20 => Some(Self::IASetPrimitiveTopology),
            21 => Some(Self::RSSetViewports),
            22 => Some(Self::RSSetScissorRects),
            23 => Some(Self::OMSetBlendFactor),
            24 => Some(Self::OMSetStencilRef),
            25 => Some(Self::SetPipelineState),
            26 => Some(Self::ResourceBarrier),
            27 => Some(Self::ExecuteBundle),
            28 => Some(Self::SetDescriptorHeaps),
            29 => Some(Self::SetComputeRootSignature),
            30 => Some(Self::SetGraphicsRootSignature),
            31 => Some(Self::SetComputeRootDescriptorTable),
            32 => Some(Self::SetGraphicsRootDescriptorTable),
            33 => Some(Self::SetComputeRoot32BitConstant),
            34 => Some(Self::SetGraphicsRoot32BitConstant),
            35 => Some(Self::SetComputeRoot32BitConstants),
            36 => Some(Self::SetGraphicsRoot32BitConstants),
            37 => Some(Self::SetComputeRootConstantBufferView),
            38 => Some(Self::SetGraphicsRootConstantBufferView),
            39 => Some(Self::SetComputeRootShaderResourceView),
            40 => Some(Self::SetGraphicsRootShaderResourceView),
            41 => Some(Self::SetComputeRootUnorderedAccessView),
            42 => Some(Self::SetGraphicsRootUnorderedAccessView),
            43 => Some(Self::IASetIndexBuffer),
            44 => Some(Self::IASetVertexBuffers),
            45 => Some(Self::SOSetTargets),
            46 => Some(Self::OMSetRenderTargets),
            47 => Some(Self::ClearDepthStencilView),
            48 => Some(Self::ClearRenderTargetView),
            49 => Some(Self::ClearUnorderedAccessViewUint),
            50 => Some(Self::ClearUnorderedAccessViewFloat),
            51 => Some(Self::DiscardResource),
            52 => Some(Self::BeginQuery),
            53 => Some(Self::EndQuery),
            54 => Some(Self::ResolveQueryData),
            55 => Some(Self::SetPredication),
            56 => Some(Self::SetMarker),
            57 => Some(Self::BeginEvent),
            58 => Some(Self::EndEvent),
            59 => Some(Self::ExecuteIndirect),
            _ => None,
        };
        proof {
            if let Some(m) = method {
                assert(m.slot() == i);
            }
        }
        method
    }

    /// The symbolic name of the method.
    pub fn name(&self) -> (s: &'static str)
        ensures
            s@ == self.label(),
    {
        match self {
            Self::QueryInterface => "QueryInterface",
            Self::AddRef => "AddRef",
            Self::Release => "Release",
            Self::GetPrivateData => "GetPrivateData",
            Self::SetPrivateData => "SetPrivateData",
            Self::SetPrivateDataInterface => "SetPrivateDataInterface",
            Self::SetName => "SetName",
            Self::GetDevice => "GetDevice",
            Self::GetType => "GetType",
            Self::Close => "Close",
            Self::Reset => "Reset",
            Self::ClearState => "ClearState",
            Self::DrawInstanced => "DrawInstanced",
            Self::DrawIndexedInstanced => "DrawIndexedInstanced",
            Self::Dispatch => "Dispatch",
            Self::CopyBufferRegion => "CopyBufferRegion",
            Self::CopyTextureRegion => "CopyTextureRegion",
            Self::CopyResource => "CopyResource",
            Self::CopyTiles => "CopyTiles",
            Self::ResolveSubresource => "ResolveSubresource",
            Self::IASetPrimitiveTopology => "IASetPrimitiveTopology",
            Self::RSSetViewports => "RSSetViewports",
            Self::RSSetScissorRects => "RSSetScissorRects",
            Self::OMSetBlendFactor => "OMSetBlendFactor",
            Self::OMSetStencilRef => "OMSetStencilRef",
            Self::SetPipelineState => "SetPipelineState",
            Self::ResourceBarrier => "ResourceBarrier",
            Self::ExecuteBundle => "ExecuteBundle",
            Self::SetDescriptorHeaps => "SetDescriptorHeaps",
            Self::SetComputeRootSignature => "SetComputeRootSignature",
            Self::SetGraphicsRootSignature => "SetGraphicsRootSignature",
            Self::SetComputeRootDescriptorTable => "SetComputeRootDescriptorTable",
            Self::SetGraphicsRootDescriptorTable => "SetGraphicsRootDescriptorTable",
            Self::SetComputeRoot32BitConstant => "SetComputeRoot32BitConstant",
            Self::SetGraphicsRoot32BitConstant => "SetGraphicsRoot32BitConstant",
            Self::SetComputeRoot32BitConstants => "SetComputeRoot32BitConstants",
            Self::SetGraphicsRoot32BitConstants => "SetGraphicsRoot32BitConstants",
            Self::SetComputeRootConstantBufferView => "SetComputeRootConstantBufferView",
            Self::SetGraphicsRootConstantBufferView => "SetGraphicsRootConstantBufferView",
            Self::SetComputeRootShaderResourceView => "SetComputeRootShaderResourceView",
            Self::SetGraphicsRootShaderResourceView => "SetGraphicsRootShaderResourceView",
            Self::SetComputeRootUnorderedAccessView => "SetComputeRootUnorderedAccessView",
            Self::SetGraphicsRootUnorderedAccessView => "SetGraphicsRootUnorderedAccessView",
            Self::IASetIndexBuffer => "IASetIndexBuffer",
            Self::IASetVertexBuffers => "IASetVertexBuffers",
            Self::SOSetTargets => "SOSetTargets",
            Self::OMSetRenderTargets => "OMSetRenderTargets",
            Self::ClearDepthStencilView => "ClearDepthStencilView",
            Self::ClearRenderTargetView => "ClearRenderTargetView",
            Self::ClearUnorderedAccessViewUint => "ClearUnorderedAccessViewUint",
            Self::ClearUnorderedAccessViewFloat => "ClearUnorderedAccessViewFloat",
            Self::DiscardResource => "DiscardResource",
            Self::BeginQuery => "BeginQuery",
            Self::EndQuery => "EndQuery",
            Self::ResolveQueryData => "ResolveQueryData",
            Self::SetPredication => "SetPredication",
            Self::SetMarker => "SetMarker",
            Self::BeginEvent => "BeginEvent",
            Self::EndEvent => "EndEvent",
            Self::ExecuteIndirect => "ExecuteIndirect",
        }
    }

    /// Every method stands at its own position, and that position is in the table.
    pub proof fn lemma_at_slot(method: Self)
        ensures
            Self::at(method.slot()) == Some(method),
            method.slot() < Self::COUNT,
    {
    }

    /// No two methods share a position.
    pub proof fn lemma_slot_injective(a: Self, b: Self)
        requires
            a.slot() == b.slot(),
        ensures
            a == b,
    {
    }
}

/// The methods of the swapchain, in the order of its dispatch table.
#[derive(Debug, Clone, Copy, PartialEq, Eq, Structural)]
pub enum DirectX12SwapchainMethods {
    QueryInterface,
    AddRef,
    Release,
    SetPrivateData,
    SetPrivateDataInterface,
    GetPrivateData,
    GetParent,
    GetDevice,
    Present,
    GetBuffer,
    SetFullscreenState,
    GetFullscreenState,
    GetDesc,
    ResizeBuffers,
    ResizeTarget,
    GetContainingOutput,
    GetFrameStatistics,
    GetLastPresentCount,
}

impl DirectX12SwapchainMethods {
    /// How many methods the interface declares, and so how many slots its table has.
    pub const COUNT: usize = 18;

    /// The position of the method in the dispatch table.
    pub open spec fn slot(self) -> nat {
        match self {
            Self::QueryInterface => 0,
            Self::AddRef => 1,
            Self::Release => 2,
            Self::SetPrivateData => 3,
            Self::SetPrivateDataInterface => 4,
            Self::GetPrivateData => 5,
            Self::GetParent => 6,
            Self::GetDevice => 7,
            Self::Present => 8,
            Self::GetBuffer => 9,
            Self::SetFullscreenState => 10,
            Self::GetFullscreenState => 11,
            Self::GetDesc => 12,
            Self::ResizeBuffers => 13,
            Self::ResizeTarget => 14,
            Self::GetContainingOutput => 15,
            Self::GetFrameStatistics => 16,
            Self::GetLastPresentCount => 17,
        }
    }

    /// The symbolic name of the method.
    pub open spec fn label(self) -> Seq<char> {
        match self {
            Self::QueryInterface => "QueryInterface"@,
            Self::AddRef => "AddRef"@,
            Self::Release => "Release"@,
            Self::SetPrivateData => "SetPrivateData"@,
            Self::SetPrivateDataInterface => "SetPrivateDataInterface"@,
            Self::GetPrivateData => "GetPrivateData"@,
            Self::GetParent => "GetParent"@,
            Self::GetDevice => "GetDevice"@,
            Self::Present => "Present"@,
            Self::GetBuffer => "GetBuffer"@,
            Self::SetFullscreenState => "SetFullscreenState"@,
            Self::GetFullscreenState => "GetFullscreenState"@,
            Self::GetDesc => "GetDesc"@,
            Self::ResizeBuffers => "ResizeBuffers"@,
            Self::ResizeTarget => "ResizeTarget"@,
            Self::GetContainingOutput => "GetContainingOutput"@,
            Self::GetFrameStatistics => "GetFrameStatistics"@,
            Self::GetLastPresentCount => "GetLastPresentCount"@,
        }
    }

    /// The method that stands at position `i`, where the table has such a position.
    pub open spec fn at(i: nat) -> Option<Self> {
        if exists|m: Self| m.slot() == i {
            Some(choose|m: Self| m.slot() == i)
        } else {
            None
        }
    }

    /// The position of the method in the dispatch table.
    pub fn ordinal(&self) -> (i: usize)
        ensures
            i == self.slot(),
            i < Self::COUNT,
    {
        match self {
            Self::QueryInterface => 0,
            Self::AddRef => 1,
            Self::Release => 2,
            Self::SetPrivateData => 3,
            Self::SetPrivateDataInterface => 4,
            Self::GetPrivateData => 5,
            Self::GetParent => 6,
            Self::GetDevice => 7,
            Self::Present => 8,
            Self::GetBuffer => 9,
            Self::SetFullscreenState => 10,
            Self::GetFullscreenState => 11,
            Self::GetDesc => 12,
            Self::ResizeBuffers => 13,
            Self::ResizeTarget => 14,
            Self::GetContainingOutput => 15,
            Self::GetFrameStatistics => 16,
            Self::GetLastPresentCount => 17,
        }
    }

    /// The method that stands at a position of the dispatch table, if the table is that long.
    pub fn from_ordinal(i: usize) -> (method: Option<Self>)
        ensures
            method == Self::at(i as nat),
            method is Some <==> i < Self::COUNT,
    {
        let method = match i {
            0 => Some(Self::QueryInterface),
            1 => Some(Self::AddRef),
            2 => Some(Self::Release),
            3 => Some(Self::SetPrivateData),
            4 => Some(Self::SetPrivateDataInterface),
            5 => Some(Self::GetPrivateData),
            6 => Some(Self::GetParent),
            7 => Some(Self::GetDevice),
            8 => Some(Self::Present),
            9 => Some(Self::GetBuffer),
            10 => Some(Self::SetFullscreenState),
            11 => Some(Self::GetFullscreenState),
            12 => Some(Self::GetDesc),
            13 => Some(Self::ResizeBuffers),
            14 => Some(Self::ResizeTarget),
            15 => Some(Self::GetContainingOutput),
            16 => Some(Self::GetFrameStatistics),
            17 => Some(Self::GetLastPresentCount),
            _ => None,
        };
        proof {
            if let Some(m) = method {
                assert(m.slot() == i);
            }
        }
        method
    }

    /// The symbolic name of the method.
    pub fn name(&self) -> (s: &'static str)
        ensures
            s@ == self.label(),
    {
        match self {
            Self::QueryInterface => "QueryInterface",
            Self::AddRef => "AddRef",
            Self::Release => "Release",
            Self::SetPrivateData => "SetPrivateData",
            Self::SetPrivateDataInterface => "SetPrivateDataInterface",
            Self::GetPrivateData => "GetPrivateData",
            Self::GetParent => "GetParent",
            Self::GetDevice => "GetDevice",
            Self::Present => "Present",
            Self::GetBuffer => "GetBuffer",
            Self::SetFullscreenState => "SetFullscreenState",
            Self::GetFullscreenState => "GetFullscreenState",
            Self::GetDesc => "GetDesc",
            Self::ResizeBuffers => "ResizeBuffers",
            Self::ResizeTarget => "ResizeTarget",
            Self::GetContainingOutput => "GetContainingOutput",
            Self::GetFrameStatistics => "GetFrameStatistics",
            Self::GetLastPresentCount => "GetLastPresentCount",
        }
    }

    /// Every method stands at its own position, and that position is in the table.
    pub proof fn lemma_at_slot(method: Self)
        ensures
            Self::at(method.slot()) == Some(method),
            method.slot() < Self::COUNT,
    {
    }

    /// No two methods share a position.
    pub proof fn lemma_slot_injective(a: Self, b: Self)
        requires
            a.slot() == b.slot(),
        ensures
            a == b,
    {
    }
}

/// The dispatch tables that a bootstrap of the explicit generation collects.
#[derive(Debug, PartialEq, Eq)]
pub struct DirectX12Methods {
    device_vmt: Vec<usize>,
    command_queue_vmt: Vec<usize>,
    command_allocator_vmt: Vec<usize>,
    command_list_vmt: Vec<usize>,
    swapchain_vmt: Vec<usize>,
}

impl DirectX12Methods {
    /// The tables, in the order in which a bootstrap reads them.
    pub closed spec fn tables(&self) -> Seq<Seq<usize>> {
        seq![
            self.device_vmt@,
            self.command_queue_vmt@,
            self.command_allocator_vmt@,
            self.command_list_vmt@,
            self.swapchain_vmt@,
        ]
    }

    #[verifier::type_invariant]
    spec fn every_table_is_complete(&self) -> bool {
        &&& self.device_vmt@.len() == DirectX12DeviceMethods::COUNT
        &&& self.command_queue_vmt@.len() == DirectX12CommandQueueMethods::COUNT
        &&& self.command_allocator_vmt@.len() == DirectX12CommandAllocatorMethods::COUNT
        &&& self.command_list_vmt@.len() == DirectX12CommandListMethods::COUNT
        &&& self.swapchain_vmt@.len() == DirectX12SwapchainMethods::COUNT
    }

    /// Puts the tables together, where each is as long as its interface declares.
    pub fn new(
        device_vmt: Vec<usize>,
        command_queue_vmt: Vec<usize>,
        command_allocator_vmt: Vec<usize>,
        command_list_vmt: Vec<usize>,
        swapchain_vmt: Vec<usize>,
    ) -> (methods: Option<Self>)
        ensures
            methods is Some <==> {
                &&& device_vmt@.len() == DirectX12DeviceMethods::COUNT
                &&& command_queue_vmt@.len() == DirectX12CommandQueueMethods::COUNT
                &&& command_allocator_vmt@.len() == DirectX12CommandAllocatorMethods::COUNT
                &&& command_list_vmt@.len() == DirectX12CommandListMethods::COUNT
                &&& swapchain_vmt@.len() == DirectX12SwapchainMethods::COUNT
            },
            methods matches Some(m) ==> m.tables() == seq![
                device_vmt@,
                command_queue_vmt@,
                command_allocator_vmt@,
                command_list_vmt@,
                swapchain_vmt@,
            ],
            methods matches Some(m) ==> tables_match(RenderEngine::DirectX12, m.tables()),
    {
        if device_vmt.len() == DirectX12DeviceMethods::COUNT
            && command_queue_vmt.len() == DirectX12CommandQueueMethods::COUNT
            && command_allocator_vmt.len() == DirectX12CommandAllocatorMethods::COUNT
            && command_list_vmt.len() == DirectX12CommandListMethods::COUNT
            && swapchain_vmt.len() == DirectX12SwapchainMethods::COUNT
        {
            let methods = DirectX12Methods {
                device_vmt,
                command_queue_vmt,
                command_allocator_vmt,
                command_list_vmt,
                swapchain_vmt,
            };
            proof {
                lemma_layout(methods.tables());
            }
            Some(methods)
        } else {
            None
        }
    }

    /// The table of the device.
    pub fn device_vmt(&self) -> (table: &Vec<usize>)
        ensures
            table@ == self.tables()[0],
            table@.len() == DirectX12DeviceMethods::COUNT,
    {
        proof {
            use_type_invariant(self);
        }
        &self.device_vmt
    }

    /// The table of the command queue.
    pub fn command_queue_vmt(&self) -> (table: &Vec<usize>)
        ensures
            table@ == self.tables()[1],
            table@.len() == DirectX12CommandQueueMethods::COUNT,
    {
        proof {
            use_type_invariant(self);
        }
        &self.command_queue_vmt
    }

    /// The table of the command allocator.
    pub fn command_allocator_vmt(&self) -> (table: &Vec<usize>)
        ensures
            table@ == self.tables()[2],
            table@.len() == DirectX12CommandAllocatorMethods::COUNT,
    {
        proof {
            use_type_invariant(self);
        }
        &self.command_allocator_vmt
    }

    /// The table of the command list.
    pub fn command_list_vmt(&self) -> (table: &Vec<usize>)
        ensures
            table@ == self.tables()[3],
            table@.len() == DirectX12CommandListMethods::COUNT,
    {
        proof {
            use_type_invariant(self);
        }
        &self.command_list_vmt
    }

    /// The table of the swapchain.
    pub fn swapchain_vmt(&self) -> (table: &Vec<usize>)
        ensures
            table@ == self.tables()[4],
            table@.len() == DirectX12SwapchainMethods::COUNT,
    {
        proof {
            use_type_invariant(self);
        }
        &self.swapchain_vmt
    }

    /// Whether `listing` lists every slot of every table with the name of its
    /// method, table after table, the lines numbered through.
    pub open spec fn listed(&self, listing: Seq<MethodEntry>) -> bool {
        &&& listing.len() == DirectX12DeviceMethods::COUNT
            + DirectX12CommandQueueMethods::COUNT
            + DirectX12CommandAllocatorMethods::COUNT
            + DirectX12CommandListMethods::COUNT
            + DirectX12SwapchainMethods::COUNT
        &&& lists_table(
            listing,
            0,
            Interface::DirectX12Device,
            self.tables()[0],
        )
        &&& lists_table(
            listing,
            DirectX12DeviceMethods::COUNT as int,
            Interface::DirectX12CommandQueue,
            self.tables()[1],
        )
        &&& lists_table(
            listing,
            DirectX12DeviceMethods::COUNT + DirectX12CommandQueueMethods::COUNT,
            Interface::DirectX12CommandAllocator,
            self.tables()[2],
        )
        &&& lists_table(
            listing,
            DirectX12DeviceMethods::COUNT + DirectX12CommandQueueMethods::COUNT
                + DirectX12CommandAllocatorMethods::COUNT,
            Interface::DirectX12CommandList,
            self.tables()[3],
        )
        &&& lists_table(
            listing,
            DirectX12DeviceMethods::COUNT + DirectX12CommandQueueMethods::COUNT
                + DirectX12CommandAllocatorMethods::COUNT
                + DirectX12CommandListMethods::COUNT,
            Interface::DirectX12Swapchain,
            self.tables()[4],
        )
    }

    /// Lists every slot of every table with the name of its method.
    pub fn entries(&self) -> (listing: Vec<MethodEntry>)
        ensures
            self.listed(listing@),
    {
        proof {
            use_type_invariant(self);
        }
        let mut listing: Vec<MethodEntry> = Vec::new();
        append_entries(&mut listing, Interface::DirectX12Device, &self.device_vmt);
        append_entries(&mut listing, Interface::DirectX12CommandQueue, &self.command_queue_vmt);
        append_entries(&mut listing, Interface::DirectX12CommandAllocator, &self.command_allocator_vmt);
        append_entries(&mut listing, Interface::DirectX12CommandList, &self.command_list_vmt);
        append_entries(&mut listing, Interface::DirectX12Swapchain, &self.swapchain_vmt);
        listing
    }
}

/// Tables of the declared lengths are the tables of the backend's layout.
proof fn lemma_layout(tables: Seq<Seq<usize>>)
    requires
        tables.len() == 5,
        tables[0].len() == DirectX12DeviceMethods::COUNT,
        tables[1].len() == DirectX12CommandQueueMethods::COUNT,
        tables[2].len() == DirectX12CommandAllocatorMethods::COUNT,
        tables[3].len() == DirectX12CommandListMethods::COUNT,
        tables[4].len() == DirectX12SwapchainMethods::COUNT,
    ensures
        tables_match(RenderEngine::DirectX12, tables),
{
}

} // verus!
