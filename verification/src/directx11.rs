//! The second raster generation: swapchain, device and device context, which one
//! native call creates together.
use crate::interface::{append_entries, lists_table, Interface, MethodEntry};
use crate::protocol::tables_match;
use crate::RenderEngine;
use vstd::prelude::*;

verus! {

/// The methods of the swapchain, in the order of its dispatch table.
#[derive(Debug, Clone, Copy, PartialEq, Eq, Structural)]
pub enum DirectX11SwapchainMethods {
    QueryInterface,
    AddRef,
    Release,
    SetPrivateData,
    SetPrivateDataInterface,
    GetPrivateData,
    GetParent,
    GetDevice,
    Present,
    GetBuffer,
    SetFullscreenState,
    GetFullscreenState,
    GetDesc,
    ResizeBuffers,
    ResizeTarget,
    GetContainingOutput,
    GetFrameStatistics,
    GetLastPresentCount,
}

impl DirectX11SwapchainMethods {
    /// How many methods the interface declares, and so how many slots its table has.
    pub const COUNT: usize = 18;

    /// The position of the method in the dispatch table.
    pub open spec fn slot(self) -> nat {
        match self {
            Self::QueryInterface => 0,
            Self::AddRef => 1,
            Self::Release => 2,
            Self::SetPrivateData => 3,
            Self::SetPrivateDataInterface => 4,
            Self::GetPrivateData => 5,
            Self::GetParent => 6,
            Self::GetDevice => 7,
            Self::Present => 8,
            Self::GetBuffer => 9,
            Self::SetFullscreenState => 10,
            Self::GetFullscreenState => 11,
            Self::GetDesc => 12,
            Self::ResizeBuffers => 13,
            Self::ResizeTarget => 14,
            Self::GetContainingOutput => 15,
            Self::GetFrameStatistics => 16,
            Self::GetLastPresentCount => 17,
        }
    }

    /// The symbolic name of the method.
    pub open spec fn label(self) -> Seq<char> {
        match self {
            Self::QueryInterface => "QueryInterface"@,
            Self::AddRef => "AddRef"@,
            Self::Release => "Release"@,
            Self::SetPrivateData => "SetPrivateData"@,
            Self::SetPrivateDataInterface => "SetPrivateDataInterface"@,
            Self::GetPrivateData => "GetPrivateData"@,
            Self::GetParent => "GetParent"@,
            Self::GetDevice => "GetDevice"@,
            Self::Present => "Present"@,
            Self::GetBuffer => "GetBuffer"@,
            Self::SetFullscreenState => "SetFullscreenState"@,
            Self::GetFullscreenState => "GetFullscreenState"@,
            Self::GetDesc => "GetDesc"@,
            Self::ResizeBuffers => "ResizeBuffers"@,
            Self::ResizeTarget => "ResizeTarget"@,
            Self::GetContainingOutput => "GetContainingOutput"@,
            Self::GetFrameStatistics => "GetFrameStatistics"@,
            Self::GetLastPresentCount => "GetLastPresentCount"@,
        }
    }

    /// The method that stands at position `i`, where the table has such a position.
    pub open spec fn at(i: nat) -> Option<Self> {
        if exists|m: Self| m.slot() == i {
            Some(choose|m: Self| m.slot() == i)
        } else {
            None
        }
    }

    /// The position of the method in the dispatch table.
    pub fn ordinal(&self) -> (i: usize)
        ensures
            i == self.slot(),
            i < Self::COUNT,
    {
        match self {
            Self::QueryInterface => 0,
            Self::AddRef => 1,
            Self::Release => 2,
            Self::SetPrivateData => 3,
            Self::SetPrivateDataInterface => 4,
            Self::GetPrivateData => 5,
            Self::GetParent => 6,
            Self::GetDevice => 7,
            Self::Present => 8,
            Self::GetBuffer => 9,
            Self::SetFullscreenState => 10,
            Self::GetFullscreenState => 11,
            Self::GetDesc => 12,
            Self::ResizeBuffers => 13,
            Self::ResizeTarget => 14,
            Self::GetContainingOutput => 15,
            Self::GetFrameStatistics => 16,
            Self::GetLastPresentCount => 17,
        }
    }

    /// The method that stands at a position of the dispatch table, if the table is that long.
    pub fn from_ordinal(i: usize) -> (method: Option<Self>)
        ensures
            method == Self::at(i as nat),
            method is Some <==> i < Self::COUNT,
    {
        let method = match i {
            0 => Some(Self::QueryInterface),
            1 => Some(Self::AddRef),
            2 => Some(Self::Release),
            3 => Some(Self::SetPrivateData),
            4 => Some(Self::SetPrivateDataInterface),
            5 => Some(Self::GetPrivateData),
            6 => Some(Self::GetParent),
            7 => Some(Self::GetDevice),
            8 => Some(Self::Present),
            9 => Some(Self::GetBuffer),
            10 => Some(Self::SetFullscreenState),
            11 => Some(Self::GetFullscreenState),
            12 => Some(Self::GetDesc),
            13 => Some(Self::ResizeBuffers),
            14 => Some(Self::ResizeTarget),
            15 => Some(Self::GetContainingOutput),
            16 => Some(Self::GetFrameStatistics),
            17 => Some(Self::GetLastPresentCount),
            _ => None,
        };
        proof {
            if let Some(m) = method {
                assert(m.slot() == i);
            }
        }
        method
    }

    /// The symbolic name of the method.
    pub fn name(&self) -> (s: &'static str)
        ensures
            s@ == self.label(),
    {
        match self {
            Self::QueryInterface => "QueryInterface",
            Self::AddRef => "AddRef",
            Self::Release => "Release",
            Self::SetPrivateData => "SetPrivateData",
            Self::SetPrivateDataInterface => "SetPrivateDataInterface",
            Self::GetPrivateData => "GetPrivateData",
            Self::GetParent => "GetParent",
            Self::GetDevice => "GetDevice",
            Self::Present => "Present",
            Self::GetBuffer => "GetBuffer",
            Self::SetFullscreenState => "SetFullscreenState",
            Self::GetFullscreenState => "GetFullscreenState",
            Self::GetDesc => "GetDesc",
            Self::ResizeBuffers => "ResizeBuffers",
            Self::ResizeTarget => "ResizeTarget",
            Self::GetContainingOutput => "GetContainingOutput",
            Self::GetFrameStatistics => "GetFrameStatistics",
            Self::GetLastPresentCount => "GetLastPresentCount",
        }
    }

    /// Every method stands at its own position, and that position is in the table.
    pub proof fn lemma_at_slot(method: Self)
        ensures
            Self::at(method.slot()) == Some(method),
            method.slot() < Self::COUNT,
    {
    }

    /// No two methods share a position.
    pub proof fn lemma_slot_injective(a: Self, b: Self)
        requires
            a.slot() == b.slot(),
        ensures
            a == b,
    {
    }
}

/// The methods of the device, in the order of its dispatch table.
#[derive(Debug, Clone, Copy, PartialEq, Eq, Structural)]
pub enum DirectX11DeviceMethods {
    QueryInterface,
    AddRef,
    Release,
    CreateBuffer,
    CreateTexture1D,
    CreateTexture2D,
    CreateTexture3D,
    CreateShaderResourceView,
    CreateUnorderedAccessView,
    CreateRenderTargetView,
    CreateDepthStencilView,
    CreateInputLayout,
    CreateVertexShader,
    CreateGeometryShader,
    CreateGeometryShaderWithStreamOutput,
    CreatePixelShader,
    CreateHullShader,
    CreateDomainShader,
    CreateComputeShader,
    CreateClassLinkage,
    CreateBlendState,
    CreateDepthStencilState,
    CreateRasterizerState,
    CreateSamplerState,
    CreateQuery,
    CreatePredicate,
    CreateCounter,
    CreateDeferredContext,
    OpenSharedResource,
    CheckFormatSupport,
    CheckMultisampleQualityLevels,
    CheckCounterInfo,
    CheckCounter,
    CheckFeatureSupport,
    GetPrivateData,
    SetPrivateData,
    SetPrivateDataInterface,
    GetFeatureLevel,
    GetCreationFlags,
    GetDeviceRemovedReason,
    GetImmediateContext,
    SetExceptionMode,
    GetExceptionMode,
}

impl DirectX11DeviceMethods {
    /// How many methods the interface declares, and so how many slots its table has.
    pub const COUNT: usize = 43;

    /// The position of the method in the dispatch table.
    pub open spec fn slot(self) -> nat {
        match self {
            Self::QueryInterface => 0,
            Self::AddRef => 1,
            Self::Release => 2,
            Self::CreateBuffer => 3,
            Self::CreateTexture1D => 4,
            Self::CreateTexture2D => 5,
            Self::CreateTexture3D => 6,
            Self::CreateShaderResourceView => 7,
            Self::CreateUnorderedAccessView => 8,
            Self::CreateRenderTargetView => 9,
            Self::CreateDepthStencilView => 10,
            Self::CreateInputLayout => 11,
            Self::CreateVertexShader => 12,
            Self::CreateGeometryShader => 13,
            Self::CreateGeometryShaderWithStreamOutput => 14,
            Self::CreatePixelShader => 15,
            Self::CreateHullShader => 16,
            Self::CreateDomainShader => 17,
            Self::CreateComputeShader => 18,
            Self::CreateClassLinkage => 19,
            Self::CreateBlendState => 20,
            Self::CreateDepthStencilState => 21,
            Self::CreateRasterizerState => 22,
            Self::CreateSamplerState => 23,
            Self::CreateQuery => 24,
            Self::CreatePredicate => 25,
            Self::CreateCounter => 26,
            Self::CreateDeferredContext => 27,
            Self::OpenSharedResource => 28,
            Self::CheckFormatSupport => 29,
            Self::CheckMultisampleQualityLevels => 30,
            Self::CheckCounterInfo => 31,
            Self::CheckCounter => 32,
            Self::CheckFeatureSupport => 33,
            Self::GetPrivateData => 34,
            Self::SetPrivateData => 35,
            Self::SetPrivateDataInterface => 36,
            Self::GetFeatureLevel => 37,
            Self::GetCreationFlags => 38,
            Self::GetDeviceRemovedReason => 39,
            Self::GetImmediateContext => 40,
            Self::SetExceptionMode => 41,
            Self::GetExceptionMode => 42,
        }
    }

    /// The symbolic name of the method.
    pub open spec fn label(self) -> Seq<char> {
        match self {
            Self::QueryInterface => "QueryInterface"@,
            Self::AddRef => "AddRef"@,
            Self::Release => "Release"@,
            Self::CreateBuffer => "CreateBuffer"@,
            Self::CreateTexture1D => "CreateTexture1D"@,
            Self::CreateTexture2D => "CreateTexture2D"@,
            Self::CreateTexture3D => "CreateTexture3D"@,
            Self::CreateShaderResourceView => "CreateShaderResourceView"@,
            Self::CreateUnorderedAccessView => "CreateUnorderedAccessView"@,
            Self::CreateRenderTargetView => "CreateRenderTargetView"@,
            Self::CreateDepthStencilView => "CreateDepthStencilView"@,
            Self::CreateInputLayout => "CreateInputLayout"@,
            Self::CreateVertexShader => "CreateVertexShader"@,
            Self::CreateGeometryShader => "CreateGeometryShader"@,
            Self::CreateGeometryShaderWithStreamOutput => "CreateGeometryShaderWithStreamOutput"@,
            Self::CreatePixelShader => "CreatePixelShader"@,
            Self::CreateHullShader => "CreateHullShader"@,
            Self::CreateDomainShader => "CreateDomainShader"@,
            Self::CreateComputeShader => "CreateComputeShader"@,
            Self::CreateClassLinkage => "CreateClassLinkage"@,
            Self::CreateBlendState => "CreateBlendState"@,
            Self::CreateDepthStencilState => "CreateDepthStencilState"@,
            Self::CreateRasterizerState => "CreateRasterizerState"@,
            Self::CreateSamplerState => "CreateSamplerState"@,
            Self::CreateQuery => "CreateQuery"@,
            Self::CreatePredicate => "CreatePredicate"@,
            Self::CreateCounter => "CreateCounter"@,
            Self::CreateDeferredContext => "CreateDeferredContext"@,
            Self::OpenSharedResource => "OpenSharedResource"@,
            Self::CheckFormatSupport => "CheckFormatSupport"@,
            Self::CheckMultisampleQualityLevels => "CheckMultisampleQualityLevels"@,
            Self::CheckCounterInfo => "CheckCounterInfo"@,
            Self::CheckCounter => "CheckCounter"@,
            Self::CheckFeatureSupport => "CheckFeatureSupport"@,
            Self::GetPrivateData => "GetPrivateData"@,
            Self::SetPrivateData => "SetPrivateData"@,
            Self::SetPrivateDataInterface => "SetPrivateDataInterface"@,
            Self::GetFeatureLevel => "GetFeatureLevel"@,
            Self::GetCreationFlags => "GetCreationFlags"@,
            Self::GetDeviceRemovedReason => "GetDeviceRemovedReason"@,
            Self::GetImmediateContext => "GetImmediateContext"@,
            Self::SetExceptionMode => "SetExceptionMode"@,
            Self::GetExceptionMode => "GetExceptionMode"@,
        }
    }

    /// The method that stands at position `i`, where the table has such a position.
    pub open spec fn at(i: nat) -> Option<Self> {
        if exists|m: Self| m.slot() == i {
            Some(choose|m: Self| m.slot() == i)
        } else {
            None
        }
    }

    /// The position of the method in the dispatch table.
    pub fn ordinal(&self) -> (i: usize)
        ensures
            i == self.slot(),
            i < Self::COUNT,
    {
        match self {
            Self::QueryInterface => 0,
            Self::AddRef => 1,
            Self::Release => 2,
            Self::CreateBuffer => 3,
            Self::CreateTexture1D => 4,
            Self::CreateTexture2D => 5,
            Self::CreateTexture3D => 6,
            Self::CreateShaderResourceView => 7,
            Self::CreateUnorderedAccessView => 8,
            Self::CreateRenderTargetView => 9,
            Self::CreateDepthStencilView => 10,
            Self::CreateInputLayout => 11,
            Self::CreateVertexShader => 12,
            Self::CreateGeometryShader => 13,
            Self::CreateGeometryShaderWithStreamOutput => 14,
            Self::CreatePixelShader => 15,
            Self::CreateHullShader => 16,
            Self::CreateDomainShader => 17,
            Self::CreateComputeShader => 18,
            Self::CreateClassLinkage => 19,
            Self::CreateBlendState => 20,
            Self::CreateDepthStencilState => 21,
            Self::CreateRasterizerState => 22,
            Self::CreateSamplerState => 23,
            Self::CreateQuery => 24,
            Self::CreatePredicate => 25,
            Self::CreateCounter => 26,
            Self::CreateDeferredContext => 27,
            Self::OpenSharedResource => 28,
            Self::CheckFormatSupport => 29,
            Self::CheckMultisampleQualityLevels => 30,
            Self::CheckCounterInfo => 31,
            Self::CheckCounter => 32,
            Self::CheckFeatureSupport => 33,
            Self::GetPrivateData => 34,
            Self::SetPrivateData => 35,
            Self::SetPrivateDataInterface => 36,
            Self::GetFeatureLevel => 37,
            Self::GetCreationFlags => 38,
            Self::GetDeviceRemovedReason => 39,
            Self::GetImmediateContext => 40,
            Self::SetExceptionMode => 41,
            Self::GetExceptionMode => 42,
        }
    }

    /// The method that stands at a position of the dispatch table, if the table is that long.
    pub fn from_ordinal(i: usize) -> (method: Option<Self>)
        ensures
            method == Self::at(i as nat),
            method is Some <==> i < Self::COUNT,
    {
        let method = match i {
            0 => Some(Self::QueryInterface),
            1 => Some(Self::AddRef),
            2 => Some(Self::Release),
            3 => Some(Self::CreateBuffer),
            4 => Some(Self::CreateTexture1D),
            5 => Some(Self::CreateTexture2D),
            6 => Some(Self::CreateTexture3D),
            7 => Some(Self::CreateShaderResourceView),
            8 => Some(Self::CreateUnorderedAccessView),
            9 => Some(Self::CreateRenderTargetView),
            10 => Some(Self::CreateDepthStencilView),
            11 => Some(Self::CreateInputLayout),
            12 => Some(Self::CreateVertexShader),
            13 => Some(Self::CreateGeometryShader),
            14 => Some(Self::CreateGeometryShaderWithStreamOutput),
            15 => Some(Self::CreatePixelShader),
            16 => Some(Self::CreateHullShader),
            17 => Some(Self::CreateDomainShader),
            18 => Some(Self::CreateComputeShader),
            19 => Some(Self::CreateClassLinkage),
            20 => Some(Self::CreateBlendState),
            21 => Some(Self::CreateDepthStencilState),
            22 => Some(Self::CreateRasterizerState),
            23 => Some(Self::CreateSamplerState),
            24 => Some(Self::CreateQuery),
            25 => Some(Self::CreatePredicate),
            26 => Some(Self::CreateCounter),
            27 => Some(Self::CreateDeferredContext),
            28 => Some(Self::OpenSharedResource),
            29 => Some(Self::CheckFormatSupport),
            30 => Some(Self::CheckMultisampleQualityLevels),
            31 => Some(Self::CheckCounterInfo),
            32 => Some(Self::CheckCounter),
            33 => Some(Self::CheckFeatureSupport),
            34 => Some(Self::GetPrivateData),
            35 => Some(Self::SetPrivateData),
            36 => Some(Self::SetPrivateDataInterface),
            37 => Some(Self::GetFeatureLevel),
            38 => Some(Self::GetCreationFlags),
            39 => Some(Self::GetDeviceRemovedReason),
            40 => Some(Self::GetImmediateContext),
            41 => Some(Self::SetExceptionMode),
            42 => Some(Self::GetExceptionMode),
            _ => None,
        };
        proof {
            if let Some(m) = method {
                assert(m.slot() == i);
            }
        }
        method
    }

    /// The symbolic name of the method.
    pub fn name(&self) -> (s: &'static str)
        ensures
            s@ == self.label(),
    {
        match self {
            Self::QueryInterface => "QueryInterface",
            Self::AddRef => "AddRef",
            Self::Release => "Release",
            Self::CreateBuffer => "CreateBuffer",
            Self::CreateTexture1D => "CreateTexture1D",
            Self::CreateTexture2D => "CreateTexture2D",
            Self::CreateTexture3D => "CreateTexture3D",
            Self::CreateShaderResourceView => "CreateShaderResourceView",
            Self::CreateUnorderedAccessView => "CreateUnorderedAccessView",
            Self::CreateRenderTargetView => "CreateRenderTargetView",
            Self::CreateDepthStencilView => "CreateDepthStencilView",
            Self::CreateInputLayout => "CreateInputLayout",
            Self::CreateVertexShader => "CreateVertexShader",
            Self::CreateGeometryShader => "CreateGeometryShader",
            Self::CreateGeometryShaderWithStreamOutput => "CreateGeometryShaderWithStreamOutput",
            Self::CreatePixelShader => "CreatePixelShader",
            Self::CreateHullShader => "CreateHullShader",
            Self::CreateDomainShader => "CreateDomainShader",
            Self::CreateComputeShader => "CreateComputeShader",
            Self::CreateClassLinkage => "CreateClassLinkage",
            Self::CreateBlendState => "CreateBlendState",
            Self::CreateDepthStencilState => "CreateDepthStencilState",
            Self::CreateRasterizerState => "CreateRasterizerState",
            Self::CreateSamplerState => "CreateSamplerState",
            Self::CreateQuery => "CreateQuery",
            Self::CreatePredicate => "CreatePredicate",
            Self::CreateCounter => "CreateCounter",
            Self::CreateDeferredContext => "CreateDeferredContext",
            Self::OpenSharedResource => "OpenSharedResource",
            Self::CheckFormatSupport => "CheckFormatSupport",
            Self::CheckMultisampleQualityLevels => "CheckMultisampleQualityLevels",
            Self::CheckCounterInfo => "CheckCounterInfo",
            Self::CheckCounter => "CheckCounter",
            Self::CheckFeatureSupport => "CheckFeatureSupport",
            Self::GetPrivateData => "GetPrivateData",
            Self::SetPrivateData => "SetPrivateData",
            Self::SetPrivateDataInterface => "SetPrivateDataInterface",
            Self::GetFeatureLevel => "GetFeatureLevel",
            Self::GetCreationFlags => "GetCreationFlags",
            Self::GetDeviceRemovedReason => "GetDeviceRemovedReason",
            Self::GetImmediateContext => "GetImmediateContext",
            Self::SetExceptionMode => "SetExceptionMode",
            Self::GetExceptionMode => "GetExceptionMode",
        }
    }

    /// Every method stands at its own position, and that position is in the table.
    pub proof fn lemma_at_slot(method: Self)
        ensures
            Self::at(method.slot()) == Some(method),
            method.slot() < Self::COUNT,
    {
    }

    /// No two methods share a position.
    pub proof fn lemma_slot_injective(a: Self, b: Self)
        requires
            a.slot() == b.slot(),
        ensures
            a == b,
    {
    }
}

/// The methods of the device context, in the order of its dispatch table.
#[derive(Debug, Clone, Copy, PartialEq, Eq, Structural)]
pub enum DirectX11ContextMethods {
    QueryInterface,
    AddRef,
    Release,
    GetDevice,
    GetPrivateData,
    SetPrivateData,
    SetPrivateDataInterface,
    SetConstantBuffers,
    SetShaderResources,
    SetShader,
    SetSamplers,
    SetShader1,
    DrawIndexed,
    Draw,
    MapResource,
    Unmap,
    SetConstantBuffers1,
    IASetInputLayout,
    IASetVertexBuffers,
    IASetIndexBuffer,
    DrawIndexedInstanced,
    DrawInstanced,
    SetConstantBuffers2,
    SetShader2,
    IASetPrimitiveTopology,
    SetShaderResources1,
    SetSamplers1,
    Begin,
    End,
    GetData,
    SetPredication,
    SetShaderResources2,
    SetSamplers2,
    OMSetRenderTargets,
    OMSetRenderTargetsAndUnorderedAccessViews,
    OMSetBlendState,
    OMSetDepthStencilState,
    SOSetTargets,
    DrawAuto,
    DrawIndexedInstancedIndirect,
    DrawInstancedIndirect,
    Dispatch,
    DispatchIndirect,
    RSSetState,
    RSSetViewports,
    RSSetScissorRects,
    CopySubresourceRegion,
    CopyResource,
    UpdateSubresource,
    CopyStructureCount,
    ClearRenderTargetView,
    ClearUnorderedAccessViewUint,
    ClearUnorderedAccessViewFloat,
    ClearDepthStencilView,
    GenerateMips,
    SetResourceMinLOD,
    GetResourceMinLOD,
    ResolveSubresource,
    ExecuteCommandList,
    SetShaderResources3,
    SetShader4,
    SetSamplers3,
    SetConstantBuffers3,
    SetShaderResources4,
    SetShader5,
    SetSamplers4,
    SetConstantBuffers4,
    SetShaderResources5,
    CSSetUnorderedAccessViews,
    SetShader6,
    SetSamplers5,
    SetConstantBuffers5,
    VSGetConstantBuffers,
    PSGetShaderResources,
    PSGetShader,
    PSGetSamplers,
    VSGetShader,
    PSGetConstantBuffers,
    IAGetInputLayout,
    IAGetVertexBuffers,
    IAGetIndexBuffer,
    GSGetConstantBuffers,
    GSGetShader,
    IAGetPrimitiveTopology,
    VSGetShaderResources,
    VSGetSamplers,
    GetPredication,
    GSGetShaderResources,
    GSGetSamplers,
    OMGetRenderTargets,
    OMGetRenderTargetsAndUnorderedAccessViews,
    OMGetBlendState,
    OMGetDepthStencilState,
    SOGetTargets,
    RSGetState,
    RSGetViewports,
    RSGetScissorRects,
    HSGetShaderResources,
    HSGetShader,
    HSGetSamplers,
    HSGetConstantBuffers,
    DSGetShaderResources,
    DSGetShader,
    DSGetSamplers,
    DSGetConstantBuffers,
    CSGetShaderResources,
    CSGetUnorderedAccessViews,
    CSGetShader,
    CSGetSamplers,
    CSGetConstantBuffers,
    ClearState,
    Flush,
    GetType,
    GetContextFlags,
    FinishCommandList,
    CopySubresourceRegion1,
    UpdateSubresource1,
    DiscardResource,
    DiscardView,
    SetConstantBuffers1_0,
    SetConstantBuffers1_1,
    SetConstantBuffers1_2,
    SetConstantBuffers1_3,
    SetConstantBuffers1_4,
    SetConstantBuffers1_5,
    VSGetConstantBuffers1,
    HSGetConstantBuffers1,
    DSGetConstantBuffers1,
    GSGetConstantBuffers1,
    PSGetConstantBuffers1,
    CSGetConstantBuffers1,
    SwapDeviceContextState,
    ClearView,
    DiscardView1,
    UpdateTileMappings,
    CopyTileMappings,
    CopyTiles,
    UpdateTiles,
    ResizeTilePool,
    TiledResourceBarrier,
    IsAnnotationEnabled,
    SetMarkerInt,
    BeginEventInt,
    EndEvent,
}

impl DirectX11ContextMethods {
    /// How many methods the interface declares, and so how many slots its table has.
    pub const COUNT: usize = 144;

    /// The position of the method in the dispatch table.
    pub open spec fn slot(self) -> nat {
        match self {
            Self::QueryInterface => 0,
            Self::AddRef => 1,
            Self::Release => 2,
            Self::GetDevice => 3,
            Self::GetPrivateData => 4,
            Self::SetPrivateData => 5,
            Self::SetPrivateDataInterface => 6,
            Self::SetConstantBuffers => 7,
            Self::SetShaderResources => 8,
            Self::SetShader => 9,
            Self::SetSamplers => 10,
            Self::SetShader1 => 11,
            Self::DrawIndexed => 12,
            Self::Draw => 13,
            Self::MapResource => 14,
            Self::Unmap => 15,
            Self::SetConstantBuffers1 => 16,
            Self::IASetInputLayout => 17,
            Self::IASetVertexBuffers => 18,
            Self::IASetIndexBuffer => 19,
            Self::DrawIndexedInstanced => 20,
            Self::DrawInstanced => 21,
            Self::SetConstantBuffers2 => 22,
            Self::SetShader2 => 23,
            Self::IASetPrimitiveTopology => 24,
            Self::SetShaderResources1 => 25,
            Self::SetSamplers1 => 26,
            Self::Begin => 27,
            Self::End => 28,
            Self::GetData => 29,
            Self::SetPredication => 30,
            Self::SetShaderResources2 => 31,
            Self::SetSamplers2 => 32,
            Self::OMSetRenderTargets => 33,
            Self::OMSetRenderTargetsAndUnorderedAccessViews => 34,
            Self::OMSetBlendState => 35,
            Self::OMSetDepthStencilState => 36,
            Self::SOSetTargets => 37,
            Self::DrawAuto => 38,
            Self::DrawIndexedInstancedIndirect => 39,
            Self::DrawInstancedIndirect => 40,
            Self::Dispatch => 41,
            Self::DispatchIndirect => 42,
            Self::RSSetState => 43,
            Self::RSSetViewports => 44,
            Self::RSSetScissorRects => 45,
            Self::CopySubresourceRegion => 46,
            Self::CopyResource => 47,
            Self::UpdateSubresource => 48,
            Self::CopyStructureCount => 49,
            Self::ClearRenderTargetView => 50,
            Self::ClearUnorderedAccessViewUint => 51,
            Self::ClearUnorderedAccessViewFloat => 52,
            Self::ClearDepthStencilView => 53,
            Self::GenerateMips => 54,
            Self::SetResourceMinLOD => 55,
            Self::GetResourceMinLOD => 56,
            Self::ResolveSubresource => 57,
            Self::ExecuteCommandList => 58,
            Self::SetShaderResources3 => 59,
            Self::SetShader4 => 60,
            Self::SetSamplers3 => 61,
            Self::SetConstantBuffers3 => 62,
            Self::SetShaderResources4 => 63,
            Self::SetShader5 => 64,
            Self::SetSamplers4 => 65,
            Self::SetConstantBuffers4 => 66,
            Self::SetShaderResources5 => 67,
            Self::CSSetUnorderedAccessViews => 68,
            Self::SetShader6 => 69,
            Self::SetSamplers5 => 70,
            Self::SetConstantBuffers5 => 71,
            Self::VSGetConstantBuffers => 72,
            Self::PSGetShaderResources => 73,
            Self::PSGetShader => 74,
            Self::PSGetSamplers => 75,
            Self::VSGetShader => 76,
            Self::PSGetConstantBuffers => 77,
            Self::IAGetInputLayout => 78,
            Self::IAGetVertexBuffers => 79,
            Self::IAGetIndexBuffer => 80,
            Self::GSGetConstantBuffers => 81,
            Self::GSGetShader => 82,
            Self::IAGetPrimitiveTopology => 83,
            Self::VSGetShaderResources => 84,
            Self::VSGetSamplers => 85,
            Self::GetPredication => 86,
            Self::GSGetShaderResources => 87,
            Self::GSGetSamplers => 88,
            Self::OMGetRenderTargets => 89,
            Self::OMGetRenderTargetsAndUnorderedAccessViews => 90,
            Self::OMGetBlendState => 91,
            Self::OMGetDepthStencilState => 92,
            Self::SOGetTargets => 93,
            Self::RSGetState => 94,
            Self::RSGetViewports => 95,
            Self::RSGetScissorRects => 96,
            Self::HSGetShaderResources => 97,
            Self::HSGetShader => 98,
            Self::HSGetSamplers => 99,
            Self::HSGetConstantBuffers => 100,
            Self::DSGetShaderResources => 101,
            Self::DSGetShader => 102,
            Self::DSGetSamplers => 103,
            Self::DSGetConstantBuffers => 104,
            Self::CSGetShaderResources => 105,
            Self::CSGetUnorderedAccessViews => 106,
            Self::CSGetShader => 107,
            Self::CSGetSamplers => 108,
            Self::CSGetConstantBuffers => 109,
            Self::ClearState => 110,
            Self::Flush => 111,
            Self::GetType => 112,
            Self::GetContextFlags => 113,
            Self::FinishCommandList => 114,
            Self::CopySubresourceRegion1 => 115,
            Self::UpdateSubresource1 => 116,
            Self::DiscardResource => 117,
            Self::DiscardView => 118,
            Self::SetConstantBuffers1_0 => 119,
            Self::SetConstantBuffers1_1 => 120,
            Self::SetConstantBuffers1_2 => 121,
            Self::SetConstantBuffers1_3 => 122,
            Self::SetConstantBuffers1_4 => 123,
            Self::SetConstantBuffers1_5 => 124,
            Self::VSGetConstantBuffers1 => 125,
            Self::HSGetConstantBuffers1 => 126,
            Self::DSGetConstantBuffers1 => 127,
            Self::GSGetConstantBuffers1 => 128,
            Self::PSGetConstantBuffers1 => 129,
            Self::CSGetConstantBuffers1 => 130,
            Self::SwapDeviceContextState => 131,
            Self::ClearView => 132,
            Self::DiscardView1 => 133,
            Self::UpdateTileMappings => 134,
            Self::CopyTileMappings => 135,
            Self::CopyTiles => 136,
            Self::UpdateTiles => 137,
            Self::ResizeTilePool => 138,
            Self::TiledResourceBarrier => 139,
            Self::IsAnnotationEnabled => 140,
            Self::SetMarkerInt => 141,
            Self::BeginEventInt => 142,
            Self::EndEvent => 143,
        }
    }

    /// The symbolic name of the method.
    pub open spec fn label(self) -> Seq<char> {
        match self {
            Self::QueryInterface => "QueryInterface"@,
            Self::AddRef => "AddRef"@,
            Self::Release => "Release"@,
            Self::GetDevice => "GetDevice"@,
            Self::GetPrivateData => "GetPrivateData"@,
            Self::SetPrivateData => "SetPrivateData"@,
            Self::SetPrivateDataInterface => "SetPrivateDataInterface"@,
            Self::SetConstantBuffers => "SetConstantBuffers"@,
            Self::SetShaderResources => "SetShaderResources"@,
            Self::SetShader => "SetShader"@,
            Self::SetSamplers => "SetSamplers"@,
            Self::SetShader1 => "SetShader1"@,
            Self::DrawIndexed => "DrawIndexed"@,
            Self::Draw => "Draw"@,
            Self::MapResource => "Map"@,
            Self::Unmap => "Unmap"@,
            Self::SetConstantBuffers1 => "SetConstantBuffers1"@,
            Self::IASetInputLayout => "IASetInputLayout"@,
            Self::IASetVertexBuffers => "IASetVertexBuffers"@,
            Self::IASetIndexBuffer => "IASetIndexBuffer"@,
            Self::DrawIndexedInstanced => "DrawIndexedInstanced"@,
            Self::DrawInstanced => "DrawInstanced"@,
            Self::SetConstantBuffers2 => "SetConstantBuffers2"@,
            Self::SetShader2 => "SetShader2"@,
            Self::IASetPrimitiveTopology => "IASetPrimitiveTopology"@,
            Self::SetShaderResources1 => "SetShaderResources1"@,
            Self::SetSamplers1 => "SetSamplers1"@,
            Self::Begin => "Begin"@,
            Self::End => "End"@,
            Self::GetData => "GetData"@,
            Self::SetPredication => "SetPredication"@,
            Self::SetShaderResources2 => "SetShaderResources2"@,
            Self::SetSamplers2 => "SetSamplers2"@,
            Self::OMSetRenderTargets => "OMSetRenderTargets"@,
            Self::OMSetRenderTargetsAndUnorderedAccessViews => "OMSetRenderTargetsAndUnorderedAccessViews"@,
            Self::OMSetBlendState => "OMSetBlendState"@,
            Self::OMSetDepthStencilState => "OMSetDepthStencilState"@,
            Self::SOSetTargets => "SOSetTargets"@,
            Self::DrawAuto => "DrawAuto"@,
            Self::DrawIndexedInstancedIndirect => "DrawIndexedInstancedIndirect"@,
            Self::DrawInstancedIndirect => "DrawInstancedIndirect"@,
            Self::Dispatch => "Dispatch"@,
            Self::DispatchIndirect => "DispatchIndirect"@,
            Self::RSSetState => "RSSetState"@,
            Self::RSSetViewports => "RSSetViewports"@,
            Self::RSSetScissorRects => "RSSetScissorRects"@,
            Self::CopySubresourceRegion => "CopySubresourceRegion"@,
            Self::CopyResource => "CopyResource"@,
            Self::UpdateSubresource => "UpdateSubresource"@,
            Self::CopyStructureCount => "CopyStructureCount"@,
            Self::ClearRenderTargetView => "ClearRenderTargetView"@,
            Self::ClearUnorderedAccessViewUint => "ClearUnorderedAccessViewUint"@,
            Self::ClearUnorderedAccessViewFloat => "ClearUnorderedAccessViewFloat"@,
            Self::ClearDepthStencilView => "ClearDepthStencilView"@,
            Self::GenerateMips => "GenerateMips"@,
            Self::SetResourceMinLOD => "SetResourceMinLOD"@,
            Self::GetResourceMinLOD => "GetResourceMinLOD"@,
            Self::ResolveSubresource => "ResolveSubresource"@,
            Self::ExecuteCommandList => "ExecuteCommandList"@,
            Self::SetShaderResources3 => "SetShaderResources3"@,
            Self::SetShader4 => "SetShader4"@,
            Self::SetSamplers3 => "SetSamplers3"@,
            Self::SetConstantBuffers3 => "SetConstantBuffers3"@,
            Self::SetShaderResources4 => "SetShaderResources4"@,
            Self::SetShader5 => "SetShader5"@,
            Self::SetSamplers4 => "SetSamplers4"@,
            Self::SetConstantBuffers4 => "SetConstantBuffers4"@,
            Self::SetShaderResources5 => "SetShaderResources5"@,
            Self::CSSetUnorderedAccessViews => "CSSetUnorderedAccessViews"@,
            Self::SetShader6 => "SetShader6"@,
            Self::SetSamplers5 => "SetSamplers5"@,
            Self::SetConstantBuffers5 => "SetConstantBuffers5"@,
            Self::VSGetConstantBuffers => "VSGetConstantBuffers"@,
            Self::PSGetShaderResources => "PSGetShaderResources"@,
            Self::PSGetShader => "PSGetShader"@,
            Self::PSGetSamplers => "PSGetSamplers"@,
            Self::VSGetShader => "VSGetShader"@,
            Self::PSGetConstantBuffers => "PSGetConstantBuffers"@,
            Self::IAGetInputLayout => "IAGetInputLayout"@,
            Self::IAGetVertexBuffers => "IAGetVertexBuffers"@,
            Self::IAGetIndexBuffer => "IAGetIndexBuffer"@,
            Self::GSGetConstantBuffers => "GSGetConstantBuffers"@,
            Self::GSGetShader => "GSGetShader"@,
            Self::IAGetPrimitiveTopology => "IAGetPrimitiveTopology"@,
            Self::VSGetShaderResources => "VSGetShaderResources"@,
            Self::VSGetSamplers => "VSGetSamplers"@,
            Self::GetPredication => "GetPredication"@,
            Self::GSGetShaderResources => "GSGetShaderResources"@,
            Self::GSGetSamplers => "GSGetSamplers"@,
            Self::OMGetRenderTargets => "OMGetRenderTargets"@,
            Self::OMGetRenderTargetsAndUnorderedAccessViews => "OMGetRenderTargetsAndUnorderedAccessViews"@,
            Self::OMGetBlendState => "OMGetBlendState"@,
            Self::OMGetDepthStencilState => "OMGetDepthStencilState"@,
            Self::SOGetTargets => "SOGetTargets"@,
            Self::RSGetState => "RSGetState"@,
            Self::RSGetViewports => "RSGetViewports"@,
            Self::RSGetScissorRects => "RSGetScissorRects"@,
            Self::HSGetShaderResources => "HSGetShaderResources"@,
            Self::HSGetShader => "HSGetShader"@,
            Self::HSGetSamplers => "HSGetSamplers"@,
            Self::HSGetConstantBuffers => "HSGetConstantBuffers"@,
            Self::DSGetShaderResources => "DSGetShaderResources"@,
            Self::DSGetShader => "DSGetShader"@,
            Self::DSGetSamplers => "DSGetSamplers"@,
            Self::DSGetConstantBuffers => "DSGetConstantBuffers"@,
            Self::CSGetShaderResources => "CSGetShaderResources"@,
            Self::CSGetUnorderedAccessViews => "CSGetUnorderedAccessViews"@,
            Self::CSGetShader => "CSGetShader"@,
            Self::CSGetSamplers => "CSGetSamplers"@,
            Self::CSGetConstantBuffers => "CSGetConstantBuffers"@,
            Self::ClearState => "ClearState"@,
            Self::Flush => "Flush"@,
            Self::GetType => "GetType"@,
            Self::GetContextFlags => "GetContextFlags"@,
            Self::FinishCommandList => "FinishCommandList"@,
            Self::CopySubresourceRegion1 => "CopySubresourceRegion1"@,
            Self::UpdateSubresource1 => "UpdateSubresource1"@,
            Self::DiscardResource => "DiscardResource"@,
            Self::DiscardView => "DiscardView"@,
            Self::SetConstantBuffers1_0 => "SetConstantBuffers1_0"@,
            Self::SetConstantBuffers1_1 => "SetConstantBuffers1_1"@,
            Self::SetConstantBuffers1_2 => "SetConstantBuffers1_2"@,
            Self::SetConstantBuffers1_3 => "SetConstantBuffers1_3"@,
            Self::SetConstantBuffers1_4 => "SetConstantBuffers1_4"@,
            Self::SetConstantBuffers1_5 => "SetConstantBuffers1_5"@,
            Self::VSGetConstantBuffers1 => "VSGetConstantBuffers1"@,
            Self::HSGetConstantBuffers1 => "HSGetConstantBuffers1"@,
            Self::DSGetConstantBuffers1 => "DSGetConstantBuffers1"@,
            Self::GSGetConstantBuffers1 => "GSGetConstantBuffers1"@,
            Self::PSGetConstantBuffers1 => "PSGetConstantBuffers1"@,
            Self::CSGetConstantBuffers1 => "CSGetConstantBuffers1"@,
            Self::SwapDeviceContextState => "SwapDeviceContextState"@,
            Self::ClearView => "ClearView"@,
            Self::DiscardView1 => "DiscardView1"@,
            Self::UpdateTileMappings => "UpdateTileMappings"@,
            Self::CopyTileMappings => "CopyTileMappings"@,
            Self::CopyTiles => "CopyTiles"@,
            Self::UpdateTiles => "UpdateTiles"@,
            Self::ResizeTilePool => "ResizeTilePool"@,
            Self::TiledResourceBarrier => "TiledResourceBarrier"@,
            Self::IsAnnotationEnabled => "IsAnnotationEnabled"@,
            Self::SetMarkerInt => "SetMarkerInt"@,
            Self::BeginEventInt => "BeginEventInt"@,
            Self::EndEvent => "EndEvent"@,
        }
    }

    /// The method that stands at position `i`, where the table has such a position.
    pub open spec fn at(i: nat) -> Option<Self> {
        if exists|m: Self| m.slot() == i {
            Some(choose|m: Self| m.slot() == i)
        } else {
            None
        }
    }

    /// The position of the method in the dispatch table.
    pub fn ordinal(&self) -> (i: usize)
        ensures
            i == self.slot(),
            i < Self::COUNT,
    {
        match self {
            Self::QueryInterface => 0,
            Self::AddRef => 1,
            Self::Release => 2,
            Self::GetDevice => 3,
            Self::GetPrivateData => 4,
            Self::SetPrivateData => 5,
            Self::SetPrivateDataInterface => 6,
            Self::SetConstantBuffers => 7,
            Self::SetShaderResources => 8,
            Self::SetShader => 9,
            Self::SetSamplers => 10,
            Self::SetShader1 => 11,
            Self::DrawIndexed => 12,
            Self::Draw => 13,
            Self::MapResource => 14,
            Self::Unmap => 15,
            Self::SetConstantBuffers1 => 16,
            Self::IASetInputLayout => 17,
            Self::IASetVertexBuffers => 18,
            Self::IASetIndexBuffer => 19,
            Self::DrawIndexedInstanced => 20,
            Self::DrawInstanced => 21,
            Self::SetConstantBuffers2 => 22,
            Self::SetShader2 => 23,
            Self::IASetPrimitiveTopology => 24,
            Self::SetShaderResources1 => 25,
            Self::SetSamplers1 => 26,
            Self::Begin => 27,
            Self::End => 28,
            Self::GetData => 29,
            Self::SetPredication => 30,
            Self::SetShaderResources2 => 31,
            Self::SetSamplers2 => 32,
            Self::OMSetRenderTargets => 33,
            Self::OMSetRenderTargetsAndUnorderedAccessViews => 34,
            Self::OMSetBlendState => 35,
            Self::OMSetDepthStencilState => 36,
            Self::SOSetTargets => 37,
            Self::DrawAuto => 38,
            Self::DrawIndexedInstancedIndirect => 39,
            Self::DrawInstancedIndirect => 40,
            Self::Dispatch => 41,
            Self::DispatchIndirect => 42,
            Self::RSSetState => 43,
            Self::RSSetViewports => 44,
            Self::RSSetScissorRects => 45,
            Self::CopySubresourceRegion => 46,
            Self::CopyResource => 47,
            Self::UpdateSubresource => 48,
            Self::CopyStructureCount => 49,
            Self::ClearRenderTargetView => 50,
            Self::ClearUnorderedAccessViewUint => 51,
            Self::ClearUnorderedAccessViewFloat => 52,
            Self::ClearDepthStencilView => 53,
            Self::GenerateMips => 54,
            Self::SetResourceMinLOD => 55,
            Self::GetResourceMinLOD => 56,
            Self::ResolveSubresource => 57,
            Self::ExecuteCommandList => 58,
            Self::SetShaderResources3 => 59,
            Self::SetShader4 => 60,
            Self::SetSamplers3 => 61,
            Self::SetConstantBuffers3 => 62,
            Self::SetShaderResources4 => 63,
            Self::SetShader5 => 64,
            Self::SetSamplers4 => 65,
            Self::SetConstantBuffers4 => 66,
            Self::SetShaderResources5 => 67,
            Self::CSSetUnorderedAccessViews => 68,
            Self::SetShader6 => 69,
            Self::SetSamplers5 => 70,
            Self::SetConstantBuffers5 => 71,
            Self::VSGetConstantBuffers => 72,
            Self::PSGetShaderResources => 73,
            Self::PSGetShader => 74,
            Self::PSGetSamplers => 75,
            Self::VSGetShader => 76,
            Self::PSGetConstantBuffers => 77,
            Self::IAGetInputLayout => 78,
            Self::IAGetVertexBuffers => 79,
            Self::IAGetIndexBuffer => 80,
            Self::GSGetConstantBuffers => 81,
            Self::GSGetShader => 82,
            Self::IAGetPrimitiveTopology => 83,
            Self::VSGetShaderResources => 84,
            Self::VSGetSamplers => 85,
            Self::GetPredication => 86,
            Self::GSGetShaderResources => 87,
            Self::GSGetSamplers => 88,
            Self::OMGetRenderTargets => 89,
            Self::OMGetRenderTargetsAndUnorderedAccessViews => 90,
            Self::OMGetBlendState => 91,
            Self::OMGetDepthStencilState => 92,
            Self::SOGetTargets => 93,
            Self::RSGetState => 94,
            Self::RSGetViewports => 95,
            Self::RSGetScissorRects => 96,
            Self::HSGetShaderResources => 97,
            Self::HSGetShader => 98,
            Self::HSGetSamplers => 99,
            Self::HSGetConstantBuffers => 100,
            Self::DSGetShaderResources => 101,
            Self::DSGetShader => 102,
            Self::DSGetSamplers => 103,
            Self::DSGetConstantBuffers => 104,
            Self::CSGetShaderResources => 105,
            Self::CSGetUnorderedAccessViews => 106,
            Self::CSGetShader => 107,
            Self::CSGetSamplers => 108,
            Self::CSGetConstantBuffers => 109,
            Self::ClearState => 110,
            Self::Flush => 111,
            Self::GetType => 112,
            Self::GetContextFlags => 113,
            Self::FinishCommandList => 114,
            Self::CopySubresourceRegion1 => 115,
            Self::UpdateSubresource1 => 116,
            Self::DiscardResource => 117,
            Self::DiscardView => 118,
            Self::SetConstantBuffers1_0 => 119,
            Self::SetConstantBuffers1_1 => 120,
            Self::SetConstantBuffers1_2 => 121,
            Self::SetConstantBuffers1_3 => 122,
            Self::SetConstantBuffers1_4 => 123,
            Self::SetConstantBuffers1_5 => 124,
            Self::VSGetConstantBuffers1 => 125,
            Self::HSGetConstantBuffers1 => 126,
            Self::DSGetConstantBuffers1 => 127,
            Self::GSGetConstantBuffers1 => 128,
            Self::PSGetConstantBuffers1 => 129,
            Self::CSGetConstantBuffers1 => 130,
            Self::SwapDeviceContextState => 131,
            Self::ClearView => 132,
            Self::DiscardView1 => 133,
            Self::UpdateTileMappings => 134,
            Self::CopyTileMappings => 135,
            Self::CopyTiles => 136,
            Self::UpdateTiles => 137,
            Self::ResizeTilePool => 138,
            Self::TiledResourceBarrier => 139,
            Self::IsAnnotationEnabled => 140,
            Self::SetMarkerInt => 141,
            Self::BeginEventInt => 142,
            Self::EndEvent => 143,
        }
    }

    /// The method that stands at a position of the dispatch table, if the table is that long.
    pub fn from_ordinal(i: usize) -> (method: Option<Self>)
        ensures
            method == Self::at(i as nat),
            method is Some <==> i < Self::COUNT,
    {
        let method = match i {
            0 => Some(Self::QueryInterface),
            1 => Some(Self::AddRef),
            2 => Some(Self::Release),
            3 => Some(Self::GetDevice),
            4 => Some(Self::GetPrivateData),
            5 => Some(Self::SetPrivateData),
            6 => Some(Self::SetPrivateDataInterface),
            7 => Some(Self::SetConstantBuffers),
            8 => Some(Self::SetShaderResources),
            9 => Some(Self::SetShader),
            10 => Some(Self::SetSamplers),
            11 => Some(Self::SetShader1),
            12 => Some(Self::DrawIndexed),
            13 => Some(Self::Draw),
            14 => Some(Self::MapResource),
            15 => Some(Self::Unmap),
            16 => Some(Self::SetConstantBuffers1),
            17 => Some(Self::IASetInputLayout),
            18 => Some(Self::IASetVertexBuffers),
            19 => Some(Self::IASetIndexBuffer),
            20 => Some(Self::DrawIndexedInstanced),
            21 => Some(Self::DrawInstanced),
            22 => Some(Self::SetConstantBuffers2),
            23 => Some(Self::SetShader2),
            24 => Some(Self::IASetPrimitiveTopology),
            25 => Some(Self::SetShaderResources1),
            26 => Some(Self::SetSamplers1),
            27 => Some(Self::Begin),
            28 => Some(Self::End),
            29 => Some(Self::GetData),
            30 => Some(Self::SetPredication),
            31 => Some(Self::SetShaderResources2),
            32 => Some(Self::SetSamplers2),
            33 => Some(Self::OMSetRenderTargets),
            34 => Some(Self::OMSetRenderTargetsAndUnorderedAccessViews),
            35 => Some(Self::OMSetBlendState),
            36 => Some(Self::OMSetDepthStencilState),
            37 => Some(Self::SOSetTargets),
            38 => Some(Self::DrawAuto),
            39 => Some(Self::DrawIndexedInstancedIndirect),
            40 => Some(Self::DrawInstancedIndirect),
            41 => Some(Self::Dispatch),
            42 => Some(Self::DispatchIndirect),
            43 => Some(Self::RSSetState),
            44 => Some(Self::RSSetViewports),
            45 => Some(Self::RSSetScissorRects),
            46 => Some(Self::CopySubresourceRegion),
            47 => Some(Self::CopyResource),
            48 => Some(Self::UpdateSubresource),
            49 => Some(Self::CopyStructureCount),
            50 => Some(Self::ClearRenderTargetView),
            51 => Some(Self::ClearUnorderedAccessViewUint),
            52 => Some(Self::ClearUnorderedAccessViewFloat),
            53 => Some(Self::ClearDepthStencilView),
            54 => Some(Self::GenerateMips),
            55 => Some(Self::SetResourceMinLOD),
            56 => Some(Self::GetResourceMinLOD),
            57 => Some(Self::ResolveSubresource),
            58 => Some(Self::ExecuteCommandList),
            59 => Some(Self::SetShaderResources3),
            60 => Some(Self::SetShader4),
            61 => Some(Self::SetSamplers3),
            62 => Some(Self::SetConstantBuffers3),
            63 => Some(Self::SetShaderResources4),
            64 => Some(Self::SetShader5),
            65 => Some(Self::SetSamplers4),
            66 => Some(Self::SetConstantBuffers4),
            67 => Some(Self::SetShaderResources5),
            68 => Some(Self::CSSetUnorderedAccessViews),
            69 => Some(Self::SetShader6),
            70 => Some(Self::SetSamplers5),
            71 => Some(Self::SetConstantBuffers5),
            72 => Some(Self::VSGetConstantBuffers),
            73 => Some(Self::PSGetShaderResources),
            74 => Some(Self::PSGetShader),
            75 => Some(Self::PSGetSamplers),
            76 => Some(Self::VSGetShader),
            77 => Some(Self::PSGetConstantBuffers),
            78 => Some(Self::IAGetInputLayout),
            79 => Some(Self::IAGetVertexBuffers),
            80 => Some(Self::IAGetIndexBuffer),
            81 => Some(Self::GSGetConstantBuffers),
            82 => Some(Self::GSGetShader),
            83 => Some(Self::IAGetPrimitiveTopology),
            84 => Some(Self::VSGetShaderResources),
            85 => Some(Self::VSGetSamplers),
            86 => Some(Self::GetPredication),
            87 => Some(Self::GSGetShaderResources),
            88 => Some(Self::GSGetSamplers),
            89 => Some(Self::OMGetRenderTargets),
            90 => Some(Self::OMGetRenderTargetsAndUnorderedAccessViews),
            91 => Some(Self::OMGetBlendState),
            92 => Some(Self::OMGetDepthStencilState),
            93 => Some(Self::SOGetTargets),
            94 => Some(Self::RSGetState),
            95 => Some(Self::RSGetViewports),
            96 => Some(Self::RSGetScissorRects),
            97 => Some(Self::HSGetShaderResources),
            98 => Some(Self::HSGetShader),
            99 => Some(Self::HSGetSamplers),
            100 => Some(Self::HSGetConstantBuffers),
            101 => Some(Self::DSGetShaderResources),
            102 => Some(Self::DSGetShader),
            103 => Some(Self::DSGetSamplers),
            104 => Some(Self::DSGetConstantBuffers),
            105 => Some(Self::CSGetShaderResources),
            106 => Some(Self::CSGetUnorderedAccessViews),
            107 => Some(Self::CSGetShader),
            108 => Some(Self::CSGetSamplers),
            109 => Some(Self::CSGetConstantBuffers),
            110 => Some(Self::ClearState),
            111 => Some(Self::Flush),
            112 => Some(Self::GetType),
            113 => Some(Self::GetContextFlags),
            114 => Some(Self::FinishCommandList),
            115 => Some(Self::CopySubresourceRegion1),
            116 => Some(Self::UpdateSubresource1),
            117 => Some(Self::DiscardResource),
            118 => Some(Self::DiscardView),
            119 => Some(Self::SetConstantBuffers1_0),
            120 => Some(Self::SetConstantBuffers1_1),
            121 => Some(Self::SetConstantBuffers1_2),
            122 => Some(Self::SetConstantBuffers1_3),
            123 => Some(Self::SetConstantBuffers1_4),
            124 => Some(Self::SetConstantBuffers1_5),
            125 => Some(Self::VSGetConstantBuffers1),
            126 => Some(Self::HSGetConstantBuffers1),
            127 => Some(Self::DSGetConstantBuffers1),
            128 => Some(Self::GSGetConstantBuffers1),
            129 => Some(Self::PSGetConstantBuffers1),
            130 => Some(Self::CSGetConstantBuffers1),
            131 => Some(Self::SwapDeviceContextState),
            132 => Some(Self::ClearView),
            133 => Some(Self::DiscardView1),
            134 => Some(Self::UpdateTileMappings),
            135 => Some(Self::CopyTileMappings),
            136 => Some(Self::CopyTiles),
            137 => Some(Self::UpdateTiles),
            138 => Some(Self::ResizeTilePool),
            139 => Some(Self::TiledResourceBarrier),
            140 => Some(Self::IsAnnotationEnabled),
            141 => Some(Self::SetMarkerInt),
            142 => Some(Self::BeginEventInt),
            143 => Some(Self::EndEvent),
            _ => None,
        };
        proof {
            if let Some(m) = method {
                assert(m.slot() == i);
            }
        }
        method
    }

    /// The symbolic name of the method.
    pub fn name(&self) -> (s: &'static str)
        ensures
            s@ == self.label(),
    {
        match self {
            Self::QueryInterface => "QueryInterface",
            Self::AddRef => "AddRef",
            Self::Release => "Release",
            Self::GetDevice => "GetDevice",
            Self::GetPrivateData => "GetPrivateData",
            Self::SetPrivateData => "SetPrivateData",
            Self::SetPrivateDataInterface => "SetPrivateDataInterface",
            Self::SetConstantBuffers => "SetConstantBuffers",
            Self::SetShaderResources => "SetShaderResources",
            Self::SetShader => "SetShader",
            Self::SetSamplers => "SetSamplers",
            Self::SetShader1 => "SetShader1",
            Self::DrawIndexed => "DrawIndexed",
            Self::Draw => "Draw",
            Self::MapResource => "Map",
            Self::Unmap => "Unmap",
            Self::SetConstantBuffers1 => "SetConstantBuffers1",
            Self::IASetInputLayout => "IASetInputLayout",
            Self::IASetVertexBuffers => "IASetVertexBuffers",
            Self::IASetIndexBuffer => "IASetIndexBuffer",
            Self::DrawIndexedInstanced => "DrawIndexedInstanced",
            Self::DrawInstanced => "DrawInstanced",
            Self::SetConstantBuffers2 => "SetConstantBuffers2",
            Self::SetShader2 => "SetShader2",
            Self::IASetPrimitiveTopology => "IASetPrimitiveTopology",
            Self::SetShaderResources1 => "SetShaderResources1",
            Self::SetSamplers1 => "SetSamplers1",
            Self::Begin => "Begin",
            Self::End => "End",
            Self::GetData => "GetData",
            Self::SetPredication => "SetPredication",
            Self::SetShaderResources2 => "SetShaderResources2",
            Self::SetSamplers2 => "SetSamplers2",
            Self::OMSetRenderTargets => "OMSetRenderTargets",
            Self::OMSetRenderTargetsAndUnorderedAccessViews => "OMSetRenderTargetsAndUnorderedAccessViews",
            Self::OMSetBlendState => "OMSetBlendState",
            Self::OMSetDepthStencilState => "OMSetDepthStencilState",
            Self::SOSetTargets => "SOSetTargets",
            Self::DrawAuto => "DrawAuto",
            Self::DrawIndexedInstancedIndirect => "DrawIndexedInstancedIndirect",
            Self::DrawInstancedIndirect => "DrawInstancedIndirect",
            Self::Dispatch => "Dispatch",
            Self::DispatchIndirect => "DispatchIndirect",
            Self::RSSetState => "RSSetState",
            Self::RSSetViewports => "RSSetViewports",
            Self::RSSetScissorRects => "RSSetScissorRects",
            Self::CopySubresourceRegion => "CopySubresourceRegion",
            Self::CopyResource => "CopyResource",
            Self::UpdateSubresource => "UpdateSubresource",
            Self::CopyStructureCount => "CopyStructureCount",
            Self::ClearRenderTargetView => "ClearRenderTargetView",
            Self::ClearUnorderedAccessViewUint => "ClearUnorderedAccessViewUint",
            Self::ClearUnorderedAccessViewFloat => "ClearUnorderedAccessViewFloat",
            Self::ClearDepthStencilView => "ClearDepthStencilView",
            Self::GenerateMips => "GenerateMips",
            Self::SetResourceMinLOD => "SetResourceMinLOD",
            Self::GetResourceMinLOD => "GetResourceMinLOD",
            Self::ResolveSubresource => "ResolveSubresource",
            Self::ExecuteCommandList => "ExecuteCommandList",
            Self::SetShaderResources3 => "SetShaderResources3",
            Self::SetShader4 => "SetShader4",
            Self::SetSamplers3 => "SetSamplers3",
            Self::SetConstantBuffers3 => "SetConstantBuffers3",
            Self::SetShaderResources4 => "SetShaderResources4",
            Self::SetShader5 => "SetShader5",
            Self::SetSamplers4 => "SetSamplers4",
            Self::SetConstantBuffers4 => "SetConstantBuffers4",
            Self::SetShaderResources5 => "SetShaderResources5",
            Self::CSSetUnorderedAccessViews => "CSSetUnorderedAccessViews",
            Self::SetShader6 => "SetShader6",
            Self::SetSamplers5 => "SetSamplers5",
            Self::SetConstantBuffers5 => "SetConstantBuffers5",
            Self::VSGetConstantBuffers => "VSGetConstantBuffers",
            Self::PSGetShaderResources => "PSGetShaderResources",
            Self::PSGetShader => "PSGetShader",
            Self::PSGetSamplers => "PSGetSamplers",
            Self::VSGetShader => "VSGetShader",
            Self::PSGetConstantBuffers => "PSGetConstantBuffers",
            Self::IAGetInputLayout => "IAGetInputLayout",
            Self::IAGetVertexBuffers => "IAGetVertexBuffers",
            Self::IAGetIndexBuffer => "IAGetIndexBuffer",
            Self::GSGetConstantBuffers => "GSGetConstantBuffers",
            Self::GSGetShader => "GSGetShader",
            Self::IAGetPrimitiveTopology => "IAGetPrimitiveTopology",
            Self::VSGetShaderResources => "VSGetShaderResources",
            Self::VSGetSamplers => "VSGetSamplers",
            Self::GetPredication => "GetPredication",
            Self::GSGetShaderResources => "GSGetShaderResources",
            Self::GSGetSamplers => "GSGetSamplers",
            Self::OMGetRenderTargets => "OMGetRenderTargets",
            Self::OMGetRenderTargetsAndUnorderedAccessViews => "OMGetRenderTargetsAndUnorderedAccessViews",
            Self::OMGetBlendState => "OMGetBlendState",
            Self::OMGetDepthStencilState => "OMGetDepthStencilState",
            Self::SOGetTargets => "SOGetTargets",
            Self::RSGetState => "RSGetState",
            Self::RSGetViewports => "RSGetViewports",
            Self::RSGetScissorRects => "RSGetScissorRects",
            Self::HSGetShaderResources => "HSGetShaderResources",
            Self::HSGetShader => "HSGetShader",
            Self::HSGetSamplers => "HSGetSamplers",
            Self::HSGetConstantBuffers => "HSGetConstantBuffers",
            Self::DSGetShaderResources => "DSGetShaderResources",
            Self::DSGetShader => "DSGetShader",
            Self::DSGetSamplers => "DSGetSamplers",
            Self::DSGetConstantBuffers => "DSGetConstantBuffers",
            Self::CSGetShaderResources => "CSGetShaderResources",
            Self::CSGetUnorderedAccessViews => "CSGetUnorderedAccessViews",
            Self::CSGetShader => "CSGetShader",
            Self::CSGetSamplers => "CSGetSamplers",
            Self::CSGetConstantBuffers => "CSGetConstantBuffers",
            Self::ClearState => "ClearState",
            Self::Flush => "Flush",
            Self::GetType => "GetType",
            Self::GetContextFlags => "GetContextFlags",
            Self::FinishCommandList => "FinishCommandList",
            Self::CopySubresourceRegion1 => "CopySubresourceRegion1",
            Self::UpdateSubresource1 => "UpdateSubresource1",
            Self::DiscardResource => "DiscardResource",
            Self::DiscardView => "DiscardView",
            Self::SetConstantBuffers1_0 => "SetConstantBuffers1_0",
            Self::SetConstantBuffers1_1 => "SetConstantBuffers1_1",
            Self::SetConstantBuffers1_2 => "SetConstantBuffers1_2",
            Self::SetConstantBuffers1_3 => "SetConstantBuffers1_3",
            Self::SetConstantBuffers1_4 => "SetConstantBuffers1_4",
            Self::SetConstantBuffers1_5 => "SetConstantBuffers1_5",
            Self::VSGetConstantBuffers1 => "VSGetConstantBuffers1",
            Self::HSGetConstantBuffers1 => "HSGetConstantBuffers1",
            Self::DSGetConstantBuffers1 => "DSGetConstantBuffers1",
            Self::GSGetConstantBuffers1 => "GSGetConstantBuffers1",
            Self::PSGetConstantBuffers1 => "PSGetConstantBuffers1",
            Self::CSGetConstantBuffers1 => "CSGetConstantBuffers1",
            Self::SwapDeviceContextState => "SwapDeviceContextState",
            Self::ClearView => "ClearView",
            Self::DiscardView1 => "DiscardView1",
            Self::UpdateTileMappings => "UpdateTileMappings",
            Self::CopyTileMappings => "CopyTileMappings",
            Self::CopyTiles => "CopyTiles",
            Self::UpdateTiles => "UpdateTiles",
            Self::ResizeTilePool => "ResizeTilePool",
            Self::TiledResourceBarrier => "TiledResourceBarrier",
            Self::IsAnnotationEnabled => "IsAnnotationEnabled",
            Self::SetMarkerInt => "SetMarkerInt",
            Self::BeginEventInt => "BeginEventInt",
            Self::EndEvent => "EndEvent",
        }
    }

    /// Every method stands at its own position, and that position is in the table.
    pub proof fn lemma_at_slot(method: Self)
        ensures
            Self::at(method.slot()) == Some(method),
            method.slot() < Self::COUNT,
    {
    }

    /// No two methods share a position.
    pub proof fn lemma_slot_injective(a: Self, b: Self)
        requires
            a.slot() == b.slot(),
        ensures
            a == b,
    {
    }
}

/// The dispatch tables that a bootstrap of the second raster generation collects.
#[derive(Debug, PartialEq, Eq)]
pub struct DirectX11Methods {
    swapchain_vmt: Vec<usize>,
    device_vmt: Vec<usize>,
    context_vmt: Vec<usize>,
}

impl DirectX11Methods {
    /// The tables, in the order in which a bootstrap reads them.
    pub closed spec fn tables(&self) -> Seq<Seq<usize>> {
        seq![
            self.swapchain_vmt@,
            self.device_vmt@,
            self.context_vmt@,
        ]
    }

    #[verifier::type_invariant]
    spec fn every_table_is_complete(&self) -> bool {
        &&& self.swapchain_vmt@.len() == DirectX11SwapchainMethods::COUNT
        &&& self.device_vmt@.len() == DirectX11DeviceMethods::COUNT
        &&& self.context_vmt@.len() == DirectX11ContextMethods::COUNT
    }

    /// Puts the tables together, where each is as long as its interface declares.
    pub fn new(
        swapchain_vmt: Vec<usize>,
        device_vmt: Vec<usize>,
        context_vmt: Vec<usize>,
    ) -> (methods: Option<Self>)
        ensures
            methods is Some <==> {
                &&& swapchain_vmt@.len() == DirectX11SwapchainMethods::COUNT
                &&& device_vmt@.len() == DirectX11DeviceMethods::COUNT
                &&& context_vmt@.len() == DirectX11ContextMethods::COUNT
            },
            methods matches Some(m) ==> m.tables() == seq![
                swapchain_vmt@,
                device_vmt@,
                context_vmt@,
            ],
            methods matches Some(m) ==> tables_match(RenderEngine::DirectX11, m.tables()),
    {
        if swapchain_vmt.len() == DirectX11SwapchainMethods::COUNT
            && device_vmt.len() == DirectX11DeviceMethods::COUNT
            && context_vmt.len() == DirectX11ContextMethods::COUNT
        {
            let methods = DirectX11Methods {
                swapchain_vmt,
                device_vmt,
                context_vmt,
            };
            proof {
                lemma_layout(methods.tables());
            }
            Some(methods)
        } else {
            None
        }
    }

    /// The table of the swapchain.
    pub fn swapchain_vmt(&self) -> (table: &Vec<usize>)
        ensures
            table@ == self.tables()[0],
            table@.len() == DirectX11SwapchainMethods::COUNT,
    {
        proof {
            use_type_invariant(self);
        }
        &self.swapchain_vmt
    }

    /// The table of the device.
    pub fn device_vmt(&self) -> (table: &Vec<usize>)
        ensures
            table@ == self.tables()[1],
            table@.len() == DirectX11DeviceMethods::COUNT,
    {
        proof {
            use_type_invariant(self);
        }
        &self.device_vmt
    }

    /// The table of the device context.
    pub fn context_vmt(&self) -> (table: &Vec<usize>)
        ensures
            table@ == self.tables()[2],
            table@.len() == DirectX11ContextMethods::COUNT,
    {
        proof {
            use_type_invariant(self);
        }
        &self.context_vmt
    }

    /// Whether `listing` lists every slot of every table with the name of its
    /// method, table after table, the lines numbered through.
    pub open spec fn listed(&self, listing: Seq<MethodEntry>) -> bool {
        &&& listing.len() == DirectX11SwapchainMethods::COUNT
            + DirectX11DeviceMethods::COUNT
            + DirectX11ContextMethods::COUNT
        &&& lists_table(
            listing,
            0,
            Interface::DirectX11Swapchain,
            self.tables()[0],
        )
        &&& lists_table(
            listing,
            DirectX11SwapchainMethods::COUNT as int,
            Interface::DirectX11Device,
            self.tables()[1],
        )
        &&& lists_table(
            listing,
            DirectX11SwapchainMethods::COUNT + DirectX11DeviceMethods::COUNT,
            Interface::DirectX11Context,
            self.tables()[2],
        )
    }

    /// Lists every slot of every table with the name of its method.
    pub fn entries(&self) -> (listing: Vec<MethodEntry>)
        ensures
            self.listed(listing@),
    {
        proof {
            use_type_invariant(self);
        }
        let mut listing: Vec<MethodEntry> = Vec::new();
        append_entries(&mut listing, Interface::DirectX11Swapchain, &self.swapchain_vmt);
        append_entries(&mut listing, Interface::DirectX11Device, &self.device_vmt);
        append_entries(&mut listing, Interface::DirectX11Context, &self.context_vmt);
        listing
    }
}

/// Tables of the declared lengths are the tables of the backend's layout.
proof fn lemma_layout(tables: Seq<Seq<usize>>)
    requires
        tables.len() == 3,
        tables[0].len() == DirectX11SwapchainMethods::COUNT,
        tables[1].len() == DirectX11DeviceMethods::COUNT,
        tables[2].len() == DirectX11ContextMethods::COUNT,
    ensures
        tables_match(RenderEngine::DirectX11, tables),
{
}

} // verus!
