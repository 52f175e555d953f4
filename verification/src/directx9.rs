//! The first raster generation: its device, and what the device is created with.
use crate::interface::{append_entries, lists_table, Interface, MethodEntry};
use crate::protocol::tables_match;
use crate::RenderEngine;
use vstd::prelude::*;

verus! {

/// The methods of the device, in the order of its dispatch table.
#[derive(Debug, Clone, Copy, PartialEq, Eq, Structural)]
pub enum DirectX9DeviceMethods {
    QueryInterface,
    AddRef,
    Release,
    TestCooperativeLevel,
    GetAvailableTextureMem,
    EvictManagedResources,
    GetDirect3D,
    GetDeviceCaps,
    GetDisplayMode,
    GetCreationParameters,
    SetCursorProperties,
    SetCursorPosition,
    ShowCursor,
    CreateAdditionalSwapChain,
    GetSwapChain,
    GetNumberOfSwapChains,
    Reset,
    Present,
    GetBackBuffer,
    GetRasterStatus,
    SetDialogBoxMode,
    SetGammaRamp,
    GetGammaRamp,
    CreateTexture,
    CreateVolumeTexture,
    CreateCubeTexture,
    CreateVertexBuffer,
    CreateIndexBuffer,
    CreateRenderTarget,
    CreateDepthStencilSurface,
    UpdateSurface,
    UpdateTexture,
    GetRenderTargetData,
    GetFrontBufferData,
    StretchRect,
    ColorFill,
    CreateOffscreenPlainSurface,
    SetRenderTarget,
    GetRenderTarget,
    SetDepthStencilSurface,
    GetDepthStencilSurface,
    BeginScene,
    EndScene,
    Clear,
    SetTransform,
    GetTransform,
    MultiplyTransform,
    SetViewport,
    GetViewport,
    SetMaterial,
    GetMaterial,
    SetLight,
    GetLight,
    LightEnable,
    GetLightEnable,
    SetClipPlane,
    GetClipPlane,
    SetRenderState,
    GetRenderState,
    CreateStateBlock,
    BeginStateBlock,
    EndStateBlock,
    SetClipStatus,
    GetClipStatus,
    GetTexture,
    SetTexture,
    GetTextureStageState,
    SetTextureStageState,
    GetSamplerState,
    SetSamplerState,
    ValidateDevice,
    SetPaletteEntries,
    GetPaletteEntries,
    SetCurrentTexturePalette,
    GetCurrentTexturePalette,
    SetScissorRect,
    GetScissorRect,
    SetSoftwareVertexProcessing,
    GetSoftwareVertexProcessing,
    SetNPatchMode,
    GetNPatchMode,
    DrawPrimitive,
    DrawIndexedPrimitive,
    DrawPrimitiveUP,
    DrawIndexedPrimitiveUP,
    ProcessVertices,
    CreateVertexDeclaration,
    SetVertexDeclaration,
    GetVertexDeclaration,
    SetFVF,
    GetFVF,
    CreateVertexShader,
    SetVertexShader,
    GetVertexShader,
    SetVertexShaderConstantF,
    GetVertexShaderConstantF,
    SetVertexShaderConstantI,
    GetVertexShaderConstantI,
    SetVertexShaderConstantB,
    GetVertexShaderConstantB,
    SetStreamSource,
    GetStreamSource,
    SetStreamSourceFreq,
    GetStreamSourceFreq,
    SetIndices,
    GetIndices,
    CreatePixelShader,
    SetPixelShader,
    GetPixelShader,
    SetPixelShaderConstantF,
    GetPixelShaderConstantF,
    SetPixelShaderConstantI,
    GetPixelShaderConstantI,
    SetPixelShaderConstantB,
    GetPixelShaderConstantB,
    DrawRectPatch,
    DrawTriPatch,
    DeletePatch,
    CreateQuery,
}

impl DirectX9DeviceMethods {
    /// How many methods the interface declares, and so how many slots its table has.
    pub const COUNT: usize = 119;

    /// The position of the method in the dispatch table.
    pub open spec fn slot(self) -> nat {
        match self {
            Self::QueryInterface => 0,
            Self::AddRef => 1,
            Self::Release => 2,
            Self::TestCooperativeLevel => 3,
            Self::GetAvailableTextureMem => 4,
            Self::EvictManagedResources => 5,
            Self::GetDirect3D => 6,
            Self::GetDeviceCaps => 7,
            Self::GetDisplayMode => 8,
            Self::GetCreationParameters => 9,
            Self::SetCursorProperties => 10,
            Self::SetCursorPosition => 11,
            Self::ShowCursor => 12,
            Self::CreateAdditionalSwapChain => 13,
            Self::GetSwapChain => 14,
            Self::GetNumberOfSwapChains => 15,
            Self::Reset => 16,
            Self::Present => 17,
            Self::GetBackBuffer => 18,
            Self::GetRasterStatus => 19,
            Self::SetDialogBoxMode => 20,
            Self::SetGammaRamp => 21,
            Self::GetGammaRamp => 22,
            Self::CreateTexture => 23,
            Self::CreateVolumeTexture => 24,
            Self::CreateCubeTexture => 25,
            Self::CreateVertexBuffer => 26,
            Self::CreateIndexBuffer => 27,
            Self::CreateRenderTarget => 28,
            Self::CreateDepthStencilSurface => 29,
            Self::UpdateSurface => 30,
            Self::UpdateTexture => 31,
            Self::GetRenderTargetData => 32,
            Self::GetFrontBufferData => 33,
            Self::StretchRect => 34,
            Self::ColorFill => 35,
            Self::CreateOffscreenPlainSurface => 36,
            Self::SetRenderTarget => 37,
            Self::GetRenderTarget => 38,
            Self::SetDepthStencilSurface => 39,
            Self::GetDepthStencilSurface => 40,
            Self::BeginScene => 41,
            Self::EndScene => 42,
            Self::Clear => 43,
            Self::SetTransform => 44,
            Self::GetTransform => 45,
            Self::MultiplyTransform => 46,
            Self::SetViewport => 47,
            Self::GetViewport => 48,
            Self::SetMaterial => 49,
            Self::GetMaterial => 50,
            Self::SetLight => 51,
            Self::GetLight => 52,
            Self::LightEnable => 53,
            Self::GetLightEnable => 54,
            Self::SetClipPlane => 55,
            Self::GetClipPlane => 56,
            Self::SetRenderState => 57,
            Self::GetRenderState => 58,
            Self::CreateStateBlock => 59,
            Self::BeginStateBlock => 60,
            Self::EndStateBlock => 61,
            Self::SetClipStatus => 62,
            Self::GetClipStatus => 63,
            Self::GetTexture => 64,
            Self::SetTexture => 65,
            Self::GetTextureStageState => 66,
            Self::SetTextureStageState => 67,
            Self::GetSamplerState => 68,
            Self::SetSamplerState => 69,
            Self::ValidateDevice => 70,
            Self::SetPaletteEntries => 71,
            Self::GetPaletteEntries => 72,
            Self::SetCurrentTexturePalette => 73,
            Self::GetCurrentTexturePalette => 74,
            Self::SetScissorRect => 75,
            Self::GetScissorRect => 76,
            Self::SetSoftwareVertexProcessing => 77,
            Self::GetSoftwareVertexProcessing => 78,
            Self::SetNPatchMode => 79,
            Self::GetNPatchMode => 80,
            Self::DrawPrimitive => 81,
            Self::DrawIndexedPrimitive => 82,
            Self::DrawPrimitiveUP => 83,
            Self::DrawIndexedPrimitiveUP => 84,
            Self::ProcessVertices => 85,
            Self::CreateVertexDeclaration => 86,
            Self::SetVertexDeclaration => 87,
            Self::GetVertexDeclaration => 88,
            Self::SetFVF => 89,
            Self::GetFVF => 90,
            Self::CreateVertexShader => 91,
            Self::SetVertexShader => 92,
            Self::GetVertexShader => 93,
            Self::SetVertexShaderConstantF => 94,
            Self::GetVertexShaderConstantF => 95,
            Self::SetVertexShaderConstantI => 96,
            Self::GetVertexShaderConstantI => 97,
            Self::SetVertexShaderConstantB => 98,
            Self::GetVertexShaderConstantB => 99,
            Self::SetStreamSource => 100,
            Self::GetStreamSource => 101,
            Self::SetStreamSourceFreq => 102,
            Self::GetStreamSourceFreq => 103,
            Self::SetIndices => 104,
            Self::GetIndices => 105,
            Self::CreatePixelShader => 106,
            Self::SetPixelShader => 107,
            Self::GetPixelShader => 108,
            Self::SetPixelShaderConstantF => 109,
            Self::GetPixelShaderConstantF => 110,
            Self::SetPixelShaderConstantI => 111,
            Self::GetPixelShaderConstantI => 112,
            Self::SetPixelShaderConstantB => 113,
            Self::GetPixelShaderConstantB => 114,
            Self::DrawRectPatch => 115,
            Self::DrawTriPatch => 116,
            Self::DeletePatch => 117,
            Self::CreateQuery => 118,
        }
    }

    /// The symbolic name of the method.
    pub open spec fn label(self) -> Seq<char> {
        match self {
            Self::QueryInterface => "QueryInterface"@,
            Self::AddRef => "AddRef"@,
            Self::Release => "Release"@,
            Self::TestCooperativeLevel => "TestCooperativeLevel"@,
            Self::GetAvailableTextureMem => "GetAvailableTextureMem"@,
            Self::EvictManagedResources => "EvictManagedResources"@,
            Self::GetDirect3D => "GetDirect3D"@,
            Self::GetDeviceCaps => "GetDeviceCaps"@,
            Self::GetDisplayMode => "GetDisplayMode"@,
            Self::GetCreationParameters => "GetCreationParameters"@,
            Self::SetCursorProperties => "SetCursorProperties"@,
            Self::SetCursorPosition => "SetCursorPosition"@,
            Self::ShowCursor => "ShowCursor"@,
            Self::CreateAdditionalSwapChain => "CreateAdditionalSwapChain"@,
            Self::GetSwapChain => "GetSwapChain"@,
            Self::GetNumberOfSwapChains => "GetNumberOfSwapChains"@,
            Self::Reset => "Reset"@,
            Self::Present => "Present"@,
            Self::GetBackBuffer => "GetBackBuffer"@,
            Self::GetRasterStatus => "GetRasterStatus"@,
            Self::SetDialogBoxMode => "SetDialogBoxMode"@,
            Self::SetGammaRamp => "SetGammaRamp"@,
            Self::GetGammaRamp => "GetGammaRamp"@,
            Self::CreateTexture => "CreateTexture"@,
            Self::CreateVolumeTexture => "CreateVolumeTexture"@,
            Self::CreateCubeTexture => "CreateCubeTexture"@,
            Self::CreateVertexBuffer => "CreateVertexBuffer"@,
            Self::CreateIndexBuffer => "CreateIndexBuffer"@,
            Self::CreateRenderTarget => "CreateRenderTarget"@,
            Self::CreateDepthStencilSurface => "CreateDepthStencilSurface"@,
            Self::UpdateSurface => "UpdateSurface"@,
            Self::UpdateTexture => "UpdateTexture"@,
            Self::GetRenderTargetData => "GetRenderTargetData"@,
            Self::GetFrontBufferData => "GetFrontBufferData"@,
            Self::StretchRect => "StretchRect"@,
            Self::ColorFill => "ColorFill"@,
            Self::CreateOffscreenPlainSurface => "CreateOffscreenPlainSurface"@,
            Self::SetRenderTarget => "SetRenderTarget"@,
            Self::GetRenderTarget => "GetRenderTarget"@,
            Self::SetDepthStencilSurface => "SetDepthStencilSurface"@,
            Self::GetDepthStencilSurface => "GetDepthStencilSurface"@,
            Self::BeginScene => "BeginScene"@,
            Self::EndScene => "EndScene"@,
            Self::Clear => "Clear"@,
            Self::SetTransform => "SetTransform"@,
            Self::GetTransform => "GetTransform"@,
            Self::MultiplyTransform => "MultiplyTransform"@,
            Self::SetViewport => "SetViewport"@,
            Self::GetViewport => "GetViewport"@,
            Self::SetMaterial => "SetMaterial"@,
            Self::GetMaterial => "GetMaterial"@,
            Self::SetLight => "SetLight"@,
            Self::GetLight => "GetLight"@,
            Self::LightEnable => "LightEnable"@,
            Self::GetLightEnable => "GetLightEnable"@,
            Self::SetClipPlane => "SetClipPlane"@,
            Self::GetClipPlane => "GetClipPlane"@,
            Self::SetRenderState => "SetRenderState"@,
            Self::GetRenderState => "GetRenderState"@,
            Self::CreateStateBlock => "CreateStateBlock"@,
            Self::BeginStateBlock => "BeginStateBlock"@,
            Self::EndStateBlock => "EndStateBlock"@,
            Self::SetClipStatus => "SetClipStatus"@,
            Self::GetClipStatus => "GetClipStatus"@,
            Self::GetTexture => "GetTexture"@,
            Self::SetTexture => "SetTexture"@,
            Self::GetTextureStageState => "GetTextureStageState"@,
            Self::SetTextureStageState => "SetTextureStageState"@,
            Self::GetSamplerState => "GetSamplerState"@,
            Self::SetSamplerState => "SetSamplerState"@,
            Self::ValidateDevice => "ValidateDevice"@,
            Self::SetPaletteEntries => "SetPaletteEntries"@,
            Self::GetPaletteEntries => "GetPaletteEntries"@,
            Self::SetCurrentTexturePalette => "SetCurrentTexturePalette"@,
            Self::GetCurrentTexturePalette => "GetCurrentTexturePalette"@,
            Self::SetScissorRect => "SetScissorRect"@,
            Self::GetScissorRect => "GetScissorRect"@,
            Self::SetSoftwareVertexProcessing => "SetSoftwareVertexProcessing"@,
            Self::GetSoftwareVertexProcessing => "GetSoftwareVertexProcessing"@,
            Self::SetNPatchMode => "SetNPatchMode"@,
            Self::GetNPatchMode => "GetNPatchMode"@,
            Self::DrawPrimitive => "DrawPrimitive"@,
            Self::DrawIndexedPrimitive => "DrawIndexedPrimitive"@,
            Self::DrawPrimitiveUP => "DrawPrimitiveUP"@,
            Self::DrawIndexedPrimitiveUP => "DrawIndexedPrimitiveUP"@,
            Self::ProcessVertices => "ProcessVertices"@,
            Self::CreateVertexDeclaration => "CreateVertexDeclaration"@,
            Self::SetVertexDeclaration => "SetVertexDeclaration"@,
            Self::GetVertexDeclaration => "GetVertexDeclaration"@,
            Self::SetFVF => "SetFVF"@,
            Self::GetFVF => "GetFVF"@,
            Self::CreateVertexShader => "CreateVertexShader"@,
            Self::SetVertexShader => "SetVertexShader"@,
            Self::GetVertexShader => "GetVertexShader"@,
            Self::SetVertexShaderConstantF => "SetVertexShaderConstantF"@,
            Self::GetVertexShaderConstantF => "GetVertexShaderConstantF"@,
            Self::SetVertexShaderConstantI => "SetVertexShaderConstantI"@,
            Self::GetVertexShaderConstantI => "GetVertexShaderConstantI"@,
            Self::SetVertexShaderConstantB => "SetVertexShaderConstantB"@,
            Self::GetVertexShaderConstantB => "GetVertexShaderConstantB"@,
            Self::SetStreamSource => "SetStreamSource"@,
            Self::GetStreamSource => "GetStreamSource"@,
            Self::SetStreamSourceFreq => "SetStreamSourceFreq"@,
            Self::GetStreamSourceFreq => "GetStreamSourceFreq"@,
            Self::SetIndices => "SetIndices"@,
            Self::GetIndices => "GetIndices"@,
            Self::CreatePixelShader => "CreatePixelShader"@,
            Self::SetPixelShader => "SetPixelShader"@,
            Self::GetPixelShader => "GetPixelShader"@,
            Self::SetPixelShaderConstantF => "SetPixelShaderConstantF"@,
            Self::GetPixelShaderConstantF => "GetPixelShaderConstantF"@,
            Self::SetPixelShaderConstantI => "SetPixelShaderConstantI"@,
            Self::GetPixelShaderConstantI => "GetPixelShaderConstantI"@,
            Self::SetPixelShaderConstantB => "SetPixelShaderConstantB"@,
            Self::GetPixelShaderConstantB => "GetPixelShaderConstantB"@,
            Self::DrawRectPatch => "DrawRectPatch"@,
            Self::DrawTriPatch => "DrawTriPatch"@,
            Self::DeletePatch => "DeletePatch"@,
            Self::CreateQuery => "CreateQuery"@,
        }
    }

    /// The method that stands at position `i`, where the table has such a position.
    pub open spec fn at(i: nat) -> Option<Self> {
        if exists|m: Self| m.slot() == i {
            Some(choose|m: Self| m.slot() == i)
        } else {
            None
        }
    }

    /// The position of the method in the dispatch table.
    pub fn ordinal(&self) -> (i: usize)
        ensures
            i == self.slot(),
            i < Self::COUNT,
    {
        match self {
            Self::QueryInterface => 0,
            Self::AddRef => 1,
            Self::Release => 2,
            Self::TestCooperativeLevel => 3,
            Self::GetAvailableTextureMem => 4,
            Self::EvictManagedResources => 5,
            Self::GetDirect3D => 6,
            Self::GetDeviceCaps => 7,
            Self::GetDisplayMode => 8,
            Self::GetCreationParameters => 9,
            Self::SetCursorProperties => 10,
            Self::SetCursorPosition => 11,
            Self::ShowCursor => 12,
            Self::CreateAdditionalSwapChain => 13,
            Self::GetSwapChain => 14,
            Self::GetNumberOfSwapChains => 15,
            Self::Reset => 16,
            Self::Present => 17,
            Self::GetBackBuffer => 18,
            Self::GetRasterStatus => 19,
            Self::SetDialogBoxMode => 20,
            Self::SetGammaRamp => 21,
            Self::GetGammaRamp => 22,
            Self::CreateTexture => 23,
            Self::CreateVolumeTexture => 24,
            Self::CreateCubeTexture => 25,
            Self::CreateVertexBuffer => 26,
            Self::CreateIndexBuffer => 27,
            Self::CreateRenderTarget => 28,
            Self::CreateDepthStencilSurface => 29,
            Self::UpdateSurface => 30,
            Self::UpdateTexture => 31,
            Self::GetRenderTargetData => 32,
            Self::GetFrontBufferData => 33,
            Self::StretchRect => 34,
            Self::ColorFill => 35,
            Self::CreateOffscreenPlainSurface => 36,
            Self::SetRenderTarget => 37,
            Self::GetRenderTarget => 38,
            Self::SetDepthStencilSurface => 39,
            Self::GetDepthStencilSurface => 40,
            Self::BeginScene => 41,
            Self::EndScene => 42,
            Self::Clear => 43,
            Self::SetTransform => 44,
            Self::GetTransform => 45,
            Self::MultiplyTransform => 46,
            Self::SetViewport => 47,
            Self::GetViewport => 48,
            Self::SetMaterial => 49,
            Self::GetMaterial => 50,
            Self::SetLight => 51,
            Self::GetLight => 52,
            Self::LightEnable => 53,
            Self::GetLightEnable => 54,
            Self::SetClipPlane => 55,
            Self::GetClipPlane => 56,
            Self::SetRenderState => 57,
            Self::GetRenderState => 58,
            Self::CreateStateBlock => 59,
            Self::BeginStateBlock => 60,
            Self::EndStateBlock => 61,
            Self::SetClipStatus => 62,
            Self::GetClipStatus => 63,
            Self::GetTexture => 64,
            Self::SetTexture => 65,
            Self::GetTextureStageState => 66,
            Self::SetTextureStageState => 67,
            Self::GetSamplerState => 68,
            Self::SetSamplerState => 69,
            Self::ValidateDevice => 70,
            Self::SetPaletteEntries => 71,
            Self::GetPaletteEntries => 72,
            Self::SetCurrentTexturePalette => 73,
            Self::GetCurrentTexturePalette => 74,
            Self::SetScissorRect => 75,
            Self::GetScissorRect => 76,
            Self::SetSoftwareVertexProcessing => 77,
            Self::GetSoftwareVertexProcessing => 78,
            Self::SetNPatchMode => 79,
            Self::GetNPatchMode => 80,
            Self::DrawPrimitive => 81,
            Self::DrawIndexedPrimitive => 82,
            Self::DrawPrimitiveUP => 83,
            Self::DrawIndexedPrimitiveUP => 84,
            Self::ProcessVertices => 85,
            Self::CreateVertexDeclaration => 86,
            Self::SetVertexDeclaration => 87,
            Self::GetVertexDeclaration => 88,
            Self::SetFVF => 89,
            Self::GetFVF => 90,
            Self::CreateVertexShader => 91,
            Self::SetVertexShader => 92,
            Self::GetVertexShader => 93,
            Self::SetVertexShaderConstantF => 94,
            Self::GetVertexShaderConstantF => 95,
            Self::SetVertexShaderConstantI => 96,
            Self::GetVertexShaderConstantI => 97,
            Self::SetVertexShaderConstantB => 98,
            Self::GetVertexShaderConstantB => 99,
            Self::SetStreamSource => 100,
            Self::GetStreamSource => 101,
            Self::SetStreamSourceFreq => 102,
            Self::GetStreamSourceFreq => 103,
            Self::SetIndices => 104,
            Self::GetIndices => 105,
            Self::CreatePixelShader => 106,
            Self::SetPixelShader => 107,
            Self::GetPixelShader => 108,
            Self::SetPixelShaderConstantF => 109,
            Self::GetPixelShaderConstantF => 110,
            Self::SetPixelShaderConstantI => 111,
            Self::GetPixelShaderConstantI => 112,
            Self::SetPixelShaderConstantB => 113,
            Self::GetPixelShaderConstantB => 114,
            Self::DrawRectPatch => 115,
            Self::DrawTriPatch => 116,
            Self::DeletePatch => 117,
            Self::CreateQuery => 118,
        }
    }

    /// The method that stands at a position of the dispatch table, if the table is that long.
    pub fn from_ordinal(i: usize) -> (method: Option<Self>)
        ensures
            method == Self::at(i as nat),
            method is Some <==> i < Self::COUNT,
    {
        let method = match i {
            0 => Some(Self::QueryInterface),
            1 => Some(Self::AddRef),
            2 => Some(Self::Release),
            3 => Some(Self::TestCooperativeLevel),
            4 => Some(Self::GetAvailableTextureMem),
            5 => Some(Self::EvictManagedResources),
            6 => Some(Self::GetDirect3D),
            7 => Some(Self::GetDeviceCaps),
            8 => Some(Self::GetDisplayMode),
            9 => Some(Self::GetCreationParameters),
            10 => Some(Self::SetCursorProperties),
            11 => Some(Self::SetCursorPosition),
            12 => Some(Self::ShowCursor),
            13 => Some(Self::CreateAdditionalSwapChain),
            14 => Some(Self::GetSwapChain),
            15 => Some(Self::GetNumberOfSwapChains),
            16 => Some(Self::Reset),
            17 => Some(Self::Present),
            18 => Some(Self::GetBackBuffer),
            19 => Some(Self::GetRasterStatus),
            20 => Some(Self::SetDialogBoxMode),
            21 => Some(Self::SetGammaRamp),
            22 => Some(Self::GetGammaRamp),
            23 => Some(Self::CreateTexture),
            24 => Some(Self::CreateVolumeTexture),
            25 => Some(Self::CreateCubeTexture),
            26 => Some(Self::CreateVertexBuffer),
            27 => Some(Self::CreateIndexBuffer),
            28 => Some(Self::CreateRenderTarget),
            29 => Some(Self::CreateDepthStencilSurface),
            30 => Some(Self::UpdateSurface),
            31 => Some(Self::UpdateTexture),
            32 => Some(Self::GetRenderTargetData),
            33 => Some(Self::GetFrontBufferData),
            34 => Some(Self::StretchRect),
            35 => Some(Self::ColorFill),
            36 => Some(Self::CreateOffscreenPlainSurface),
            37 => Some(Self::SetRenderTarget),
            38 => Some(Self::GetRenderTarget),
            39 => Some(Self::SetDepthStencilSurface),
            40 => Some(Self::GetDepthStencilSurface),
            41 => Some(Self::BeginScene),
            42 => Some(Self::EndScene),
            43 => Some(Self::Clear),
            44 => Some(Self::SetTransform),
            45 => Some(Self::GetTransform),
            46 => Some(Self::MultiplyTransform),
            47 => Some(Self::SetViewport),
            48 => Some(Self::GetViewport),
            49 => Some(Self::SetMaterial),
            50 => Some(Self::GetMaterial),
            51 => Some(Self::SetLight),
            52 => Some(Self::GetLight),
            53 => Some(Self::LightEnable),
            54 => Some(Self::GetLightEnable),
            55 => Some(Self::SetClipPlane),
            56 => Some(Self::GetClipPlane),
            57 => Some(Self::SetRenderState),
            58 => Some(Self::GetRenderState),
            59 => Some(Self::CreateStateBlock),
            60 => Some(Self::BeginStateBlock),
            61 => Some(Self::EndStateBlock),
            62 => Some(Self::SetClipStatus),
            63 => Some(Self::GetClipStatus),
            64 => Some(Self::GetTexture),
            65 => Some(Self::SetTexture),
            66 => Some(Self::GetTextureStageState),
            67 => Some(Self::SetTextureStageState),
            68 => Some(Self::GetSamplerState),
            69 => Some(Self::SetSamplerState),
            70 => Some(Self::ValidateDevice),
            71 => Some(Self::SetPaletteEntries),
            72 => Some(Self::GetPaletteEntries),
            73 => Some(Self::SetCurrentTexturePalette),
            74 => Some(Self::GetCurrentTexturePalette),
            75 => Some(Self::SetScissorRect),
            76 => Some(Self::GetScissorRect),
            77 => Some(Self::SetSoftwareVertexProcessing),
            78 => Some(Self::GetSoftwareVertexProcessing),
            79 => Some(Self::SetNPatchMode),
            80 => Some(Self::GetNPatchMode),
            81 => Some(Self::DrawPrimitive),
            82 => Some(Self::DrawIndexedPrimitive),
            83 => Some(Self::DrawPrimitiveUP),
            84 => Some(Self::DrawIndexedPrimitiveUP),
            85 => Some(Self::ProcessVertices),
            86 => Some(Self::CreateVertexDeclaration),
            87 => Some(Self::SetVertexDeclaration),
            88 => Some(Self::GetVertexDeclaration),
            89 => Some(Self::SetFVF),
            90 => Some(Self::GetFVF),
            91 => Some(Self::CreateVertexShader),
            92 => Some(Self::SetVertexShader),
            93 => Some(Self::GetVertexShader),
            94 => Some(Self::SetVertexShaderConstantF),
            95 => Some(Self::GetVertexShaderConstantF),
            96 => Some(Self::SetVertexShaderConstantI),
            97 => Some(Self::GetVertexShaderConstantI),
            98 => Some(Self::SetVertexShaderConstantB),
            99 => Some(Self::GetVertexShaderConstantB),
            100 => Some(Self::SetStreamSource),
            101 => Some(Self::GetStreamSource),
            102 => Some(Self::SetStreamSourceFreq),
            103 => Some(Self::GetStreamSourceFreq),
            104 => Some(Self::SetIndices),
            105 => Some(Self::GetIndices),
            106 => Some(Self::CreatePixelShader),
            107 => Some(Self::SetPixelShader),
            108 => Some(Self::GetPixelShader),
            109 => Some(Self::SetPixelShaderConstantF),
            110 => Some(Self::GetPixelShaderConstantF),
            111 => Some(Self::SetPixelShaderConstantI),
            112 => Some(Self::GetPixelShaderConstantI),
            113 => Some(Self::SetPixelShaderConstantB),
            114 => Some(Self::GetPixelShaderConstantB),
            115 => Some(Self::DrawRectPatch),
            116 => Some(Self::DrawTriPatch),
            117 => Some(Self::DeletePatch),
            118 => Some(Self::CreateQuery),
            _ => None,
        };
        proof {
            if let Some(m) = method {
                assert(m.slot() == i);
            }
        }
        method
    }

    /// The symbolic name of the method.
    pub fn name(&self) -> (s: &'static str)
        ensures
            s@ == self.label(),
    {
        match self {
            Self::QueryInterface => "QueryInterface",
            Self::AddRef => "AddRef",
            Self::Release => "Release",
            Self::TestCooperativeLevel => "TestCooperativeLevel",
            Self::GetAvailableTextureMem => "GetAvailableTextureMem",
            Self::EvictManagedResources => "EvictManagedResources",
            Self::GetDirect3D => "GetDirect3D",
            Self::GetDeviceCaps => "GetDeviceCaps",
            Self::GetDisplayMode => "GetDisplayMode",
            Self::GetCreationParameters => "GetCreationParameters",
            Self::SetCursorProperties => "SetCursorProperties",
            Self::SetCursorPosition => "SetCursorPosition",
            Self::ShowCursor => "ShowCursor",
            Self::CreateAdditionalSwapChain => "CreateAdditionalSwapChain",
            Self::GetSwapChain => "GetSwapChain",
            Self::GetNumberOfSwapChains => "GetNumberOfSwapChains",
            Self::Reset => "Reset",
            Self::Present => "Present",
            Self::GetBackBuffer => "GetBackBuffer",
            Self::GetRasterStatus => "GetRasterStatus",
            Self::SetDialogBoxMode => "SetDialogBoxMode",
            Self::SetGammaRamp => "SetGammaRamp",
            Self::GetGammaRamp => "GetGammaRamp",
            Self::CreateTexture => "CreateTexture",
            Self::CreateVolumeTexture => "CreateVolumeTexture",
            Self::CreateCubeTexture => "CreateCubeTexture",
            Self::CreateVertexBuffer => "CreateVertexBuffer",
            Self::CreateIndexBuffer => "CreateIndexBuffer",
            Self::CreateRenderTarget => "CreateRenderTarget",
            Self::CreateDepthStencilSurface => "CreateDepthStencilSurface",
            Self::UpdateSurface => "UpdateSurface",
            Self::UpdateTexture => "UpdateTexture",
            Self::GetRenderTargetData => "GetRenderTargetData",
            Self::GetFrontBufferData => "GetFrontBufferData",
            Self::StretchRect => "StretchRect",
            Self::ColorFill => "ColorFill",
            Self::CreateOffscreenPlainSurface => "CreateOffscreenPlainSurface",
            Self::SetRenderTarget => "SetRenderTarget",
            Self::GetRenderTarget => "GetRenderTarget",
            Self::SetDepthStencilSurface => "SetDepthStencilSurface",
            Self::GetDepthStencilSurface => "GetDepthStencilSurface",
            Self::BeginScene => "BeginScene",
            Self::EndScene => "EndScene",
            Self::Clear => "Clear",
            Self::SetTransform => "SetTransform",
            Self::GetTransform => "GetTransform",
            Self::MultiplyTransform => "MultiplyTransform",
            Self::SetViewport => "SetViewport",
            Self::GetViewport => "GetViewport",
            Self::SetMaterial => "SetMaterial",
            Self::GetMaterial => "GetMaterial",
            Self::SetLight => "SetLight",
            Self::GetLight => "GetLight",
            Self::LightEnable => "LightEnable",
            Self::GetLightEnable => "GetLightEnable",
            Self::SetClipPlane => "SetClipPlane",
            Self::GetClipPlane => "GetClipPlane",
            Self::SetRenderState => "SetRenderState",
            Self::GetRenderState => "GetRenderState",
            Self::CreateStateBlock => "CreateStateBlock",
            Self::BeginStateBlock => "BeginStateBlock",
            Self::EndStateBlock => "EndStateBlock",
            Self::SetClipStatus => "SetClipStatus",
            Self::GetClipStatus => "GetClipStatus",
            Self::GetTexture => "GetTexture",
            Self::SetTexture => "SetTexture",
            Self::GetTextureStageState => "GetTextureStageState",
            Self::SetTextureStageState => "SetTextureStageState",
            Self::GetSamplerState => "GetSamplerState",
            Self::SetSamplerState => "SetSamplerState",
            Self::ValidateDevice => "ValidateDevice",
            Self::SetPaletteEntries => "SetPaletteEntries",
            Self::GetPaletteEntries => "GetPaletteEntries",
            Self::SetCurrentTexturePalette => "SetCurrentTexturePalette",
            Self::GetCurrentTexturePalette => "GetCurrentTexturePalette",
            Self::SetScissorRect => "SetScissorRect",
            Self::GetScissorRect => "GetScissorRect",
            Self::SetSoftwareVertexProcessing => "SetSoftwareVertexProcessing",
            Self::GetSoftwareVertexProcessing => "GetSoftwareVertexProcessing",
            Self::SetNPatchMode => "SetNPatchMode",
            Self::GetNPatchMode => "GetNPatchMode",
            Self::DrawPrimitive => "DrawPrimitive",
            Self::DrawIndexedPrimitive => "DrawIndexedPrimitive",
            Self::DrawPrimitiveUP => "DrawPrimitiveUP",
            Self::DrawIndexedPrimitiveUP => "DrawIndexedPrimitiveUP",
            Self::ProcessVertices => "ProcessVertices",
            Self::CreateVertexDeclaration => "CreateVertexDeclaration",
            Self::SetVertexDeclaration => "SetVertexDeclaration",
            Self::GetVertexDeclaration => "GetVertexDeclaration",
            Self::SetFVF => "SetFVF",
            Self::GetFVF => "GetFVF",
            Self::CreateVertexShader => "CreateVertexShader",
            Self::SetVertexShader => "SetVertexShader",
            Self::GetVertexShader => "GetVertexShader",
            Self::SetVertexShaderConstantF => "SetVertexShaderConstantF",
            Self::GetVertexShaderConstantF => "GetVertexShaderConstantF",
            Self::SetVertexShaderConstantI => "SetVertexShaderConstantI",
            Self::GetVertexShaderConstantI => "GetVertexShaderConstantI",
            Self::SetVertexShaderConstantB => "SetVertexShaderConstantB",
            Self::GetVertexShaderConstantB => "GetVertexShaderConstantB",
            Self::SetStreamSource => "SetStreamSource",
            Self::GetStreamSource => "GetStreamSource",
            Self::SetStreamSourceFreq => "SetStreamSourceFreq",
            Self::GetStreamSourceFreq => "GetStreamSourceFreq",
            Self::SetIndices => "SetIndices",
            Self::GetIndices => "GetIndices",
            Self::CreatePixelShader => "CreatePixelShader",
            Self::SetPixelShader => "SetPixelShader",
            Self::GetPixelShader => "GetPixelShader",
            Self::SetPixelShaderConstantF => "SetPixelShaderConstantF",
            Self::GetPixelShaderConstantF => "GetPixelShaderConstantF",
            Self::SetPixelShaderConstantI => "SetPixelShaderConstantI",
            Self::GetPixelShaderConstantI => "GetPixelShaderConstantI",
            Self::SetPixelShaderConstantB => "SetPixelShaderConstantB",
            Self::GetPixelShaderConstantB => "GetPixelShaderConstantB",
            Self::DrawRectPatch => "DrawRectPatch",
            Self::DrawTriPatch => "DrawTriPatch",
            Self::DeletePatch => "DeletePatch",
            Self::CreateQuery => "CreateQuery",
        }
    }

    /// Every method stands at its own position, and that position is in the table.
    pub proof fn lemma_at_slot(method: Self)
        ensures
            Self::at(method.slot()) == Some(method),
            method.slot() < Self::COUNT,
    {
    }

    /// No two methods share a position.
    pub proof fn lemma_slot_injective(a: Self, b: Self)
        requires
            a.slot() == b.slot(),
        ensures
            a == b,
    {
    }
}

/// The dispatch table that a bootstrap of the first raster generation collects.
#[derive(Debug, PartialEq, Eq)]
pub struct DirectX9Methods {
    device_vmt: Vec<usize>,
}

impl DirectX9Methods {
    /// The tables, in the order in which a bootstrap reads them.
    pub closed spec fn tables(&self) -> Seq<Seq<usize>> {
        seq![self.device_vmt@]
    }

    #[verifier::type_invariant]
    spec fn every_table_is_complete(&self) -> bool {
        &&& self.device_vmt@.len() == DirectX9DeviceMethods::COUNT
    }

    /// Puts the tables together, where each is as long as its interface declares.
    pub fn new(device_vmt: Vec<usize>) -> (methods: Option<Self>)
        ensures
            methods is Some <==> device_vmt@.len() == DirectX9DeviceMethods::COUNT,
            methods matches Some(m) ==> m.tables() == seq![device_vmt@],
            methods matches Some(m) ==> tables_match(RenderEngine::DirectX9, m.tables()),
    {
        if device_vmt.len() == DirectX9DeviceMethods::COUNT {
            let methods = DirectX9Methods { device_vmt };
            proof {
                lemma_layout(methods.tables());
            }
            Some(methods)
        } else {
            None
        }
    }

    /// The table of the device.
    pub fn device_vmt(&self) -> (table: &Vec<usize>)
        ensures
            table@ == self.tables()[0],
            table@.len() == DirectX9DeviceMethods::COUNT,
    {
        proof {
            use_type_invariant(self);
        }
        &self.device_vmt
    }

    /// Whether `listing` lists every slot of every table with the name of its
    /// method, table after table, the lines numbered through.
    pub open spec fn listed(&self, listing: Seq<MethodEntry>) -> bool {
        &&& listing.len() == DirectX9DeviceMethods::COUNT
        &&& lists_table(listing, 0, Interface::DirectX9Device, self.tables()[0])
    }

    /// Lists every slot of every table with the name of its method.
    pub fn entries(&self) -> (listing: Vec<MethodEntry>)
        ensures
            self.listed(listing@),
    {
        proof {
            use_type_invariant(self);
        }
        let mut listing: Vec<MethodEntry> = Vec::new();
        append_entries(&mut listing, Interface::DirectX9Device, &self.device_vmt);
        listing
    }
}

/// Tables of the declared lengths are the tables of the backend's layout.
proof fn lemma_layout(tables: Seq<Seq<usize>>)
    requires
        tables.len() == 1,
        tables[0].len() == DirectX9DeviceMethods::COUNT,
    ensures
        tables_match(RenderEngine::DirectX9, tables),
{
}

/// The adapter that the display uses by default.
pub const ADAPTER_DEFAULT: u32 = 0;

/// The device type of the reference device that renders nothing.
pub const DEVICE_TYPE_NULL_REFERENCE: i32 = 4;

/// The behaviour flag that has the vertices processed in software.
pub const CREATE_SOFTWARE_VERTEX_PROCESSING: u32 = 0x20;

/// The behaviour flag that keeps the driver from managing resources.
pub const CREATE_DISABLE_DRIVER_MANAGEMENT: u32 = 0x100;

/// The format that leaves the format to the display.
pub const FORMAT_UNKNOWN: u32 = 0;

/// The multisample type of no multisampling.
pub const MULTISAMPLE_NONE: i32 = 0;

/// The swap effect that discards a buffer once it was presented.
pub const SWAP_EFFECT_DISCARD: i32 = 1;

/// How the buffers that the device presents are set up, field for field as the
/// native layer takes it.
#[derive(Debug, Clone, Copy, PartialEq, Eq, Structural)]
pub struct PresentParameters {
    pub back_buffer_width: u32,
    pub back_buffer_height: u32,
    pub back_buffer_format: u32,
    pub back_buffer_count: u32,
    pub multisample_type: i32,
    pub multisample_quality: u32,
    pub swap_effect: i32,
    pub device_window: usize,
    pub windowed: bool,
    pub enable_auto_depth_stencil: bool,
    pub auto_depth_stencil_format: u32,
    pub flags: u32,
    pub full_screen_refresh_rate: u32,
    pub presentation_interval: u32,
}

/// What the creation of the device is called with.
#[derive(Debug, Clone, Copy, PartialEq, Eq, Structural)]
pub struct DeviceRequest {
    pub adapter: u32,
    pub device_type: i32,
    pub focus_window: usize,
    pub behavior_flags: u32,
    pub presentation: PresentParameters,
}

/// The request for a device that needs no real hardware: the null reference
/// device on the default adapter, its vertices processed in software and the
/// driver's resource management switched off, presenting to `window` in windowed
/// mode with buffers that the display sizes and formats and that are discarded
/// once presented.
pub open spec fn hardware_free_request(window: usize) -> DeviceRequest {
    DeviceRequest {
        adapter: ADAPTER_DEFAULT,
        device_type: DEVICE_TYPE_NULL_REFERENCE,
        focus_window: window,
        behavior_flags: 0x120,
        presentation: PresentParameters {
            back_buffer_width: 0,
            back_buffer_height: 0,
            back_buffer_format: FORMAT_UNKNOWN,
            back_buffer_count: 0,
            multisample_type: MULTISAMPLE_NONE,
            multisample_quality: 0,
            swap_effect: SWAP_EFFECT_DISCARD,
            device_window: window,
            windowed: true,
            enable_auto_depth_stencil: false,
            auto_depth_stencil_format: FORMAT_UNKNOWN,
            flags: 0,
            full_screen_refresh_rate: 0,
            presentation_interval: 0,
        },
    }
}

/// Builds the request for the device of a bootstrap.
pub fn device_request(window: usize) -> (request: DeviceRequest)
    ensures
        request == hardware_free_request(window),
{
    let behavior_flags = CREATE_SOFTWARE_VERTEX_PROCESSING | CREATE_DISABLE_DRIVER_MANAGEMENT;
    assert(behavior_flags == 0x120) by (bit_vector)
        requires
            behavior_flags == 0x20u32 | 0x100u32,
    ;
    DeviceRequest {
        adapter: ADAPTER_DEFAULT,
        device_type: DEVICE_TYPE_NULL_REFERENCE,
        focus_window: window,
        behavior_flags,
        presentation: PresentParameters {
            back_buffer_width: 0,
            back_buffer_height: 0,
            back_buffer_format: FORMAT_UNKNOWN,
            back_buffer_count: 0,
            multisample_type: MULTISAMPLE_NONE,
            multisample_quality: 0,
            swap_effect: SWAP_EFFECT_DISCARD,
            device_window: window,
            windowed: true,
            enable_auto_depth_stencil: false,
            auto_depth_stencil_format: FORMAT_UNKNOWN,
            flags: 0,
            full_screen_refresh_rate: 0,
            presentation_interval: 0,
        },
    }
}

} // verus!
