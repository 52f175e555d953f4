//! The layout of the interfaces: counts, positions and names.
use shroud::bootstrap::MethodTables;
use shroud::directx11::{
    DirectX11ContextMethods, DirectX11DeviceMethods, DirectX11Methods, DirectX11SwapchainMethods,
};
use shroud::directx12::{
    DirectX12CommandAllocatorMethods, DirectX12CommandListMethods, DirectX12CommandQueueMethods,
    DirectX12DeviceMethods, DirectX12Methods, DirectX12SwapchainMethods,
};
use shroud::directx9::{DirectX9DeviceMethods, DirectX9Methods};
use shroud::interface::{append_entries, Interface, MethodEntry};
use shroud::vulkan::{VulkanMethods, VulkanStaticMethods};

const INTERFACES: [Interface; 10] = [
    Interface::DirectX9Device,
    Interface::DirectX11Swapchain,
    Interface::DirectX11Device,
    Interface::DirectX11Context,
    Interface::DirectX12Device,
    Interface::DirectX12CommandQueue,
    Interface::DirectX12CommandAllocator,
    Interface::DirectX12CommandList,
    Interface::DirectX12Swapchain,
    Interface::VulkanStatic,
];

#[test]
fn every_interface_declares_its_count() {
    assert_eq!(DirectX9DeviceMethods::COUNT, 119);
    assert_eq!(DirectX11SwapchainMethods::COUNT, 18);
    assert_eq!(DirectX11DeviceMethods::COUNT, 43);
    assert_eq!(DirectX11ContextMethods::COUNT, 144);
    assert_eq!(DirectX12DeviceMethods::COUNT, 44);
    assert_eq!(DirectX12CommandQueueMethods::COUNT, 19);
    assert_eq!(DirectX12CommandAllocatorMethods::COUNT, 9);
    assert_eq!(DirectX12CommandListMethods::COUNT, 60);
    assert_eq!(DirectX12SwapchainMethods::COUNT, 18);
    assert_eq!(VulkanStaticMethods::COUNT, 136);
    let counts: Vec<usize> = INTERFACES.iter().map(|interface| interface.slot_count()).collect();
    assert_eq!(counts, vec![119, 18, 43, 144, 44, 19, 9, 60, 18, 136]);
}

#[test]
fn every_interface_begins_with_the_three_methods_of_all_objects() {
    for interface in &INTERFACES[..9] {
        assert_eq!(interface.method_name(0), Some("QueryInterface"));
        assert_eq!(interface.method_name(1), Some("AddRef"));
        assert_eq!(interface.method_name(2), Some("Release"));
    }
}

#[test]
fn well_known_methods_stand_in_their_slots() {
    assert_eq!(DirectX9DeviceMethods::Reset.ordinal(), 16);
    assert_eq!(DirectX9DeviceMethods::Present.ordinal(), 17);
    assert_eq!(DirectX9DeviceMethods::BeginScene.ordinal(), 41);
    assert_eq!(DirectX9DeviceMethods::EndScene.ordinal(), 42);
    assert_eq!(DirectX9DeviceMethods::DrawIndexedPrimitive.ordinal(), 82);
    assert_eq!(DirectX9DeviceMethods::CreateQuery.ordinal(), 118);
    assert_eq!(DirectX11SwapchainMethods::Present.ordinal(), 8);
    assert_eq!(DirectX11SwapchainMethods::ResizeBuffers.ordinal(), 13);
    assert_eq!(DirectX11SwapchainMethods::GetLastPresentCount.ordinal(), 17);
    assert_eq!(DirectX11DeviceMethods::CreateBuffer.ordinal(), 3);
    assert_eq!(DirectX11DeviceMethods::GetExceptionMode.ordinal(), 42);
    assert_eq!(DirectX11ContextMethods::DrawIndexed.ordinal(), 12);
    assert_eq!(DirectX11ContextMethods::Draw.ordinal(), 13);
    assert_eq!(DirectX11ContextMethods::MapResource.ordinal(), 14);
    assert_eq!(DirectX11ContextMethods::EndEvent.ordinal(), 143);
    assert_eq!(DirectX12DeviceMethods::CreateCommandQueue.ordinal(), 8);
    assert_eq!(DirectX12DeviceMethods::GetAdapterLuid.ordinal(), 43);
    assert_eq!(DirectX12CommandQueueMethods::ExecuteCommandLists.ordinal(), 10);
    assert_eq!(DirectX12CommandQueueMethods::GetDesc.ordinal(), 18);
    assert_eq!(DirectX12CommandAllocatorMethods::Reset.ordinal(), 8);
    assert_eq!(DirectX12CommandListMethods::DrawInstanced.ordinal(), 12);
    assert_eq!(DirectX12CommandListMethods::ExecuteIndirect.ordinal(), 59);
    assert_eq!(DirectX12SwapchainMethods::Present.ordinal(), 8);
    assert_eq!(VulkanStaticMethods::vkCreateInstance.ordinal(), 0);
    assert_eq!(VulkanStaticMethods::vkGetInstanceProcAddr.ordinal(), 9);
    assert_eq!(VulkanStaticMethods::vkCmdExecuteCommands.ordinal(), 135);
}

#[test]
fn names_are_those_of_the_methods() {
    assert_eq!(DirectX9DeviceMethods::EndScene.name(), "EndScene");
    assert_eq!(DirectX11ContextMethods::MapResource.name(), "Map");
    assert_eq!(DirectX11ContextMethods::Unmap.name(), "Unmap");
    assert_eq!(DirectX11ContextMethods::SetConstantBuffers1_0.name(), "SetConstantBuffers1_0");
    assert_eq!(DirectX12CommandListMethods::OMSetRenderTargets.name(), "OMSetRenderTargets");
    assert_eq!(VulkanStaticMethods::vkQueueSubmit.name(), "vkQueueSubmit");
    assert_eq!(Interface::DirectX11Context.method_name(14), Some("Map"));
    assert_eq!(Interface::DirectX9Device.method_name(17), Some("Present"));
    assert_eq!(Interface::DirectX12CommandAllocator.method_name(8), Some("Reset"));
    assert_eq!(Interface::VulkanStatic.method_name(135), Some("vkCmdExecuteCommands"));
}

#[test]
fn positions_and_methods_correspond_one_to_one() {
    for i in 0..DirectX9DeviceMethods::COUNT {
        assert_eq!(DirectX9DeviceMethods::from_ordinal(i).unwrap().ordinal(), i);
    }
    for i in 0..DirectX11SwapchainMethods::COUNT {
        assert_eq!(DirectX11SwapchainMethods::from_ordinal(i).unwrap().ordinal(), i);
    }
    for i in 0..DirectX11DeviceMethods::COUNT {
        assert_eq!(DirectX11DeviceMethods::from_ordinal(i).unwrap().ordinal(), i);
    }
    for i in 0..DirectX11ContextMethods::COUNT {
        assert_eq!(DirectX11ContextMethods::from_ordinal(i).unwrap().ordinal(), i);
    }
    for i in 0..DirectX12DeviceMethods::COUNT {
        assert_eq!(DirectX12DeviceMethods::from_ordinal(i).unwrap().ordinal(), i);
    }
    for i in 0..DirectX12CommandQueueMethods::COUNT {
        assert_eq!(DirectX12CommandQueueMethods::from_ordinal(i).unwrap().ordinal(), i);
    }
    for i in 0..DirectX12CommandAllocatorMethods::COUNT {
        assert_eq!(DirectX12CommandAllocatorMethods::from_ordinal(i).unwrap().ordinal(), i);
    }
    for i in 0..DirectX12CommandListMethods::COUNT {
        assert_eq!(DirectX12CommandListMethods::from_ordinal(i).unwrap().ordinal(), i);
    }
    for i in 0..DirectX12SwapchainMethods::COUNT {
        assert_eq!(DirectX12SwapchainMethods::from_ordinal(i).unwrap().ordinal(), i);
    }
    for i in 0..VulkanStaticMethods::COUNT {
        assert_eq!(VulkanStaticMethods::from_ordinal(i).unwrap().ordinal(), i);
    }
}

#[test]
fn no_method_stands_beyond_the_table() {
    assert_eq!(DirectX9DeviceMethods::from_ordinal(119), None);
    assert_eq!(DirectX11SwapchainMethods::from_ordinal(18), None);
    assert_eq!(DirectX11DeviceMethods::from_ordinal(43), None);
    assert_eq!(DirectX11ContextMethods::from_ordinal(144), None);
    assert_eq!(DirectX12DeviceMethods::from_ordinal(44), None);
    assert_eq!(DirectX12CommandQueueMethods::from_ordinal(19), None);
    assert_eq!(DirectX12CommandAllocatorMethods::from_ordinal(9), None);
    assert_eq!(DirectX12CommandListMethods::from_ordinal(60), None);
    assert_eq!(DirectX12SwapchainMethods::from_ordinal(18), None);
    assert_eq!(VulkanStaticMethods::from_ordinal(136), None);
    assert_eq!(VulkanStaticMethods::from_ordinal(usize::MAX), None);
    for interface in INTERFACES {
        assert!(interface.method_name(interface.slot_count() - 1).is_some());
        assert_eq!(interface.method_name(interface.slot_count()), None);
    }
}

#[test]
fn the_two_swapchains_have_one_layout() {
    for i in 0..18 {
        assert_eq!(
            Interface::DirectX11Swapchain.method_name(i),
            Interface::DirectX12Swapchain.method_name(i)
        );
    }
}

#[test]
fn a_listing_pairs_each_slot_with_its_name_and_address() {
    let addresses: Vec<usize> = (0..9).map(|slot| 0x7ff0_0000 + 16 * slot).collect();
    let mut listing = Vec::new();
    append_entries(&mut listing, Interface::DirectX12CommandAllocator, &addresses);
    let names: Vec<&str> = listing.iter().map(|entry| entry.name).collect();
    assert_eq!(
        names,
        vec![
            "QueryInterface",
            "AddRef",
            "Release",
            "GetPrivateData",
            "SetPrivateData",
            "SetPrivateDataInterface",
            "SetName",
            "GetDevice",
            "Reset",
        ]
    );
    assert_eq!(
        listing[8],
        MethodEntry {
            index: 8,
            interface: Interface::DirectX12CommandAllocator,
            slot: 8,
            name: "Reset",
            address: 0x7ff0_0080,
        }
    );
    append_entries(&mut listing, Interface::DirectX12CommandAllocator, &addresses);
    assert_eq!(listing.len(), 18);
    assert_eq!(listing[8].index, 8);
    assert_eq!(listing[9].index, 9);
    assert_eq!(listing[9].slot, 0);
    assert_eq!(listing[9].name, "QueryInterface");
    assert_eq!(listing[17].address, 0x7ff0_0080);
}

#[test]
fn the_listing_of_the_explicit_generation_numbers_its_lines_through() {
    let table = |seed: usize, slots: usize| -> Vec<usize> { (0..slots).map(|s| seed + s).collect() };
    let methods = DirectX12Methods::new(
        table(1000, 44),
        table(2000, 19),
        table(3000, 9),
        table(4000, 60),
        table(5000, 18),
    )
    .unwrap();
    let listing = methods.entries();
    assert_eq!(listing.len(), 150);
    for (line, entry) in listing.iter().enumerate() {
        assert_eq!(entry.index, line);
    }
    assert_eq!(listing[0].name, "QueryInterface");
    assert_eq!(listing[43].name, "GetAdapterLuid");
    assert_eq!(listing[43].address, 1043);
    assert_eq!(listing[44].interface, Interface::DirectX12CommandQueue);
    assert_eq!(listing[44].slot, 0);
    assert_eq!(listing[44].address, 2000);
    assert_eq!(listing[62].name, "GetDesc");
    assert_eq!(listing[63].interface, Interface::DirectX12CommandAllocator);
    assert_eq!(listing[72].interface, Interface::DirectX12CommandList);
    assert_eq!(listing[131].name, "ExecuteIndirect");
    assert_eq!(listing[132].interface, Interface::DirectX12Swapchain);
    assert_eq!(listing[140].name, "Present");
    assert_eq!(listing[140].address, 5008);
    assert_eq!(listing[149].name, "GetLastPresentCount");
}

#[test]
fn the_device_of_the_second_generation_is_listed_under_its_own_names() {
    let methods = DirectX11Methods::new(vec![1; 18], vec![2; 43], vec![3; 144]).unwrap();
    let listing = methods.entries();
    assert_eq!(listing.len(), 205);
    assert_eq!(listing[18].interface, Interface::DirectX11Device);
    assert_eq!(listing[18 + 3].name, "CreateBuffer");
    assert_eq!(listing[18 + 42].name, "GetExceptionMode");
    assert_eq!(listing[18 + 42].address, 2);
    assert_eq!(listing[61].interface, Interface::DirectX11Context);
    assert_eq!(listing[61 + 13].name, "Draw");
    assert_eq!(listing[204].name, "EndEvent");
    assert_eq!(listing[204].slot, 143);
}

#[test]
fn tables_of_the_wrong_length_are_not_put_together() {
    assert!(DirectX11Methods::new(vec![0; 18], vec![0; 43], vec![0; 144]).is_some());
    assert!(DirectX11Methods::new(vec![0; 17], vec![0; 43], vec![0; 144]).is_none());
    assert!(DirectX11Methods::new(vec![0; 18], vec![0; 44], vec![0; 144]).is_none());
    assert!(DirectX11Methods::new(vec![0; 18], vec![0; 43], vec![0; 0]).is_none());
    assert!(DirectX11Methods::new(vec![0; 43], vec![0; 18], vec![0; 144]).is_none());
    assert!(DirectX12Methods::new(vec![0; 44], vec![0; 19], vec![0; 9], vec![0; 60], vec![0; 18]).is_some());
    assert!(DirectX12Methods::new(vec![0; 44], vec![0; 19], vec![0; 9], vec![0; 60], vec![0; 19]).is_none());
    assert!(DirectX12Methods::new(vec![0; 44], vec![0; 19], vec![0; 8], vec![0; 60], vec![0; 18]).is_none());
    assert!(VulkanMethods::new(vec![0; 136]).is_some());
    assert!(VulkanMethods::new(vec![0; 135]).is_none());
}

#[test]
fn getters_hand_the_tables_out_as_they_were_put_in() {
    let methods = DirectX9Methods::new((0..119).collect()).unwrap();
    assert_eq!(methods.device_vmt()[17], 17);
    assert_eq!(methods.device_vmt().len(), 119);
    let methods = DirectX11Methods::new(vec![1; 18], vec![2; 43], vec![3; 144]).unwrap();
    assert_eq!(methods.swapchain_vmt(), &vec![1; 18]);
    assert_eq!(methods.device_vmt(), &vec![2; 43]);
    assert_eq!(methods.context_vmt(), &vec![3; 144]);
    let methods =
        DirectX12Methods::new(vec![1; 44], vec![2; 19], vec![3; 9], vec![4; 60], vec![5; 18]).unwrap();
    assert_eq!(methods.device_vmt(), &vec![1; 44]);
    assert_eq!(methods.command_queue_vmt(), &vec![2; 19]);
    assert_eq!(methods.command_allocator_vmt(), &vec![3; 9]);
    assert_eq!(methods.command_list_vmt(), &vec![4; 60]);
    assert_eq!(methods.swapchain_vmt(), &vec![5; 18]);
    let tables = MethodTables::Vulkan(VulkanMethods::new(vec![9; 136]).unwrap());
    assert_eq!(tables.entries().len(), 136);
    assert_eq!(tables.entries()[135].name, "vkCmdExecuteCommands");
}
