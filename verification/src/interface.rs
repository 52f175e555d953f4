//! The interfaces whose layout is known: how long the table of each is, what its
//! slots are called, and which of them a backend's bootstrap passes, in what order.
use crate::directx11::{DirectX11ContextMethods, DirectX11DeviceMethods, DirectX11SwapchainMethods};
use crate::directx12::{
    DirectX12CommandAllocatorMethods, DirectX12CommandListMethods, DirectX12CommandQueueMethods,
    DirectX12DeviceMethods, DirectX12SwapchainMethods,
};
use crate::directx9::DirectX9DeviceMethods;
use crate::vulkan::VulkanStaticMethods;
use crate::RenderEngine;
use vstd::prelude::*;

verus! {

/// An interface with a known layout.
#[derive(Debug, Clone, Copy, PartialEq, Eq, Structural)]
pub enum Interface {
    DirectX9Device,
    DirectX11Swapchain,
    DirectX11Device,
    DirectX11Context,
    DirectX12Device,
    DirectX12CommandQueue,
    DirectX12CommandAllocator,
    DirectX12CommandList,
    DirectX12Swapchain,
    /// The functions that the library of the explicit API exports.
    VulkanStatic,
}

/// One line of a listing: a slot of a table with its name and what the slot holds.
#[derive(Debug, Clone, Copy, PartialEq, Eq)]
pub struct MethodEntry {
    /// The line's number, counted through all tables of the listing.
    pub index: usize,
    pub interface: Interface,
    /// The slot's position in its own table.
    pub slot: usize,
    pub name: &'static str,
    pub address: usize,
}

impl Interface {
    /// How many slots the table of the interface has.
    pub open spec fn slots(self) -> nat {
        match self {
            Interface::DirectX9Device => DirectX9DeviceMethods::COUNT as nat,
            Interface::DirectX11Swapchain => DirectX11SwapchainMethods::COUNT as nat,
            Interface::DirectX11Device => DirectX11DeviceMethods::COUNT as nat,
            Interface::DirectX11Context => DirectX11ContextMethods::COUNT as nat,
            Interface::DirectX12Device => DirectX12DeviceMethods::COUNT as nat,
            Interface::DirectX12CommandQueue => DirectX12CommandQueueMethods::COUNT as nat,
            Interface::DirectX12CommandAllocator => DirectX12CommandAllocatorMethods::COUNT as nat,
            Interface::DirectX12CommandList => DirectX12CommandListMethods::COUNT as nat,
            Interface::DirectX12Swapchain => DirectX12SwapchainMethods::COUNT as nat,
            Interface::VulkanStatic => VulkanStaticMethods::COUNT as nat,
        }
    }

    /// The name of the method in slot `i`, where the table has such a slot.
    pub open spec fn label_at(self, i: nat) -> Option<Seq<char>> {
        match self {
            Interface::DirectX9Device => match DirectX9DeviceMethods::at(i) {
                Some(m) => Some(m.label()),
                None => None,
            },
            Interface::DirectX11Swapchain => match DirectX11SwapchainMethods::at(i) {
                Some(m) => Some(m.label()),
                None => None,
            },
            Interface::DirectX11Device => match DirectX11DeviceMethods::at(i) {
                Some(m) => Some(m.label()),
                None => None,
            },
            Interface::DirectX11Context => match DirectX11ContextMethods::at(i) {
                Some(m) => Some(m.label()),
                None => None,
            },
            Interface::DirectX12Device => match DirectX12DeviceMethods::at(i) {
                Some(m) => Some(m.label()),
                None => None,
            },
            Interface::DirectX12CommandQueue => match DirectX12CommandQueueMethods::at(i) {
                Some(m) => Some(m.label()),
                None => None,
            },
            Interface::DirectX12CommandAllocator => match DirectX12CommandAllocatorMethods::at(i) {
                Some(m) => Some(m.label()),
                None => None,
            },
            Interface::DirectX12CommandList => match DirectX12CommandListMethods::at(i) {
                Some(m) => Some(m.label()),
                None => None,
            },
            Interface::DirectX12Swapchain => match DirectX12SwapchainMethods::at(i) {
                Some(m) => Some(m.label()),
                None => None,
            },
            Interface::VulkanStatic => match VulkanStaticMethods::at(i) {
                Some(m) => Some(m.label()),
                None => None,
            },
        }
    }

    /// How many slots the table of the interface has.
    pub fn slot_count(&self) -> (n: usize)
        ensures
            n == self.slots(),
    {
        match self {
            Interface::DirectX9Device => DirectX9DeviceMethods::COUNT,
            Interface::DirectX11Swapchain => DirectX11SwapchainMethods::COUNT,
            Interface::DirectX11Device => DirectX11DeviceMethods::COUNT,
            Interface::DirectX11Context => DirectX11ContextMethods::COUNT,
            Interface::DirectX12Device => DirectX12DeviceMethods::COUNT,
            Interface::DirectX12CommandQueue => DirectX12CommandQueueMethods::COUNT,
            Interface::DirectX12CommandAllocator => DirectX12CommandAllocatorMethods::COUNT,
            Interface::DirectX12CommandList => DirectX12CommandListMethods::COUNT,
            Interface::DirectX12Swapchain => DirectX12SwapchainMethods::COUNT,
            Interface::VulkanStatic => VulkanStaticMethods::COUNT,
        }
    }

    /// The name of the method in slot `i`, where the table has such a slot.
    pub fn method_name(&self, i: usize) -> (name: Option<&'static str>)
        ensures
            name is Some <==> i < self.slots(),
            name is Some <==> self.label_at(i as nat) is Some,
            name matches Some(s) ==> self.label_at(i as nat) == Some(s@),
    {
        match self {
            Interface::DirectX9Device => match DirectX9DeviceMethods::from_ordinal(i) {
                Some(m) => Some(m.name()),
                None => None,
            },
            Interface::DirectX11Swapchain => match DirectX11SwapchainMethods::from_ordinal(i) {
                Some(m) => Some(m.name()),
                None => None,
            },
            Interface::DirectX11Device => match DirectX11DeviceMethods::from_ordinal(i) {
                Some(m) => Some(m.name()),
                None => None,
            },
            Interface::DirectX11Context => match DirectX11ContextMethods::from_ordinal(i) {
                Some(m) => Some(m.name()),
                None => None,
            },
            Interface::DirectX12Device => match DirectX12DeviceMethods::from_ordinal(i) {
                Some(m) => Some(m.name()),
                None => None,
            },
            Interface::DirectX12CommandQueue => match DirectX12CommandQueueMethods::from_ordinal(i) {
                Some(m) => Some(m.name()),
                None => None,
            },
            Interface::DirectX12CommandAllocator => match DirectX12CommandAllocatorMethods::from_ordinal(i)
            {
                Some(m) => Some(m.name()),
                None => None,
            },
            Interface::DirectX12CommandList => match DirectX12CommandListMethods::from_ordinal(i) {
                Some(m) => Some(m.name()),
                None => None,
            },
            Interface::DirectX12Swapchain => match DirectX12SwapchainMethods::from_ordinal(i) {
                Some(m) => Some(m.name()),
                None => None,
            },
            Interface::VulkanStatic => match VulkanStaticMethods::from_ordinal(i) {
                Some(m) => Some(m.name()),
                None => None,
            },
        }
    }
}

/// The interfaces whose tables a bootstrap of the backend collects, in the order
/// in which it reads them.
pub open spec fn layout(engine: RenderEngine) -> Seq<Interface> {
    match engine {
        RenderEngine::DirectX9 => seq![Interface::DirectX9Device],
        RenderEngine::DirectX10 => Seq::empty(),
        RenderEngine::DirectX11 => seq![
            Interface::DirectX11Swapchain,
            Interface::DirectX11Device,
            Interface::DirectX11Context,
        ],
        RenderEngine::DirectX12 => seq![
            Interface::DirectX12Device,
            Interface::DirectX12CommandQueue,
            Interface::DirectX12CommandAllocator,
            Interface::DirectX12CommandList,
            Interface::DirectX12Swapchain,
        ],
        RenderEngine::Vulkan => seq![Interface::VulkanStatic],
    }
}

/// The line of a listing for slot `slot` of an interface's table.
pub open spec fn is_entry(
    entry: MethodEntry,
    index: int,
    interface: Interface,
    slot: int,
    table: Seq<usize>,
) -> bool {
    &&& entry.index == index
    &&& entry.interface == interface
    &&& entry.slot == slot
    &&& interface.label_at(slot as nat) == Some(entry.name@)
    &&& entry.address == table[slot]
}

/// Whether `listing` lists `table`, slot by slot, from line `first` on.
pub open spec fn lists_table(
    listing: Seq<MethodEntry>,
    first: int,
    interface: Interface,
    table: Seq<usize>,
) -> bool {
    &&& first + table.len() <= listing.len()
    &&& forall|slot: int|
        0 <= slot < table.len() ==> is_entry(
            #[trigger] listing[first + slot],
            first + slot,
            interface,
            slot,
            table,
        )
}

/// Adds to a listing the lines of one table: for each slot its name and its address.
pub fn append_entries(listing: &mut Vec<MethodEntry>, interface: Interface, table: &Vec<usize>)
    requires
        table.len() == interface.slots(),
        old(listing).len() + table.len() <= usize::MAX,
    ensures
        final(listing)@.len() == old(listing)@.len() + table.len(),
        forall|i: int| 0 <= i < old(listing)@.len() ==> (#[trigger] final(listing)@[i]) == old(listing)@[i],
        lists_table(final(listing)@, old(listing)@.len() as int, interface, table@),
{
    let first = listing.len();
    let mut slot: usize = 0;
    while slot < table.len()
        invariant
            slot <= table.len(),
            table.len() == interface.slots(),
            first == old(listing).len(),
            first + table.len() <= usize::MAX,
            listing@.len() == first + slot,
            forall|i: int| 0 <= i < first ==> (#[trigger] listing@[i]) == old(listing)@[i],
            forall|s: int|
                0 <= s < slot ==> is_entry(
                    #[trigger] listing@[first + s],
                    first + s,
                    interface,
                    s,
                    table@,
                ),
        decreases table.len() - slot,
    {
        if let Some(name) = interface.method_name(slot) {
            listing.push(
                MethodEntry { index: first + slot, interface, slot, name, address: table[slot] },
            );
        }
        slot += 1;
    }
}

} // verus!
