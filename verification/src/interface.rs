//! Network interfaces by name and address, and the choice of one of them.

use vstd::prelude::*;

use crate::text::{clone_opt_text, opt_text};

verus! {

/// An address of an interface, with its subnet mask and gateway.
#[derive(Debug)]
pub struct Address {
    pub ip: String,
    pub subnet: Option<String>,
    pub gateway: Option<String>,
}

/// Contents of an [`Address`].
pub struct AddressView {
    pub ip: Seq<char>,
    pub subnet: Option<Seq<char>>,
    pub gateway: Option<Seq<char>>,
}

impl View for Address {
    type V = AddressView;

    open spec fn view(&self) -> AddressView {
        AddressView { ip: self.ip@, subnet: opt_text(self.subnet), gateway: opt_text(self.gateway) }
    }
}

impl Clone for Address {
    fn clone(&self) -> (r: Self)
        ensures
            r@ == self@,
    {
        Address {
            ip: self.ip.clone(),
            subnet: clone_opt_text(&self.subnet),
            gateway: clone_opt_text(&self.gateway),
        }
    }
}

/// The contents of a list of addresses.
pub open spec fn address_views(v: Seq<Address>) -> Seq<AddressView> {
    v.map_values(|a: Address| a@)
}

/// A copy of the addresses, one for one.
pub fn clone_addresses(v: &Vec<Address>) -> (r: Vec<Address>)
    ensures
        address_views(r@) == address_views(v@),
{
    let mut out: Vec<Address> = Vec::new();
    let mut i: usize = 0;
    while i < v.len()
        invariant
            i <= v.len(),
            out.len() == i,
            forall|k: int| 0 <= k < i ==> out[k]@ == v[k]@,
        decreases v.len() - i,
    {
        out.push(v[i].clone());
        i += 1;
    }
    assert(address_views(out@) =~= address_views(v@));
    out
}

/// A network interface: its name, its index, its hardware address and its
/// addresses.
#[derive(Debug)]
pub struct Interface {
    pub name: String,
    pub index: u32,
    pub mac: Option<String>,
    pub addrs: Vec<Address>,
}

/// Contents of an [`Interface`].
pub struct InterfaceView {
    pub name: Seq<char>,
    pub index: u32,
    pub mac: Option<Seq<char>>,
    pub addrs: Seq<AddressView>,
}

impl View for Interface {
    type V = InterfaceView;

    open spec fn view(&self) -> InterfaceView {
        InterfaceView {
            name: self.name@,
            index: self.index,
            mac: opt_text(self.mac),
            addrs: address_views(self.addrs@),
        }
    }
}

impl Clone for Interface {
    fn clone(&self) -> (r: Self)
        ensures
            r@ == self@,
    {
        Interface {
            name: self.name.clone(),
            index: self.index,
            mac: clone_opt_text(&self.mac),
            addrs: clone_addresses(&self.addrs),
        }
    }
}

/// The contents of a list of interfaces.
pub open spec fn interface_views(v: Seq<Interface>) -> Seq<InterfaceView> {
    v.map_values(|i: Interface| i@)
}

/// The first interface of the list that has the index.
pub open spec fn interface_for(interfaces: Seq<InterfaceView>, index: u32) -> Option<InterfaceView>
    decreases interfaces.len(),
{
    if interfaces.len() == 0 {
        None
    } else if interfaces[0].index == index {
        Some(interfaces[0])
    } else {
        interface_for(interfaces.skip(1), index)
    }
}

/// Picks the interface of an index from the list: a copy of the first that
/// has it, or the complaint that none has.
pub fn get_interface_by_index(interfaces: &Vec<Interface>, index: u32) -> (r: Result<
    Interface,
    String,
>)
    ensures
        match interface_for(interface_views(interfaces@), index) {
            Some(found) => r matches Ok(i) && i@ == found,
            None => r matches Err(m) && m@ == "interface not found"@,
        },
{
    let ghost all = interface_views(interfaces@);
    let mut i: usize = 0;
    assert(all.skip(0) =~= all);
    while i < interfaces.len()
        invariant
            i <= interfaces.len(),
            all == interface_views(interfaces@),
            interface_for(all, index) == interface_for(all.skip(i as int), index),
        decreases interfaces.len() - i,
    {
        assert(all.skip(i as int)[0] == interfaces[i as int]@);
        if interfaces[i].index == index {
            return Ok(interfaces[i].clone());
        }
        assert(all.skip(i as int).skip(1) =~= all.skip(i + 1));
        i += 1;
    }
    Err("interface not found".to_owned())
}

} // verus!
