//! Network adapters and their configurations, as the system reports them,
//! and how the two are brought together.

use vstd::prelude::*;

use crate::text::{
    clone_opt_text, clone_opt_texts, decimal_text, join, opt_text, opt_texts, u32_to_text,
};

verus! {

/// A network adapter, as the system reports it.
#[derive(Debug)]
pub struct NetworkAdapterWmi {
    pub description: Option<String>,
    pub device_id: String,
    pub guid: Option<String>,
    pub index: u32,
    pub interface_index: u32,
    pub mac_address: Option<String>,
    pub manufacturer: Option<String>,
    pub name: Option<String>,
    pub net_connection_id: Option<String>,
    pub net_enabled: bool,
    pub config_manager_error_code: Option<u32>,
    pub service_name: Option<String>,
    pub path: Option<String>,
}

/// Contents of a [`NetworkAdapterWmi`].
pub struct NetworkAdapterView {
    pub description: Option<Seq<char>>,
    pub device_id: Seq<char>,
    pub guid: Option<Seq<char>>,
    pub index: u32,
    pub interface_index: u32,
    pub mac_address: Option<Seq<char>>,
    pub manufacturer: Option<Seq<char>>,
    pub name: Option<Seq<char>>,
    pub net_connection_id: Option<Seq<char>>,
    pub net_enabled: bool,
    pub config_manager_error_code: Option<u32>,
    pub service_name: Option<Seq<char>>,
    pub path: Option<Seq<char>>,
}

impl View for NetworkAdapterWmi {
    type V = NetworkAdapterView;

    open spec fn view(&self) -> NetworkAdapterView {
        NetworkAdapterView {
            description: opt_text(self.description),
            device_id: self.device_id@,
            guid: opt_text(self.guid),
            index: self.index,
            interface_index: self.interface_index,
            mac_address: opt_text(self.mac_address),
            manufacturer: opt_text(self.manufacturer),
            name: opt_text(self.name),
            net_connection_id: opt_text(self.net_connection_id),
            net_enabled: self.net_enabled,
            config_manager_error_code: self.config_manager_error_code,
            service_name: opt_text(self.service_name),
            path: opt_text(self.path),
        }
    }
}

impl Clone for NetworkAdapterWmi {
    fn clone(&self) -> (r: Self)
        ensures
            r@ == self@,
    {
        NetworkAdapterWmi {
            description: clone_opt_text(&self.description),
            device_id: self.device_id.clone(),
            guid: clone_opt_text(&self.guid),
            index: self.index,
            interface_index: self.interface_index,
            mac_address: clone_opt_text(&self.mac_address),
            manufacturer: clone_opt_text(&self.manufacturer),
            name: clone_opt_text(&self.name),
            net_connection_id: clone_opt_text(&self.net_connection_id),
            net_enabled: self.net_enabled,
            config_manager_error_code: self.config_manager_error_code,
            service_name: clone_opt_text(&self.service_name),
            path: clone_opt_text(&self.path),
        }
    }
}

impl Default for NetworkAdapterWmi {
    fn default() -> (r: Self)
        ensures
            r@.path is None,
            r@.interface_index == 0,
    {
        NetworkAdapterWmi {
            description: None,
            device_id: String::new(),
            guid: None,
            index: 0,
            interface_index: 0,
            mac_address: None,
            manufacturer: None,
            name: None,
            net_connection_id: None,
            net_enabled: false,
            config_manager_error_code: None,
            service_name: None,
            path: None,
        }
    }
}

/// The configuration of a network adapter, as the system reports it.
#[derive(Debug)]
pub struct NetworkAdapterConfigurationWmi {
    pub default_ip_gateway: Option<Vec<String>>,
    pub description: Option<String>,
    pub dhcp_enabled: bool,
    pub dhcp_server: Option<String>,
    pub dns_host_name: Option<String>,
    pub dns_server_search_order: Option<Vec<String>>,
    pub index: u32,
    pub interface_index: u32,
    pub ip_address: Option<Vec<String>>,
    pub ip_connection_metric: Option<i16>,
    pub ip_enabled: bool,
    pub ip_subnet: Option<Vec<String>>,
    pub mac_address: Option<String>,
    pub path: Option<String>,
}

/// Contents of a [`NetworkAdapterConfigurationWmi`].
pub struct NetworkAdapterConfigurationView {
    pub default_ip_gateway: Option<Seq<Seq<char>>>,
    pub description: Option<Seq<char>>,
    pub dhcp_enabled: bool,
    pub dhcp_server: Option<Seq<char>>,
    pub dns_host_name: Option<Seq<char>>,
    pub dns_server_search_order: Option<Seq<Seq<char>>>,
    pub index: u32,
    pub interface_index: u32,
    pub ip_address: Option<Seq<Seq<char>>>,
    pub ip_connection_metric: Option<i16>,
    pub ip_enabled: bool,
    pub ip_subnet: Option<Seq<Seq<char>>>,
    pub mac_address: Option<Seq<char>>,
    pub path: Option<Seq<char>>,
}

impl View for NetworkAdapterConfigurationWmi {
    type V = NetworkAdapterConfigurationView;

    open spec fn view(&self) -> NetworkAdapterConfigurationView {
        NetworkAdapterConfigurationView {
            default_ip_gateway: opt_texts(self.default_ip_gateway),
            description: opt_text(self.description),
            dhcp_enabled: self.dhcp_enabled,
            dhcp_server: opt_text(self.dhcp_server),
            dns_host_name: opt_text(self.dns_host_name),
            dns_server_search_order: opt_texts(self.dns_server_search_order),
            index: self.index,
            interface_index: self.interface_index,
            ip_address: opt_texts(self.ip_address),
            ip_connection_metric: self.ip_connection_metric,
            ip_enabled: self.ip_enabled,
            ip_subnet: opt_texts(self.ip_subnet),
            mac_address: opt_text(self.mac_address),
            path: opt_text(self.path),
        }
    }
}

impl Clone for NetworkAdapterConfigurationWmi {
    fn clone(&self) -> (r: Self)
        ensures
            r@ == self@,
    {
        NetworkAdapterConfigurationWmi {
            default_ip_gateway: clone_opt_texts(&self.default_ip_gateway),
            description: clone_opt_text(&self.description),
            dhcp_enabled: self.dhcp_enabled,
            dhcp_server: clone_opt_text(&self.dhcp_server),
            dns_host_name: clone_opt_text(&self.dns_host_name),
            dns_server_search_order: clone_opt_texts(&self.dns_server_search_order),
            index: self.index,
            interface_index: self.interface_index,
            ip_address: clone_opt_texts(&self.ip_address),
            ip_connection_metric: self.ip_connection_metric,
            ip_enabled: self.ip_enabled,
            ip_subnet: clone_opt_texts(&self.ip_subnet),
            mac_address: clone_opt_text(&self.mac_address),
            path: clone_opt_text(&self.path),
        }
    }
}

/// An adapter together with its configuration, where it has one.
#[derive(Debug)]
pub struct Interface {
    pub adapter: NetworkAdapterWmi,
    pub config: Option<NetworkAdapterConfigurationWmi>,
}

/// Contents of an [`Interface`].
pub struct InterfaceView {
    pub adapter: NetworkAdapterView,
    pub config: Option<NetworkAdapterConfigurationView>,
}

impl View for Interface {
    type V = InterfaceView;

    open spec fn view(&self) -> InterfaceView {
        InterfaceView {
            adapter: self.adapter@,
            config: match self.config {
                Some(c) => Some(c@),
                None => None,
            },
        }
    }
}

impl Clone for Interface {
    fn clone(&self) -> (r: Self)
        ensures
            r@ == self@,
    {
        Interface {
            adapter: self.adapter.clone(),
            config: match &self.config {
                Some(c) => Some(c.clone()),
                None => None,
            },
        }
    }
}

/// An address of an interface, with its subnet mask and gateway.
#[derive(Debug)]
pub struct Address {
    pub ip: String,
    pub subnet: Option<String>,
    pub gateway: Option<String>,
}

/// Contents of an [`Address`].
pub struct AddressView {
    pub ip: Seq<char>,
    pub subnet: Option<Seq<char>>,
    pub gateway: Option<Seq<char>>,
}

impl View for Address {
    type V = AddressView;

    open spec fn view(&self) -> AddressView {
        AddressView { ip: self.ip@, subnet: opt_text(self.subnet), gateway: opt_text(self.gateway) }
    }
}

impl Clone for Address {
    fn clone(&self) -> (r: Self)
        ensures
            r@ == self@,
    {
        Address {
            ip: self.ip.clone(),
            subnet: clone_opt_text(&self.subnet),
            gateway: clone_opt_text(&self.gateway),
        }
    }
}

/// The contents of a list of adapters.
pub open spec fn adapter_views(v: Seq<NetworkAdapterWmi>) -> Seq<NetworkAdapterView> {
    v.map_values(|a: NetworkAdapterWmi| a@)
}

/// The contents of a list of configurations.
pub open spec fn config_views(v: Seq<NetworkAdapterConfigurationWmi>) -> Seq<
    NetworkAdapterConfigurationView,
> {
    v.map_values(|c: NetworkAdapterConfigurationWmi| c@)
}

/// The contents of a list of interfaces.
pub open spec fn interface_views(v: Seq<Interface>) -> Seq<InterfaceView> {
    v.map_values(|i: Interface| i@)
}

/// The first configuration of the list that belongs to the interface
/// index, if there is one.
pub open spec fn config_for(configs: Seq<NetworkAdapterConfigurationView>, index: u32) -> Option<
    NetworkAdapterConfigurationView,
>
    decreases configs.len(),
{
    if configs.len() == 0 {
        None
    } else if configs[0].interface_index == index {
        Some(configs[0])
    } else {
        config_for(configs.skip(1), index)
    }
}

/// Each adapter with the first configuration that has its interface index.
pub open spec fn joined(
    adapters: Seq<NetworkAdapterView>,
    configs: Seq<NetworkAdapterConfigurationView>,
) -> Seq<InterfaceView> {
    Seq::new(
        adapters.len(),
        |i: int|
            InterfaceView {
                adapter: adapters[i],
                config: config_for(configs, adapters[i].interface_index),
            },
    )
}

/// The first interface of the list whose adapter has the interface index.
pub open spec fn interface_for(interfaces: Seq<InterfaceView>, index: u32) -> Option<InterfaceView>
    decreases interfaces.len(),
{
    if interfaces.len() == 0 {
        None
    } else if interfaces[0].adapter.interface_index == index {
        Some(interfaces[0])
    } else {
        interface_for(interfaces.skip(1), index)
    }
}

/// The query that asks the system for all adapters, enabled or not.
pub fn all_adapters_query() -> (r: String)
    ensures
        r@ == "SELECT * FROM Win32_NetworkAdapter WHERE NetEnabled = TRUE OR NetEnabled = FALSE"@,
{
    "SELECT * FROM Win32_NetworkAdapter WHERE NetEnabled = TRUE OR NetEnabled = FALSE".to_owned()
}

/// The query that asks the system for all adapter configurations.
pub fn all_configurations_query() -> (r: String)
    ensures
        r@ == "SELECT * FROM Win32_NetworkAdapterConfiguration"@,
{
    "SELECT * FROM Win32_NetworkAdapterConfiguration".to_owned()
}

/// The query that asks the system for the adapter of an interface index.
pub fn adapter_query(index: u32) -> (r: String)
    ensures
        r@ == "SELECT * FROM Win32_NetworkAdapter WHERE InterfaceIndex = "@ + decimal_text(
            index as nat,
        ),
{
    join("SELECT * FROM Win32_NetworkAdapter WHERE InterfaceIndex = ", u32_to_text(index).as_str())
}

/// Finds the first configuration that belongs to the interface index.
pub fn find_config(configs: &Vec<NetworkAdapterConfigurationWmi>, index: u32) -> (r: Option<
    NetworkAdapterConfigurationWmi,
>)
    ensures
        (match r {
            Some(c) => Some(c@),
            None => None,
        }) == config_for(config_views(configs@), index),
{
    let ghost all = config_views(configs@);
    let mut i: usize = 0;
    assert(all.skip(0) =~= all);
    while i < configs.len()
        invariant
            i <= configs.len(),
            all == config_views(configs@),
            config_for(all, index) == config_for(all.skip(i as int), index),
        decreases configs.len() - i,
    {
        assert(all.skip(i as int)[0] == configs[i as int]@);
        if configs[i].interface_index == index {
            return Some(configs[i].clone());
        }
        assert(all.skip(i as int).skip(1) =~= all.skip(i + 1));
        i += 1;
    }
    None
}

/// Brings the adapters together with their configurations: each adapter,
/// in order, with the first configuration that has its interface index. A
/// query that failed is reported, the adapters' before the
/// configurations'.
pub fn get_all_interfaces(
    adapters: Result<Vec<NetworkAdapterWmi>, String>,
    configs: Result<Vec<NetworkAdapterConfigurationWmi>, String>,
) -> (r: Result<Vec<Interface>, String>)
    ensures
        match (adapters, configs) {
            (Err(e), _) => r matches Err(m) && m@ == "Failed to get all interfaces: "@ + e@,
            (Ok(_), Err(e)) => r matches Err(m) && m@
                == "Failed to get all interfaces configuration: "@ + e@,
            (Ok(a), Ok(c)) => r matches Ok(list) && interface_views(list@) == joined(
                adapter_views(a@),
                config_views(c@),
            ),
        },
{
    let adapters = match adapters {
        Ok(a) => a,
        Err(e) => {
            return Err(join("Failed to get all interfaces: ", e.as_str()));
        },
    };
    let configs = match configs {
        Ok(c) => c,
        Err(e) => {
            return Err(join("Failed to get all interfaces configuration: ", e.as_str()));
        },
    };
    let mut out: Vec<Interface> = Vec::new();
    let mut i: usize = 0;
    while i < adapters.len()
        invariant
            i <= adapters.len(),
            out.len() == i,
            forall|k: int|
                0 <= k < i ==> (#[trigger] out[k])@ == joined(
                    adapter_views(adapters@),
                    config_views(configs@),
                )[k],
        decreases adapters.len() - i,
    {
        let config = find_config(&configs, adapters[i].interface_index);
        out.push(Interface { adapter: adapters[i].clone(), config });
        i += 1;
    }
    assert(interface_views(out@) =~= joined(adapter_views(adapters@), config_views(configs@)));
    Ok(out)
}

/// Picks the interface of an interface index from the list: a copy of the
/// first whose adapter has it, or the complaint that none has.
pub fn get_interface_by_index(interfaces: &Vec<Interface>, index: u32) -> (r: Result<
    Interface,
    String,
>)
    ensures
        match interface_for(interface_views(interfaces@), index) {
            Some(found) => r matches Ok(i) && i@ == found,
            None => r matches Err(m) && m@ == "Interface with index "@ + decimal_text(index as nat)
                + " not found"@,
        },
{
    let ghost all = interface_views(interfaces@);
    let mut i: usize = 0;
    assert(all.skip(0) =~= all);
    while i < interfaces.len()
        invariant
            i <= interfaces.len(),
            all == interface_views(interfaces@),
            interface_for(all, index) == interface_for(all.skip(i as int), index),
        decreases interfaces.len() - i,
    {
        assert(all.skip(i as int)[0] == interfaces[i as int]@);
        if interfaces[i].adapter.interface_index == index {
            return Ok(interfaces[i].clone());
        }
        assert(all.skip(i as int).skip(1) =~= all.skip(i + 1));
        i += 1;
    }
    let mut message = join("Interface with index ", u32_to_text(index).as_str());
    message.append(" not found");
    Err(message)
}

/// The path of the adapter that a query for one interface index returned:
/// the first adapter's path, or the empty text where no adapter was
/// returned or the first has no path. A query that failed is reported.
pub fn get_network_adapter_path_by_ifidx(result: Result<Vec<NetworkAdapterWmi>, String>) -> (r:
    Result<String, String>)
    ensures
        match result {
            Err(e) => r matches Err(m) && m@ == "Failed to get network adapter path: "@ + e@,
            Ok(list) => r matches Ok(path) && path@ == if list@.len() > 0 && list@[0]@.path
                is Some {
                list@[0]@.path->0
            } else {
                Seq::<char>::empty()
            },
        },
{
    match result {
        Err(e) => Err(join("Failed to get network adapter path: ", e.as_str())),
        Ok(list) => {
            if list.len() > 0 {
                match &list[0].path {
                    Some(p) => Ok(p.clone()),
                    None => Ok(String::new()),
                }
            } else {
                Ok(String::new())
            }
        },
    }
}

/// The path whose DNS settings are cleared when the program leaves: that
/// of the interface's configuration. An interface without configuration,
/// or a configuration without path, is an error.
pub fn clear_dns_on_exit(interface: &Interface) -> (r: Result<String, String>)
    ensures
        match interface@.config {
            None => r matches Err(m) && m@ == "Failed to get network configuration"@,
            Some(config) => match config.path {
                None => r matches Err(m) && m@ == "Failed to get network path"@,
                Some(path) => r matches Ok(p) && p@ == path,
            },
        },
{
    match &interface.config {
        None => Err("Failed to get network configuration".to_owned()),
        Some(config) => match &config.path {
            None => Err("Failed to get network path".to_owned()),
            Some(path) => Ok(path.clone()),
        },
    }
}

} // verus!
