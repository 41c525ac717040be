//! The DNS settings of a network interface, as the system reports them.

use vstd::prelude::*;

use crate::dns_types::{clone_strings, texts};
use crate::interface::{Interface, InterfaceView};
use crate::text::{decimal_text, join, opt_text, u32_to_text};

verus! {

/// What the system reports of an adapter's configuration, as far as its
/// DNS settings go.
#[derive(Debug)]
pub struct InterfaceInfoWmi {
    pub description: String,
    pub dns_server_search_order: Vec<String>,
    pub interface_index: u32,
    pub ip_connection_metric: Option<i16>,
    pub path: Option<String>,
}

/// Contents of an [`InterfaceInfoWmi`].
pub struct InterfaceInfoView {
    pub description: Seq<char>,
    pub dns_server_search_order: Seq<Seq<char>>,
    pub interface_index: u32,
    pub ip_connection_metric: Option<i16>,
    pub path: Option<Seq<char>>,
}

impl View for InterfaceInfoWmi {
    type V = InterfaceInfoView;

    open spec fn view(&self) -> InterfaceInfoView {
        InterfaceInfoView {
            description: self.description@,
            dns_server_search_order: texts(self.dns_server_search_order@),
            interface_index: self.interface_index,
            ip_connection_metric: self.ip_connection_metric,
            path: opt_text(self.path),
        }
    }
}

/// The DNS settings of one interface.
#[derive(Debug)]
pub struct InterfaceDnsInfo {
    pub interface_index: u32,
    pub dns_servers: Vec<String>,
    pub interface_name: String,
    pub path: Option<String>,
}

/// Contents of an [`InterfaceDnsInfo`].
pub struct InterfaceDnsInfoView {
    pub interface_index: u32,
    pub dns_servers: Seq<Seq<char>>,
    pub interface_name: Seq<char>,
    pub path: Option<Seq<char>>,
}

impl View for InterfaceDnsInfo {
    type V = InterfaceDnsInfoView;

    open spec fn view(&self) -> InterfaceDnsInfoView {
        InterfaceDnsInfoView {
            interface_index: self.interface_index,
            dns_servers: texts(self.dns_servers@),
            interface_name: self.interface_name@,
            path: opt_text(self.path),
        }
    }
}

/// The query that asks the system for the configuration of an interface
/// index.
pub fn configuration_query(interface_idx: u32) -> (r: String)
    ensures
        r@ == "SELECT * FROM Win32_NetworkAdapterConfiguration WHERE InterfaceIndex = "@
            + decimal_text(interface_idx as nat),
{
    join(
        "SELECT * FROM Win32_NetworkAdapterConfiguration WHERE InterfaceIndex = ",
        u32_to_text(interface_idx).as_str(),
    )
}

/// The DNS settings that the system's answers give: the settings of the
/// first configuration, under the interface's name.
pub open spec fn dns_info_of(interface: InterfaceView, first: InterfaceInfoView) -> InterfaceDnsInfoView {
    InterfaceDnsInfoView {
        interface_index: first.interface_index,
        dns_servers: first.dns_server_search_order,
        interface_name: interface.name,
        path: first.path,
    }
}

/// Puts together the DNS settings of an interface from what was found of
/// the interface and what the query for its configuration returned. A
/// query that failed is reported first, then a query that returned
/// nothing, then an interface that was not found.
pub fn get_interface_dns_info(
    interface_info: Result<Interface, String>,
    result: Result<Vec<InterfaceInfoWmi>, String>,
) -> (r: Result<InterfaceDnsInfo, String>)
    ensures
        match result {
            Err(e) => r matches Err(m) && m@ == "WMI query failed: "@ + e@,
            Ok(list) => if list@.len() == 0 {
                r matches Err(m) && m@ == "No interface found"@
            } else {
                match interface_info {
                    Err(e) => r matches Err(m) && m@ == e@,
                    Ok(interface) => r matches Ok(info) && info@ == dns_info_of(
                        interface@,
                        list@[0]@,
                    ),
                }
            },
        },
{
    let list = match result {
        Ok(list) => list,
        Err(e) => {
            return Err(join("WMI query failed: ", e.as_str()));
        },
    };
    if list.len() == 0 {
        return Err("No interface found".to_owned());
    }
    let interface = match interface_info {
        Ok(interface) => interface,
        Err(e) => {
            return Err(e);
        },
    };
    let first = &list[0];
    Ok(
        InterfaceDnsInfo {
            interface_index: first.interface_index,
            dns_servers: clone_strings(&first.dns_server_search_order),
            interface_name: interface.name,
            path: crate::text::clone_opt_text(&first.path),
        },
    )
}

} // verus!
