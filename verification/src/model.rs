//! The resources of the provider, as the client hands them out.
//!
//! Every value is a snapshot of what the provider reported; the client
//! keeps none of them.

use vstd::prelude::*;

verus! {

/// A number with a fractional part, held as the bit pattern of an
/// IEEE 754 single-precision value so that it passes through unchanged.
#[derive(Clone, Copy, Debug, PartialEq, Eq, Structural)]
pub struct VultrNumber {
    pub bits: u32,
}

/// The account that the token belongs to.
#[derive(Clone, Debug, PartialEq, Eq)]
pub struct VultrAccount {
    pub name: String,
    pub email: String,
    pub balance: VultrNumber,
    pub pending_charges: VultrNumber,
    pub last_payment_date: String,
    pub last_payment_amount: VultrNumber,
    pub acls: Vec<String>,
}

/// A DNS domain; its name is its key at the provider.
#[derive(Clone, Debug, PartialEq, Eq)]
pub struct VultrDomain {
    pub domain: String,
    pub date_created: String,
}

/// A record of a DNS domain. The provider assigns the id.
#[derive(Clone, Debug, PartialEq, Eq)]
pub struct VultrDomainRecord {
    pub id: String,
    pub record_type: String,
    pub name: String,
    pub data: String,
    pub priority: i32,
    pub ttl: u32,
}

/// A region in which instances can run.
#[derive(Clone, Debug, PartialEq, Eq)]
pub struct VultrRegion {
    pub id: String,
    pub city: String,
    pub country: String,
    pub continent: String,
    pub options: Vec<String>,
}

/// A plan: the size of an instance and its price.
#[derive(Clone, Debug, PartialEq, Eq)]
pub struct VultrPlan {
    pub id: String,
    pub vcpu_count: u8,
    pub ram: u32,
    pub disk: VultrNumber,
    pub bandwidth: VultrNumber,
    pub monthly_cost: VultrNumber,
    pub plan_type: String,
    pub locations: Vec<String>,
}

/// An operating system that an instance can boot.
#[derive(Clone, Debug, PartialEq, Eq)]
pub struct VultrOS {
    pub id: u32,
    pub name: String,
    pub arch: String,
    pub family: String,
}

/// A public SSH key stored at the provider, which assigns the id.
#[derive(Clone, Debug, PartialEq, Eq)]
pub struct VultrSSHKey {
    pub id: String,
    pub date_created: String,
    pub name: String,
    pub ssh_key: String,
}

/// A compute instance.
#[derive(Clone, Debug, PartialEq, Eq)]
pub struct VultrInstance {
    pub id: String,
    pub os: String,
    pub ram: VultrNumber,
    pub disk: VultrNumber,
    pub main_ip: String,
    pub vcpu_count: u32,
    pub region: String,
    pub plan: String,
    pub date_created: String,
    pub status: String,
    pub allowed_bandwidth: VultrNumber,
    pub netmask_v4: String,
    pub gateway_v4: String,
    pub power_status: String,
    pub server_status: String,
    pub v6_network: String,
    pub v6_main_ip: String,
    pub v6_network_size: u64,
    pub label: String,
    pub internal_ip: String,
    pub kvm: String,
    pub tag: String,
    pub os_id: u32,
    pub app_id: u32,
    pub firewall_group_id: String,
    pub features: Vec<String>,
}

/// What a new instance boots from: exactly one of the four.
#[derive(Clone, Debug, PartialEq, Eq)]
pub enum VultrInstanceType {
    /// An operating system, by its numeric id.
    OS(u32),
    /// An ISO image, by its id.
    ISO(String),
    /// A snapshot, by its id.
    Snapshot(String),
    /// A marketplace application, by its id.
    App(String),
}

} // verus!
