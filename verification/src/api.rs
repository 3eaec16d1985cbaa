//! The client: one method for each endpoint of the provider.
//!
//! A method describes the request that the endpoint takes, typed by the
//! envelope in which the endpoint answers; sending it is the transport's
//! part. The client holds the bearer token and nothing else, so it can be
//! shared freely.

use vstd::prelude::*;
use vstd::string::*;
use crate::body::VultrBody;
use crate::call::VultrCall;
use crate::envelope::Envelope;
use crate::envelope::VultrAccountRoot;
use crate::envelope::VultrDomainRecordRoot;
use crate::envelope::VultrDomainRecordsRoot;
use crate::envelope::VultrDomainRoot;
use crate::envelope::VultrDomainsRoot;
use crate::envelope::VultrInstanceRoot;
use crate::envelope::VultrInstancesRoot;
use crate::envelope::VultrNoContent;
use crate::envelope::VultrOSRoot;
use crate::envelope::VultrPlansRoot;
use crate::envelope::VultrRegionsRoot;
use crate::envelope::VultrSSHKeyRoot;
use crate::envelope::VultrSSHKeysRoot;
use crate::model::VultrInstanceType;
use crate::request::collection_address;
use crate::request::collection_url;
use crate::request::item_address;
use crate::request::item_url;
use crate::request::part_address;
use crate::request::part_item_address;
use crate::request::part_item_url;
use crate::request::part_url;
use crate::request::VultrMethod;
use crate::request::VultrRequest;
use crate::request::VultrRequestView;
use crate::text::decimal;
use crate::text::decimal_string;
use crate::text::dnssec_string;
use crate::text::dnssec_text;
use crate::text::flag_string;
use crate::text::flag_text;

verus! {

/// A client for the provider's API, bound to one bearer token.
#[derive(Debug)]
pub struct VultrApi {
    token: String,
}

/// The text of an optional string.
pub open spec fn optional_text(value: Option<String>) -> Option<Seq<char>> {
    match value {
        Some(s) => Some(s@),
        None => None,
    }
}

/// The numeral of an optional number.
pub open spec fn optional_decimal(value: Option<u32>) -> Option<Seq<char>> {
    match value {
        Some(n) => Some(decimal(n as nat)),
        None => None,
    }
}

/// `fields` with `name` set to `value` where there is a value, and
/// `fields` itself where there is none.
pub open spec fn with_optional(
    fields: Map<Seq<char>, Seq<char>>,
    name: Seq<char>,
    value: Option<Seq<char>>,
) -> Map<Seq<char>, Seq<char>> {
    match value {
        Some(text) => fields.insert(name, text),
        None => fields,
    }
}

/// The body that creates a domain: its name, the DNSSEC switch, and the
/// seed address only where one is given.
pub open spec fn domain_body(domain: Seq<char>, ip: Option<Seq<char>>, dns_sec: bool) -> Map<
    Seq<char>,
    Seq<char>,
> {
    with_optional(map!["domain"@ => domain, "dns_sec"@ => dnssec_text(dns_sec)], "ip"@, ip)
}

/// The body that creates a domain record: type, name and data, and the
/// time-to-live and the priority only where they are given.
pub open spec fn record_body(
    record_type: Seq<char>,
    name: Seq<char>,
    data: Seq<char>,
    ttl: Option<Seq<char>>,
    priority: Option<Seq<char>>,
) -> Map<Seq<char>, Seq<char>> {
    with_optional(
        with_optional(
            map!["type"@ => record_type, "name"@ => name, "data"@ => data],
            "ttl"@,
            ttl,
        ),
        "priority"@,
        priority,
    )
}

/// The body that stores an SSH key.
pub open spec fn sshkey_body(name: Seq<char>, ssh_key: Seq<char>) -> Map<Seq<char>, Seq<char>> {
    map!["name"@ => name, "ssh_key"@ => ssh_key]
}

impl VultrInstanceType {
    /// The body field that names this kind of image source.
    pub open spec fn field_name(&self) -> Seq<char> {
        match self {
            VultrInstanceType::OS(_) => "os_id"@,
            VultrInstanceType::ISO(_) => "iso_id"@,
            VultrInstanceType::Snapshot(_) => "snapshot_id"@,
            VultrInstanceType::App(_) => "app_id"@,
        }
    }

    /// The id of the image source as the body carries it: the number of an
    /// operating system in decimal, any other id as it is.
    pub open spec fn field_text(&self) -> Seq<char> {
        match self {
            VultrInstanceType::OS(id) => decimal(*id as nat),
            VultrInstanceType::ISO(id) => id@,
            VultrInstanceType::Snapshot(id) => id@,
            VultrInstanceType::App(id) => id@,
        }
    }
}

/// The body that creates an instance. Of the four image-source fields it
/// holds the one that `source` selects.
pub open spec fn instance_body(
    region: Seq<char>,
    plan: Seq<char>,
    source: VultrInstanceType,
    enable_ipv6: bool,
    label: Seq<char>,
    sshkey_id: Seq<char>,
    backups: bool,
    ddos_protection: bool,
    activation_email: bool,
    hostname: Seq<char>,
    tag: Seq<char>,
) -> Map<Seq<char>, Seq<char>> {
    map![
        "region"@ => region,
        "plan"@ => plan,
        source.field_name() => source.field_text(),
        "enable_ipv6"@ => flag_text(enable_ipv6),
        "label"@ => label,
        "sshkey_id"@ => sshkey_id,
        "backups"@ => flag_text(backups),
        "ddos_protection"@ => flag_text(ddos_protection),
        "activation_email"@ => flag_text(activation_email),
        "hostname"@ => hostname,
        "tag"@ => tag,
    ]
}

impl VultrApi {
    /// The bearer token that the client signs its requests with.
    pub closed spec fn bearer(&self) -> Seq<char> {
        self.token@
    }

    /// A client that authenticates with `token`. Nothing is sent and
    /// nothing is checked.
    pub fn new(token: &str) -> (api: VultrApi)
        ensures
            api.bearer() == token@,
    {
        VultrApi { token: token.to_owned() }
    }

    /// A GET of `url` under the client's token.
    pub fn get<E: Envelope>(&self, url: String) -> (call: VultrCall<E>)
        ensures
            call.request@ == (VultrRequestView {
                method: VultrMethod::Get,
                url: url@,
                token: self.bearer(),
                body: None,
            }),
    {
        VultrCall::new(
            VultrRequest {
                method: VultrMethod::Get,
                url,
                token: self.token.clone(),
                body: None,
            },
        )
    }

    /// A POST of `body` to `url` under the client's token.
    pub fn post<E: Envelope>(&self, url: String, body: VultrBody) -> (call: VultrCall<E>)
        ensures
            call.request@ == (VultrRequestView {
                method: VultrMethod::Post,
                url: url@,
                token: self.bearer(),
                body: Some(body@),
            }),
    {
        VultrCall::new(
            VultrRequest {
                method: VultrMethod::Post,
                url,
                token: self.token.clone(),
                body: Some(body),
            },
        )
    }

    /// A DELETE of `url` under the client's token.
    pub fn delete<E: Envelope>(&self, url: String) -> (call: VultrCall<E>)
        ensures
            call.request@ == (VultrRequestView {
                method: VultrMethod::Delete,
                url: url@,
                token: self.bearer(),
                body: None,
            }),
    {
        VultrCall::new(
            VultrRequest {
                method: VultrMethod::Delete,
                url,
                token: self.token.clone(),
                body: None,
            },
        )
    }

    /// Asks for the account.
    pub fn get_account_info(&self) -> (call: VultrCall<VultrAccountRoot>)
        ensures
            call.request@ == (VultrRequestView {
                method: VultrMethod::Get,
                url: collection_url("account"@),
                token: self.bearer(),
                body: None,
            }),
    {
        self.get(collection_address("account"))
    }

    /// Asks for all domains.
    pub fn get_dns_domain_list(&self) -> (call: VultrCall<VultrDomainsRoot>)
        ensures
            call.request@ == (VultrRequestView {
                method: VultrMethod::Get,
                url: collection_url("domains"@),
                token: self.bearer(),
                body: None,
            }),
    {
        self.get(collection_address("domains"))
    }

    /// Asks for the domain named `domain`.
    pub fn get_dns_domain(&self, domain: &str) -> (call: VultrCall<VultrDomainRoot>)
        requires
            domain@.len() > 0,
        ensures
            call.request@ == (VultrRequestView {
                method: VultrMethod::Get,
                url: item_url("domains"@, domain@),
                token: self.bearer(),
                body: None,
            }),
    {
        self.get(item_address("domains", domain))
    }

    /// Deletes the domain named `domain`.
    pub fn delete_dns_domain(&self, domain: &str) -> (call: VultrCall<VultrNoContent>)
        requires
            domain@.len() > 0,
        ensures
            call.request@ == (VultrRequestView {
                method: VultrMethod::Delete,
                url: item_url("domains"@, domain@),
                token: self.bearer(),
                body: None,
            }),
    {
        self.delete(item_address("domains", domain))
    }

    /// Creates the domain named `domain`, seeded with the address `ip`
    /// where one is given, with DNSSEC on or off.
    pub fn create_dns_domain(&self, domain: &str, ip: Option<String>, dns_sec: bool) -> (call: VultrCall<
        VultrDomainRoot,
    >)
        requires
            domain@.len() > 0,
        ensures
            call.request@ == (VultrRequestView {
                method: VultrMethod::Post,
                url: collection_url("domains"@),
                token: self.bearer(),
                body: Some(domain_body(domain@, optional_text(ip), dns_sec)),
            }),
    {
        let mut body = VultrBody::new();
        body.insert("domain", domain.to_owned());
        body.insert("dns_sec", dnssec_string(dns_sec));
        if let Some(ip) = ip {
            body.insert("ip", ip);
        }
        self.post(collection_address("domains"), body)
    }

    /// Creates a record of the domain `domain`. The time-to-live and the
    /// priority go into the body only where they are given.
    pub fn create_dns_domain_record(
        &self,
        domain: &str,
        record_type: &str,
        name: &str,
        ip: &str,
        ttl: Option<u32>,
        priority: Option<u32>,
    ) -> (call: VultrCall<VultrDomainRecordRoot>)
        ensures
            call.request@ == (VultrRequestView {
                method: VultrMethod::Post,
                url: part_url("domains"@, domain@, "records"@),
                token: self.bearer(),
                body: Some(
                    record_body(
                        record_type@,
                        name@,
                        ip@,
                        optional_decimal(ttl),
                        optional_decimal(priority),
                    ),
                ),
            }),
    {
        let mut body = VultrBody::new();
        body.insert("type", record_type.to_owned());
        body.insert("name", name.to_owned());
        body.insert("data", ip.to_owned());
        if let Some(ttl) = ttl {
            body.insert("ttl", decimal_string(ttl));
        }
        if let Some(priority) = priority {
            body.insert("priority", decimal_string(priority));
        }
        self.post(part_address("domains", domain, "records"), body)
    }

    /// Asks for the records of the domain `domain`.
    pub fn get_dns_domain_records(&self, domain: &str) -> (call: VultrCall<VultrDomainRecordsRoot>)
        ensures
            call.request@ == (VultrRequestView {
                method: VultrMethod::Get,
                url: part_url("domains"@, domain@, "records"@),
                token: self.bearer(),
                body: None,
            }),
    {
        self.get(part_address("domains", domain, "records"))
    }

    /// Deletes the record `record_id` of the domain `domain`.
    pub fn delete_dns_domain_record(&self, domain: &str, record_id: &str) -> (call: VultrCall<VultrNoContent>)
        ensures
            call.request@ == (VultrRequestView {
                method: VultrMethod::Delete,
                url: part_item_url("domains"@, domain@, "records"@, record_id@),
                token: self.bearer(),
                body: None,
            }),
    {
        self.delete(part_item_address("domains", domain, "records", record_id))
    }

    /// Asks for all plans.
    pub fn get_plans(&self) -> (call: VultrCall<VultrPlansRoot>)
        ensures
            call.request@ == (VultrRequestView {
                method: VultrMethod::Get,
                url: collection_url("plans"@),
                token: self.bearer(),
                body: None,
            }),
    {
        self.get(collection_address("plans"))
    }

    /// Asks for all regions.
    pub fn get_regions(&self) -> (call: VultrCall<VultrRegionsRoot>)
        ensures
            call.request@ == (VultrRequestView {
                method: VultrMethod::Get,
                url: collection_url("regions"@),
                token: self.bearer(),
                body: None,
            }),
    {
        self.get(collection_address("regions"))
    }

    /// Asks for all operating systems.
    pub fn get_os_list(&self) -> (call: VultrCall<VultrOSRoot>)
        ensures
            call.request@ == (VultrRequestView {
                method: VultrMethod::Get,
                url: collection_url("os"@),
                token: self.bearer(),
                body: None,
            }),
    {
        self.get(collection_address("os"))
    }

    /// Asks for all SSH keys.
    pub fn get_sshkey_list(&self) -> (call: VultrCall<VultrSSHKeysRoot>)
        ensures
            call.request@ == (VultrRequestView {
                method: VultrMethod::Get,
                url: collection_url("ssh-keys"@),
                token: self.bearer(),
                body: None,
            }),
    {
        self.get(collection_address("ssh-keys"))
    }

    /// Asks for the SSH key `key_id`.
    pub fn get_sshkey(&self, key_id: &str) -> (call: VultrCall<VultrSSHKeyRoot>)
        ensures
            call.request@ == (VultrRequestView {
                method: VultrMethod::Get,
                url: item_url("ssh-keys"@, key_id@),
                token: self.bearer(),
                body: None,
            }),
    {
        self.get(item_address("ssh-keys", key_id))
    }

    /// Stores the public key `ssh_key` under `name`.
    pub fn create_sshkey(&self, name: &str, ssh_key: &str) -> (call: VultrCall<VultrSSHKeyRoot>)
        ensures
            call.request@ == (VultrRequestView {
                method: VultrMethod::Post,
                url: collection_url("ssh-keys"@),
                token: self.bearer(),
                body: Some(sshkey_body(name@, ssh_key@)),
            }),
    {
        let mut body = VultrBody::new();
        body.insert("name", name.to_owned());
        body.insert("ssh_key", ssh_key.to_owned());
        self.post(collection_address("ssh-keys"), body)
    }

    /// Deletes the SSH key `key_id`.
    pub fn delete_sshkey(&self, key_id: &str) -> (call: VultrCall<VultrNoContent>)
        ensures
            call.request@ == (VultrRequestView {
                method: VultrMethod::Delete,
                url: item_url("ssh-keys"@, key_id@),
                token: self.bearer(),
                body: None,
            }),
    {
        self.delete(item_address("ssh-keys", key_id))
    }

    /// Asks for all instances.
    pub fn get_instance_list(&self) -> (call: VultrCall<VultrInstancesRoot>)
        ensures
            call.request@ == (VultrRequestView {
                method: VultrMethod::Get,
                url: collection_url("instances"@),
                token: self.bearer(),
                body: None,
            }),
    {
        self.get(collection_address("instances"))
    }

    /// Asks for the instance `instance_id`.
    pub fn get_instance(&self, instance_id: &str) -> (call: VultrCall<VultrInstanceRoot>)
        ensures
            call.request@ == (VultrRequestView {
                method: VultrMethod::Get,
                url: item_url("instances"@, instance_id@),
                token: self.bearer(),
                body: None,
            }),
    {
        self.get(item_address("instances", instance_id))
    }

    /// Creates an instance that boots from `instance_type`. Flags go into
    /// the body as `true` or `false`.
    pub fn create_instance(
        &self,
        region_id: &str,
        plan_id: &str,
        instance_type: VultrInstanceType,
        enable_ipv6: bool,
        label: &str,
        sshkey_id: &str,
        backups: bool,
        ddos_protection: bool,
        activation_email: bool,
        hostname: &str,
        tag: &str,
    ) -> (call: VultrCall<VultrInstanceRoot>)
        ensures
            call.request@ == (VultrRequestView {
                method: VultrMethod::Post,
                url: collection_url("instances"@),
                token: self.bearer(),
                body: Some(
                    instance_body(
                        region_id@,
                        plan_id@,
                        instance_type,
                        enable_ipv6,
                        label@,
                        sshkey_id@,
                        backups,
                        ddos_protection,
                        activation_email,
                        hostname@,
                        tag@,
                    ),
                ),
            }),
    {
        let mut body = VultrBody::new();
        body.insert("region", region_id.to_owned());
        body.insert("plan", plan_id.to_owned());
        match instance_type {
            VultrInstanceType::OS(id) => body.insert("os_id", decimal_string(id)),
            VultrInstanceType::ISO(id) => body.insert("iso_id", id),
            VultrInstanceType::Snapshot(id) => body.insert("snapshot_id", id),
            VultrInstanceType::App(id) => body.insert("app_id", id),
        }
        body.insert("enable_ipv6", flag_string(enable_ipv6));
        body.insert("label", label.to_owned());
        body.insert("sshkey_id", sshkey_id.to_owned());
        body.insert("backups", flag_string(backups));
        body.insert("ddos_protection", flag_string(ddos_protection));
        body.insert("activation_email", flag_string(activation_email));
        body.insert("hostname", hostname.to_owned());
        body.insert("tag", tag.to_owned());
        self.post(collection_address("instances"), body)
    }

    /// Deletes the instance `instance_id`.
    pub fn delete_instance(&self, instance_id: &str) -> (call: VultrCall<VultrNoContent>)
        ensures
            call.request@ == (VultrRequestView {
                method: VultrMethod::Delete,
                url: item_url("instances"@, instance_id@),
                token: self.bearer(),
                body: None,
            }),
    {
        self.delete(item_address("instances", instance_id))
    }
}

} // verus!
