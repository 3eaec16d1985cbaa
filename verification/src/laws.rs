//! What holds of every request that the client builds and of every
//! response that it reads.

use vstd::prelude::*;
use crate::api::domain_body;
use crate::api::instance_body;
use crate::api::optional_decimal;
use crate::api::record_body;
use crate::envelope::Envelope;
use crate::envelope::VultrAccountRoot;
use crate::envelope::VultrDomainRecordRoot;
use crate::envelope::VultrDomainRoot;
use crate::envelope::VultrInstanceRoot;
use crate::envelope::VultrSSHKeyRoot;
use crate::model::VultrAccount;
use crate::model::VultrDomain;
use crate::model::VultrDomainRecord;
use crate::model::VultrInstance;
use crate::model::VultrInstanceType;
use crate::model::VultrSSHKey;
use crate::reply::outcome;
use crate::request::api_root;
use crate::request::collection_url;
use crate::request::item_url;
use crate::request::part_item_url;
use crate::request::part_url;
use crate::reply::VultrError;
use crate::status::client_error_status;
use crate::status::success_status;
use crate::text::decimal;
use crate::text::flag_text;
use crate::text::lemma_decimal_nonempty;

verus! {

/// Makes the characters of every field name known.
proof fn reveal_field_names()
    ensures
        "region"@ =~= seq!['r', 'e', 'g', 'i', 'o', 'n'],
        "plan"@ =~= seq!['p', 'l', 'a', 'n'],
        "os_id"@ =~= seq!['o', 's', '_', 'i', 'd'],
        "iso_id"@ =~= seq!['i', 's', 'o', '_', 'i', 'd'],
        "snapshot_id"@ =~= seq!['s', 'n', 'a', 'p', 's', 'h', 'o', 't', '_', 'i', 'd'],
        "app_id"@ =~= seq!['a', 'p', 'p', '_', 'i', 'd'],
        "enable_ipv6"@ =~= seq!['e', 'n', 'a', 'b', 'l', 'e', '_', 'i', 'p', 'v', '6'],
        "label"@ =~= seq!['l', 'a', 'b', 'e', 'l'],
        "sshkey_id"@ =~= seq!['s', 's', 'h', 'k', 'e', 'y', '_', 'i', 'd'],
        "backups"@ =~= seq!['b', 'a', 'c', 'k', 'u', 'p', 's'],
        "ddos_protection"@ =~= seq![
            'd',
            'd',
            'o',
            's',
            '_',
            'p',
            'r',
            'o',
            't',
            'e',
            'c',
            't',
            'i',
            'o',
            'n',
        ],
        "activation_email"@ =~= seq![
            'a',
            'c',
            't',
            'i',
            'v',
            'a',
            't',
            'i',
            'o',
            'n',
            '_',
            'e',
            'm',
            'a',
            'i',
            'l',
        ],
        "hostname"@ =~= seq!['h', 'o', 's', 't', 'n', 'a', 'm', 'e'],
        "tag"@ =~= seq!['t', 'a', 'g'],
        "type"@ =~= seq!['t', 'y', 'p', 'e'],
        "name"@ =~= seq!['n', 'a', 'm', 'e'],
        "data"@ =~= seq!['d', 'a', 't', 'a'],
        "ttl"@ =~= seq!['t', 't', 'l'],
        "priority"@ =~= seq!['p', 'r', 'i', 'o', 'r', 'i', 't', 'y'],
        "domain"@ =~= seq!['d', 'o', 'm', 'a', 'i', 'n'],
        "ip"@ =~= seq!['i', 'p'],
        "dns_sec"@ =~= seq!['d', 'n', 's', '_', 's', 'e', 'c'],
{
    reveal_strlit("region");
    reveal_strlit("plan");
    reveal_strlit("os_id");
    reveal_strlit("iso_id");
    reveal_strlit("snapshot_id");
    reveal_strlit("app_id");
    reveal_strlit("enable_ipv6");
    reveal_strlit("label");
    reveal_strlit("sshkey_id");
    reveal_strlit("backups");
    reveal_strlit("ddos_protection");
    reveal_strlit("activation_email");
    reveal_strlit("hostname");
    reveal_strlit("tag");
    reveal_strlit("type");
    reveal_strlit("name");
    reveal_strlit("data");
    reveal_strlit("ttl");
    reveal_strlit("priority");
    reveal_strlit("domain");
    reveal_strlit("ip");
    reveal_strlit("dns_sec");
}

/// Every address that the client builds lies under the provider's root,
/// which is reached over HTTPS.
pub proof fn lemma_addresses_lie_under_the_root(
    resource: Seq<char>,
    id: Seq<char>,
    part: Seq<char>,
    part_id: Seq<char>,
)
    ensures
        "https://"@.is_prefix_of(api_root()),
        api_root().is_prefix_of(collection_url(resource)),
        api_root().is_prefix_of(item_url(resource, id)),
        api_root().is_prefix_of(part_url(resource, id, part)),
        api_root().is_prefix_of(part_item_url(resource, id, part, part_id)),
{
    reveal_strlit("https://");
    reveal_strlit("https://api.vultr.com/v2");
}

/// A response in the 4xx class whose body carries the message `msg` fails
/// with exactly that message, whatever kind of request it answers and
/// whatever else its body held.
pub proof fn lemma_client_error_carries_message<E: Envelope>(
    status: u16,
    msg: String,
    envelope: Option<E>,
)
    requires
        client_error_status(status),
    ensures
        outcome(status, Some(msg), envelope) == Err::<E::Payload, VultrError>(
            VultrError::Api { msg },
        ),
{
}

/// A response in the 2xx class yields the payload of its envelope as it
/// was decoded, and for each envelope of a single resource the payload is
/// the resource that the envelope holds.
pub proof fn lemma_success_returns_payload<E: Envelope>(
    status: u16,
    message: Option<String>,
    root: E,
)
    requires
        success_status(status),
    ensures
        outcome(status, message, Some(root)) == Ok::<E::Payload, VultrError>(root.payload()),
{
}

/// The payload of an envelope of a single resource is that resource, with
/// every field as it was.
pub proof fn lemma_single_payload_untouched(
    account: VultrAccount,
    domain: VultrDomain,
    record: VultrDomainRecord,
    ssh_key: VultrSSHKey,
    instance: VultrInstance,
)
    ensures
        (VultrAccountRoot { account }).payload() == account,
        (VultrDomainRoot { domain }).payload() == domain,
        (VultrDomainRecordRoot { record }).payload() == record,
        (VultrSSHKeyRoot { ssh_key }).payload() == ssh_key,
        (VultrInstanceRoot { instance }).payload() == instance,
{
}

/// The body that creates an instance names exactly one image source: the
/// field that the source selects is present with the source's id, and the
/// other three are absent.
pub proof fn lemma_exactly_one_image_source(
    region: Seq<char>,
    plan: Seq<char>,
    source: VultrInstanceType,
    enable_ipv6: bool,
    label: Seq<char>,
    sshkey_id: Seq<char>,
    backups: bool,
    ddos_protection: bool,
    activation_email: bool,
    hostname: Seq<char>,
    tag: Seq<char>,
)
    ensures
        ({
            let body = instance_body(
                region,
                plan,
                source,
                enable_ipv6,
                label,
                sshkey_id,
                backups,
                ddos_protection,
                activation_email,
                hostname,
                tag,
            );
            &&& body.dom().contains("os_id"@) <==> source is OS
            &&& body.dom().contains("iso_id"@) <==> source is ISO
            &&& body.dom().contains("snapshot_id"@) <==> source is Snapshot
            &&& body.dom().contains("app_id"@) <==> source is App
            &&& body.dom().contains(source.field_name())
            &&& body[source.field_name()] == source.field_text()
        }),
{
    reveal_field_names();
}

/// The time-to-live and the priority are in the body of a new record
/// exactly when they are given, and then as their decimal numerals, which
/// are never empty.
pub proof fn lemma_optional_fields_only_when_given(
    record_type: Seq<char>,
    name: Seq<char>,
    data: Seq<char>,
    ttl: Option<u32>,
    priority: Option<u32>,
)
    ensures
        ({
            let body = record_body(
                record_type,
                name,
                data,
                optional_decimal(ttl),
                optional_decimal(priority),
            );
            &&& body.dom().contains("ttl"@) <==> ttl is Some
            &&& body.dom().contains("priority"@) <==> priority is Some
            &&& ttl matches Some(n) ==> body["ttl"@] == decimal(n as nat) && body["ttl"@].len() > 0
            &&& priority matches Some(n) ==> body["priority"@] == decimal(n as nat)
                && body["priority"@].len() > 0
            &&& body["type"@] == record_type
            &&& body["name"@] == name
            &&& body["data"@] == data
        }),
{
    reveal_field_names();
    if let Some(n) = ttl {
        lemma_decimal_nonempty(n as nat);
    }
    if let Some(n) = priority {
        lemma_decimal_nonempty(n as nat);
    }
}

/// The seed address is in the body of a new domain exactly when it is
/// given.
pub proof fn lemma_seed_address_only_when_given(
    domain: Seq<char>,
    ip: Option<Seq<char>>,
    dns_sec: bool,
)
    ensures
        domain_body(domain, ip, dns_sec).dom().contains("ip"@) <==> ip is Some,
        ip matches Some(address) ==> domain_body(domain, ip, dns_sec)["ip"@] == address,
        domain_body(domain, ip, dns_sec)["domain"@] == domain,
{
    reveal_field_names();
}

/// Every flag of a new instance is in the body as the word `true` or the
/// word `false`.
pub proof fn lemma_flags_are_words(
    region: Seq<char>,
    plan: Seq<char>,
    source: VultrInstanceType,
    enable_ipv6: bool,
    label: Seq<char>,
    sshkey_id: Seq<char>,
    backups: bool,
    ddos_protection: bool,
    activation_email: bool,
    hostname: Seq<char>,
    tag: Seq<char>,
)
    ensures
        ({
            let body = instance_body(
                region,
                plan,
                source,
                enable_ipv6,
                label,
                sshkey_id,
                backups,
                ddos_protection,
                activation_email,
                hostname,
                tag,
            );
            &&& body["enable_ipv6"@] == flag_text(enable_ipv6)
            &&& body["backups"@] == flag_text(backups)
            &&& body["ddos_protection"@] == flag_text(ddos_protection)
            &&& body["activation_email"@] == flag_text(activation_email)
        }),
        flag_text(true) == seq!['t', 'r', 'u', 'e'],
        flag_text(false) == seq!['f', 'a', 'l', 's', 'e'],
{
    reveal_field_names();
    reveal_strlit("true");
    reveal_strlit("false");
    assert("true"@ =~= seq!['t', 'r', 'u', 'e']);
    assert("false"@ =~= seq!['f', 'a', 'l', 's', 'e']);
}

} // verus!
