use vultr::VultrApi;
use vultr::VultrBody;
use vultr::VultrDomainRoot;
use vultr::VultrInstanceType;
use vultr::VultrMethod;
use vultr::VultrRequest;

fn api() -> VultrApi {
    VultrApi::new("secret-token")
}

fn field(req: &VultrRequest, name: &str) -> Option<String> {
    req.body.as_ref().expect("a body").get(name)
}

fn field_count(req: &VultrRequest) -> usize {
    req.body.as_ref().expect("a body").len()
}

fn assert_bare(req: &VultrRequest, method: VultrMethod, url: &str) {
    assert_eq!(req.method, method);
    assert_eq!(req.url, url);
    assert_eq!(req.token, "secret-token");
    assert!(req.body.is_none());
}

#[test]
fn primitives_attach_the_token() {
    let api = VultrApi::new("abc");
    let get = api.get::<VultrDomainRoot>(String::from("https://api.vultr.com/v2/x")).request;
    assert_eq!(get.method, VultrMethod::Get);
    assert_eq!(get.url, "https://api.vultr.com/v2/x");
    assert_eq!(get.token, "abc");
    assert!(get.body.is_none());

    let delete = api.delete::<VultrDomainRoot>(String::from("https://api.vultr.com/v2/y")).request;
    assert_eq!(delete.method, VultrMethod::Delete);
    assert_eq!(delete.url, "https://api.vultr.com/v2/y");
    assert_eq!(delete.token, "abc");
    assert!(delete.body.is_none());

    let mut body = VultrBody::new();
    body.insert("k", String::from("v"));
    let post = api.post::<VultrDomainRoot>(String::from("https://api.vultr.com/v2/z"), body).request;
    assert_eq!(post.method, VultrMethod::Post);
    assert_eq!(post.url, "https://api.vultr.com/v2/z");
    assert_eq!(post.token, "abc");
    assert_eq!(field(&post, "k"), Some(String::from("v")));
    assert_eq!(field_count(&post), 1);
}

#[test]
fn account_request() {
    assert_bare(&api().get_account_info().request, VultrMethod::Get, "https://api.vultr.com/v2/account");
}

#[test]
fn domain_list_request() {
    assert_bare(&api().get_dns_domain_list().request, VultrMethod::Get, "https://api.vultr.com/v2/domains");
}

#[test]
fn domain_get_request() {
    assert_bare(
        &api().get_dns_domain("example.com").request,
        VultrMethod::Get,
        "https://api.vultr.com/v2/domains/example.com",
    );
}

#[test]
fn domain_delete_request() {
    assert_bare(
        &api().delete_dns_domain("example.com").request,
        VultrMethod::Delete,
        "https://api.vultr.com/v2/domains/example.com",
    );
}

#[test]
fn domain_create_without_seed_address() {
    let req = api().create_dns_domain("example.com", None, false).request;
    assert_eq!(req.method, VultrMethod::Post);
    assert_eq!(req.url, "https://api.vultr.com/v2/domains");
    assert_eq!(req.token, "secret-token");
    assert_eq!(field(&req, "domain"), Some(String::from("example.com")));
    assert_eq!(field(&req, "dns_sec"), Some(String::from("disabled")));
    assert_eq!(field(&req, "ip"), None);
    assert_eq!(field_count(&req), 2);
}

#[test]
fn domain_create_with_seed_address() {
    let req = api().create_dns_domain("example.com", Some(String::from("10.0.0.1")), true).request;
    assert_eq!(field(&req, "domain"), Some(String::from("example.com")));
    assert_eq!(field(&req, "dns_sec"), Some(String::from("enabled")));
    assert_eq!(field(&req, "ip"), Some(String::from("10.0.0.1")));
    assert_eq!(field_count(&req), 3);
}

#[test]
fn record_create_without_optional_fields() {
    let req = api().create_dns_domain_record("example.com", "A", "www", "10.0.0.8", None, None).request;
    assert_eq!(req.method, VultrMethod::Post);
    assert_eq!(req.url, "https://api.vultr.com/v2/domains/example.com/records");
    assert_eq!(field(&req, "type"), Some(String::from("A")));
    assert_eq!(field(&req, "name"), Some(String::from("www")));
    assert_eq!(field(&req, "data"), Some(String::from("10.0.0.8")));
    assert_eq!(field(&req, "ttl"), None);
    assert_eq!(field(&req, "priority"), None);
    assert!(!req.body.as_ref().unwrap().contains("ttl"));
    assert!(!req.body.as_ref().unwrap().contains("priority"));
    assert_eq!(field_count(&req), 3);
}

#[test]
fn record_create_with_ttl_only() {
    let req = api().create_dns_domain_record("example.com", "MX", "@", "mail", Some(300), None).request;
    assert_eq!(field(&req, "ttl"), Some(String::from("300")));
    assert_eq!(field(&req, "priority"), None);
    assert_eq!(field_count(&req), 4);
}

#[test]
fn record_create_with_priority_only() {
    let req = api().create_dns_domain_record("example.com", "MX", "@", "mail", None, Some(10)).request;
    assert_eq!(field(&req, "ttl"), None);
    assert_eq!(field(&req, "priority"), Some(String::from("10")));
    assert_eq!(field_count(&req), 4);
}

#[test]
fn record_create_with_both_optional_fields() {
    let req =
        api().create_dns_domain_record("example.com", "MX", "@", "mail", Some(0), Some(4294967295)).request;
    assert_eq!(field(&req, "ttl"), Some(String::from("0")));
    assert_eq!(field(&req, "priority"), Some(String::from("4294967295")));
    assert_eq!(field_count(&req), 5);
}

#[test]
fn record_list_request() {
    assert_bare(
        &api().get_dns_domain_records("example.com").request,
        VultrMethod::Get,
        "https://api.vultr.com/v2/domains/example.com/records",
    );
}

#[test]
fn record_delete_request() {
    assert_bare(
        &api().delete_dns_domain_record("example.com", "cb676a46").request,
        VultrMethod::Delete,
        "https://api.vultr.com/v2/domains/example.com/records/cb676a46",
    );
}

#[test]
fn catalog_requests() {
    assert_bare(&api().get_plans().request, VultrMethod::Get, "https://api.vultr.com/v2/plans");
    assert_bare(&api().get_regions().request, VultrMethod::Get, "https://api.vultr.com/v2/regions");
    assert_bare(&api().get_os_list().request, VultrMethod::Get, "https://api.vultr.com/v2/os");
}

#[test]
fn sshkey_requests() {
    assert_bare(&api().get_sshkey_list().request, VultrMethod::Get, "https://api.vultr.com/v2/ssh-keys");
    assert_bare(
        &api().get_sshkey("3b8066a7").request,
        VultrMethod::Get,
        "https://api.vultr.com/v2/ssh-keys/3b8066a7",
    );
    assert_bare(
        &api().delete_sshkey("3b8066a7").request,
        VultrMethod::Delete,
        "https://api.vultr.com/v2/ssh-keys/3b8066a7",
    );
}

#[test]
fn sshkey_create_request() {
    let req = api().create_sshkey("test", "ssh-rsa AAAA").request;
    assert_eq!(req.method, VultrMethod::Post);
    assert_eq!(req.url, "https://api.vultr.com/v2/ssh-keys");
    assert_eq!(req.token, "secret-token");
    assert_eq!(field(&req, "name"), Some(String::from("test")));
    assert_eq!(field(&req, "ssh_key"), Some(String::from("ssh-rsa AAAA")));
    assert_eq!(field_count(&req), 2);
}

#[test]
fn instance_requests() {
    assert_bare(&api().get_instance_list().request, VultrMethod::Get, "https://api.vultr.com/v2/instances");
    assert_bare(
        &api().get_instance("4f0f12e5").request,
        VultrMethod::Get,
        "https://api.vultr.com/v2/instances/4f0f12e5",
    );
    assert_bare(
        &api().delete_instance("4f0f12e5").request,
        VultrMethod::Delete,
        "https://api.vultr.com/v2/instances/4f0f12e5",
    );
}

fn create_with(source: VultrInstanceType) -> VultrRequest {
    api().create_instance(
        "ewr",
        "vc2-1c-1gb",
        source,
        true,
        "mylabel",
        "key-1",
        false,
        false,
        true,
        "myhostname",
        "mytag",
    )
    .request
}

fn source_fields_present(req: &VultrRequest) -> Vec<&'static str> {
    let mut present = Vec::new();
    for name in ["os_id", "iso_id", "snapshot_id", "app_id"] {
        if req.body.as_ref().unwrap().contains(name) {
            present.push(name);
        }
    }
    present
}

#[test]
fn instance_create_from_os() {
    let req = create_with(VultrInstanceType::OS(387));
    assert_eq!(req.method, VultrMethod::Post);
    assert_eq!(req.url, "https://api.vultr.com/v2/instances");
    assert_eq!(req.token, "secret-token");
    assert_eq!(field(&req, "region"), Some(String::from("ewr")));
    assert_eq!(field(&req, "plan"), Some(String::from("vc2-1c-1gb")));
    assert_eq!(field(&req, "os_id"), Some(String::from("387")));
    assert_eq!(field(&req, "label"), Some(String::from("mylabel")));
    assert_eq!(field(&req, "sshkey_id"), Some(String::from("key-1")));
    assert_eq!(field(&req, "hostname"), Some(String::from("myhostname")));
    assert_eq!(field(&req, "tag"), Some(String::from("mytag")));
    assert_eq!(source_fields_present(&req), vec!["os_id"]);
    assert_eq!(field_count(&req), 11);
}

#[test]
fn instance_create_from_iso() {
    let req = create_with(VultrInstanceType::ISO(String::from("iso-7")));
    assert_eq!(field(&req, "iso_id"), Some(String::from("iso-7")));
    assert_eq!(source_fields_present(&req), vec!["iso_id"]);
    assert_eq!(field_count(&req), 11);
}

#[test]
fn instance_create_from_snapshot() {
    let req = create_with(VultrInstanceType::Snapshot(String::from("snap-9")));
    assert_eq!(field(&req, "snapshot_id"), Some(String::from("snap-9")));
    assert_eq!(source_fields_present(&req), vec!["snapshot_id"]);
    assert_eq!(field_count(&req), 11);
}

#[test]
fn instance_create_from_app() {
    let req = create_with(VultrInstanceType::App(String::from("app-3")));
    assert_eq!(field(&req, "app_id"), Some(String::from("app-3")));
    assert_eq!(source_fields_present(&req), vec!["app_id"]);
    assert_eq!(field_count(&req), 11);
}

#[test]
fn instance_flags_are_words() {
    let req = create_with(VultrInstanceType::OS(1));
    assert_eq!(field(&req, "enable_ipv6"), Some(String::from("true")));
    assert_eq!(field(&req, "backups"), Some(String::from("false")));
    assert_eq!(field(&req, "ddos_protection"), Some(String::from("false")));
    assert_eq!(field(&req, "activation_email"), Some(String::from("true")));

    let req = api().create_instance(
        "ewr",
        "p",
        VultrInstanceType::OS(1),
        false,
        "l",
        "k",
        true,
        true,
        false,
        "h",
        "t",
    ).request;
    assert_eq!(field(&req, "enable_ipv6"), Some(String::from("false")));
    assert_eq!(field(&req, "backups"), Some(String::from("true")));
    assert_eq!(field(&req, "ddos_protection"), Some(String::from("true")));
    assert_eq!(field(&req, "activation_email"), Some(String::from("false")));
}

#[test]
fn captured_body_holds_every_field_once() {
    let req = create_with(VultrInstanceType::OS(387));
    let mut entries = req.body.as_ref().unwrap().entries();
    entries.sort();
    let expected: Vec<(String, String)> = [
        ("activation_email", "true"),
        ("backups", "false"),
        ("ddos_protection", "false"),
        ("enable_ipv6", "true"),
        ("hostname", "myhostname"),
        ("label", "mylabel"),
        ("os_id", "387"),
        ("plan", "vc2-1c-1gb"),
        ("region", "ewr"),
        ("sshkey_id", "key-1"),
        ("tag", "mytag"),
    ]
    .iter()
    .map(|(k, v)| (String::from(*k), String::from(*v)))
    .collect();
    assert_eq!(entries, expected);
}
