//! The wrappers in which the provider sends its answers.
//!
//! Every answer is an object with a single field that holds the payload:
//! one resource under a singular name, or a list under a plural one.

use vstd::prelude::*;
use crate::model::VultrAccount;
use crate::model::VultrDomain;
use crate::model::VultrDomainRecord;
use crate::model::VultrInstance;
use crate::model::VultrOS;
use crate::model::VultrPlan;
use crate::model::VultrRegion;
use crate::model::VultrSSHKey;

verus! {

/// An answer that wraps one payload.
pub trait Envelope: Sized {
    /// What the envelope holds.
    type Payload;

    /// The payload, untouched.
    spec fn payload(&self) -> Self::Payload;

    /// Opens the envelope.
    fn into_payload(self) -> (inner: Self::Payload)
        ensures
            inner == self.payload(),
    ;
}

/// The answer to a request that asks for nothing back: whatever the body
/// holds, there is no payload.
#[derive(Clone, Copy, Debug, PartialEq, Eq)]
pub struct VultrNoContent;

/// `{"account": ..}`
#[derive(Clone, Debug, PartialEq, Eq)]
pub struct VultrAccountRoot {
    pub account: VultrAccount,
}

/// `{"domains": [..]}`
#[derive(Clone, Debug, PartialEq, Eq)]
pub struct VultrDomainsRoot {
    pub domains: Vec<VultrDomain>,
}

/// `{"domain": ..}`
#[derive(Clone, Debug, PartialEq, Eq)]
pub struct VultrDomainRoot {
    pub domain: VultrDomain,
}

/// `{"records": [..]}`
#[derive(Clone, Debug, PartialEq, Eq)]
pub struct VultrDomainRecordsRoot {
    pub records: Vec<VultrDomainRecord>,
}

/// `{"record": ..}`
#[derive(Clone, Debug, PartialEq, Eq)]
pub struct VultrDomainRecordRoot {
    pub record: VultrDomainRecord,
}

/// `{"regions": [..]}`
#[derive(Clone, Debug, PartialEq, Eq)]
pub struct VultrRegionsRoot {
    pub regions: Vec<VultrRegion>,
}

/// `{"plans": [..]}`
#[derive(Clone, Debug, PartialEq, Eq)]
pub struct VultrPlansRoot {
    pub plans: Vec<VultrPlan>,
}

/// `{"os": [..]}`
#[derive(Clone, Debug, PartialEq, Eq)]
pub struct VultrOSRoot {
    pub os: Vec<VultrOS>,
}

/// `{"ssh_key": ..}`
#[derive(Clone, Debug, PartialEq, Eq)]
pub struct VultrSSHKeyRoot {
    pub ssh_key: VultrSSHKey,
}

/// `{"ssh_keys": [..]}`
#[derive(Clone, Debug, PartialEq, Eq)]
pub struct VultrSSHKeysRoot {
    pub ssh_keys: Vec<VultrSSHKey>,
}

/// `{"instance": ..}`
#[derive(Clone, Debug, PartialEq, Eq)]
pub struct VultrInstanceRoot {
    pub instance: VultrInstance,
}

/// `{"instances": [..]}`
#[derive(Clone, Debug, PartialEq, Eq)]
pub struct VultrInstancesRoot {
    pub instances: Vec<VultrInstance>,
}

impl Envelope for VultrNoContent {
    type Payload = ();

    open spec fn payload(&self) -> () {
        ()
    }

    fn into_payload(self) -> (inner: ()) {
        ()
    }
}

impl Envelope for VultrAccountRoot {
    type Payload = VultrAccount;

    open spec fn payload(&self) -> VultrAccount {
        self.account
    }

    fn into_payload(self) -> (inner: VultrAccount) {
        self.account
    }
}

impl Envelope for VultrDomainsRoot {
    type Payload = Vec<VultrDomain>;

    open spec fn payload(&self) -> Vec<VultrDomain> {
        self.domains
    }

    fn into_payload(self) -> (inner: Vec<VultrDomain>) {
        self.domains
    }
}

impl Envelope for VultrDomainRoot {
    type Payload = VultrDomain;

    open spec fn payload(&self) -> VultrDomain {
        self.domain
    }

    fn into_payload(self) -> (inner: VultrDomain) {
        self.domain
    }
}

impl Envelope for VultrDomainRecordsRoot {
    type Payload = Vec<VultrDomainRecord>;

    open spec fn payload(&self) -> Vec<VultrDomainRecord> {
        self.records
    }

    fn into_payload(self) -> (inner: Vec<VultrDomainRecord>) {
        self.records
    }
}

impl Envelope for VultrDomainRecordRoot {
    type Payload = VultrDomainRecord;

    open spec fn payload(&self) -> VultrDomainRecord {
        self.record
    }

    fn into_payload(self) -> (inner: VultrDomainRecord) {
        self.record
    }
}

impl Envelope for VultrRegionsRoot {
    type Payload = Vec<VultrRegion>;

    open spec fn payload(&self) -> Vec<VultrRegion> {
        self.regions
    }

    fn into_payload(self) -> (inner: Vec<VultrRegion>) {
        self.regions
    }
}

impl Envelope for VultrPlansRoot {
    type Payload = Vec<VultrPlan>;

    open spec fn payload(&self) -> Vec<VultrPlan> {
        self.plans
    }

    fn into_payload(self) -> (inner: Vec<VultrPlan>) {
        self.plans
    }
}

impl Envelope for VultrOSRoot {
    type Payload = Vec<VultrOS>;

    open spec fn payload(&self) -> Vec<VultrOS> {
        self.os
    }

    fn into_payload(self) -> (inner: Vec<VultrOS>) {
        self.os
    }
}

impl Envelope for VultrSSHKeyRoot {
    type Payload = VultrSSHKey;

    open spec fn payload(&self) -> VultrSSHKey {
        self.ssh_key
    }

    fn into_payload(self) -> (inner: VultrSSHKey) {
        self.ssh_key
    }
}

impl Envelope for VultrSSHKeysRoot {
    type Payload = Vec<VultrSSHKey>;

    open spec fn payload(&self) -> Vec<VultrSSHKey> {
        self.ssh_keys
    }

    fn into_payload(self) -> (inner: Vec<VultrSSHKey>) {
        self.ssh_keys
    }
}

impl Envelope for VultrInstanceRoot {
    type Payload = VultrInstance;

    open spec fn payload(&self) -> VultrInstance {
        self.instance
    }

    fn into_payload(self) -> (inner: VultrInstance) {
        self.instance
    }
}

impl Envelope for VultrInstancesRoot {
    type Payload = Vec<VultrInstance>;

    open spec fn payload(&self) -> Vec<VultrInstance> {
        self.instances
    }

    fn into_payload(self) -> (inner: Vec<VultrInstance>) {
        self.instances
    }
}

} // verus!
