//! Typed request and response handling for the Vultr v2 management API.
//!
//! The client turns a typed call into the description of an authenticated
//! request, and turns the status and decoded body of the response into a
//! resource or into one error. Sending is left to the caller's transport.

pub mod api;
pub mod body;
pub mod call;
pub mod envelope;
pub mod laws;
pub mod model;
pub mod reply;
pub mod request;
pub mod status;
pub mod text;

pub use api::VultrApi;
pub use body::VultrBody;
pub use call::VultrCall;
pub use envelope::Envelope;
pub use envelope::VultrAccountRoot;
pub use envelope::VultrDomainRecordRoot;
pub use envelope::VultrDomainRecordsRoot;
pub use envelope::VultrDomainRoot;
pub use envelope::VultrDomainsRoot;
pub use envelope::VultrInstanceRoot;
pub use envelope::VultrInstancesRoot;
pub use envelope::VultrNoContent;
pub use envelope::VultrOSRoot;
pub use envelope::VultrPlansRoot;
pub use envelope::VultrRegionsRoot;
pub use envelope::VultrSSHKeyRoot;
pub use envelope::VultrSSHKeysRoot;
pub use model::VultrAccount;
pub use model::VultrDomain;
pub use model::VultrDomainRecord;
pub use model::VultrInstance;
pub use model::VultrInstanceType;
pub use model::VultrNumber;
pub use model::VultrOS;
pub use model::VultrPlan;
pub use model::VultrRegion;
pub use model::VultrSSHKey;
pub use reply::VultrError;
pub use request::VultrMethod;
pub use request::VultrRequest;
pub use status::classify;
pub use status::StatusClass;
