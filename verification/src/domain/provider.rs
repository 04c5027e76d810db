//! Providers.
use vstd::prelude::*;
use crate::domain::copied;
use crate::domain::page::Page;
use crate::text::same_text;
use crate::time::UtcTime;
use crate::uuid::Uuid;

verus! {

/// The life cycle of a provider.
#[derive(Clone, Copy, Debug, PartialEq, Eq, Structural)]
pub enum ProviderStatus {
    PendingProvisioning,
    Ready,
    Active,
    Suspended,
    Inactive,
    Failed,
}

impl ProviderStatus {
    /// The value that stands for it in the database.
    pub open spec fn code(self) -> &'static str {
        match self {
            ProviderStatus::PendingProvisioning => "PENDING_PROVISIONING",
            ProviderStatus::Ready => "READY",
            ProviderStatus::Active => "ACTIVE",
            ProviderStatus::Suspended => "SUSPENDED",
            ProviderStatus::Inactive => "INACTIVE",
            ProviderStatus::Failed => "FAILED",
        }
    }

    /// The value that stands for it in the database.
    pub fn as_db_value(self) -> (r: &'static str)
        ensures
            r == self.code(),
    {
        match self {
            ProviderStatus::PendingProvisioning => "PENDING_PROVISIONING",
            ProviderStatus::Ready => "READY",
            ProviderStatus::Active => "ACTIVE",
            ProviderStatus::Suspended => "SUSPENDED",
            ProviderStatus::Inactive => "INACTIVE",
            ProviderStatus::Failed => "FAILED",
        }
    }

    /// What a database value stands for, where it is one of those in use.
    pub open spec fn of_code(value: Seq<char>) -> Option<ProviderStatus> {
        if value == "PENDING_PROVISIONING"@ {
            Some(ProviderStatus::PendingProvisioning)
        } else if value == "READY"@ {
            Some(ProviderStatus::Ready)
        } else if value == "ACTIVE"@ {
            Some(ProviderStatus::Active)
        } else if value == "SUSPENDED"@ {
            Some(ProviderStatus::Suspended)
        } else if value == "INACTIVE"@ {
            Some(ProviderStatus::Inactive)
        } else if value == "FAILED"@ {
            Some(ProviderStatus::Failed)
        } else {
            None
        }
    }

    /// What a database value stands for, where it is one of those in use.
    pub fn from_db_value(value: &str) -> (r: Option<ProviderStatus>)
        ensures
            r == ProviderStatus::of_code(value@),
    {
        if same_text(value, "PENDING_PROVISIONING") {
            Some(ProviderStatus::PendingProvisioning)
        } else if same_text(value, "READY") {
            Some(ProviderStatus::Ready)
        } else if same_text(value, "ACTIVE") {
            Some(ProviderStatus::Active)
        } else if same_text(value, "SUSPENDED") {
            Some(ProviderStatus::Suspended)
        } else if same_text(value, "INACTIVE") {
            Some(ProviderStatus::Inactive)
        } else if same_text(value, "FAILED") {
            Some(ProviderStatus::Failed)
        } else {
            None
        }
    }
}

/// A database value that stands for a ProviderStatus is the one value that stands for it.
pub proof fn provider_status_has_one_code(value: Seq<char>)
    ensures
        ProviderStatus::of_code(value) == Some(
            ProviderStatus::PendingProvisioning,
        ) <==> value == "PENDING_PROVISIONING"@,
        ProviderStatus::of_code(value) == Some(ProviderStatus::Ready) <==> value == "READY"@,
        ProviderStatus::of_code(value) == Some(ProviderStatus::Active) <==> value == "ACTIVE"@,
        ProviderStatus::of_code(value) == Some(
            ProviderStatus::Suspended,
        ) <==> value == "SUSPENDED"@,
        ProviderStatus::of_code(value) == Some(ProviderStatus::Inactive) <==> value == "INACTIVE"@,
        ProviderStatus::of_code(value) == Some(ProviderStatus::Failed) <==> value == "FAILED"@,
{
    reveal_strlit("PENDING_PROVISIONING");
    reveal_strlit("READY");
    reveal_strlit("ACTIVE");
    reveal_strlit("SUSPENDED");
    reveal_strlit("INACTIVE");
    reveal_strlit("FAILED");
    assert("PENDING_PROVISIONING"@.len() == 20);
    assert("READY"@.len() == 5);
    assert("ACTIVE"@.len() == 6);
    assert("SUSPENDED"@.len() == 9);
    assert("INACTIVE"@.len() == 8);
    assert("FAILED"@.len() == 6);
    assert("ACTIVE"@[0] != "FAILED"@[0]);
}

/// Reading the value that stands for a ProviderStatus gives the ProviderStatus back.
pub proof fn provider_status_code_round_trip(x: ProviderStatus)
    ensures
        ProviderStatus::of_code(x.code()@) == Some(x),
{
    reveal_strlit("PENDING_PROVISIONING");
    reveal_strlit("READY");
    reveal_strlit("ACTIVE");
    reveal_strlit("SUSPENDED");
    reveal_strlit("INACTIVE");
    reveal_strlit("FAILED");
    assert("PENDING_PROVISIONING"@.len() == 20);
    assert("READY"@.len() == 5);
    assert("ACTIVE"@.len() == 6);
    assert("SUSPENDED"@.len() == 9);
    assert("INACTIVE"@.len() == 8);
    assert("FAILED"@.len() == 6);
    assert("ACTIVE"@[0] != "FAILED"@[0]);
}

/// The life cycle of an operational profile.
#[derive(Clone, Copy, Debug, PartialEq, Eq, Structural)]
pub enum ProviderOperationalProfileStatus {
    Scheduled,
    Active,
    Superseded,
    Cancelled,
}

impl ProviderOperationalProfileStatus {
    /// The value that stands for it in the database.
    pub open spec fn code(self) -> &'static str {
        match self {
            ProviderOperationalProfileStatus::Scheduled => "SCHEDULED",
            ProviderOperationalProfileStatus::Active => "ACTIVE",
            ProviderOperationalProfileStatus::Superseded => "SUPERSEDED",
            ProviderOperationalProfileStatus::Cancelled => "CANCELLED",
        }
    }

    /// The value that stands for it in the database.
    pub fn as_db_value(self) -> (r: &'static str)
        ensures
            r == self.code(),
    {
        match self {
            ProviderOperationalProfileStatus::Scheduled => "SCHEDULED",
            ProviderOperationalProfileStatus::Active => "ACTIVE",
            ProviderOperationalProfileStatus::Superseded => "SUPERSEDED",
            ProviderOperationalProfileStatus::Cancelled => "CANCELLED",
        }
    }

    /// What a database value stands for, where it is one of those in use.
    pub open spec fn of_code(value: Seq<char>) -> Option<ProviderOperationalProfileStatus> {
        if value == "SCHEDULED"@ {
            Some(ProviderOperationalProfileStatus::Scheduled)
        } else if value == "ACTIVE"@ {
            Some(ProviderOperationalProfileStatus::Active)
        } else if value == "SUPERSEDED"@ {
            Some(ProviderOperationalProfileStatus::Superseded)
        } else if value == "CANCELLED"@ {
            Some(ProviderOperationalProfileStatus::Cancelled)
        } else {
            None
        }
    }

    /// What a database value stands for, where it is one of those in use.
    pub fn from_db_value(value: &str) -> (r: Option<ProviderOperationalProfileStatus>)
        ensures
            r == ProviderOperationalProfileStatus::of_code(value@),
    {
        if same_text(value, "SCHEDULED") {
            Some(ProviderOperationalProfileStatus::Scheduled)
        } else if same_text(value, "ACTIVE") {
            Some(ProviderOperationalProfileStatus::Active)
        } else if same_text(value, "SUPERSEDED") {
            Some(ProviderOperationalProfileStatus::Superseded)
        } else if same_text(value, "CANCELLED") {
            Some(ProviderOperationalProfileStatus::Cancelled)
        } else {
            None
        }
    }
}

/// A database value that stands for a ProviderOperationalProfileStatus is the one value that stands
/// for it.
pub proof fn provider_operational_profile_status_has_one_code(value: Seq<char>)
    ensures
        ProviderOperationalProfileStatus::of_code(value) == Some(
            ProviderOperationalProfileStatus::Scheduled,
        ) <==> value == "SCHEDULED"@,
        ProviderOperationalProfileStatus::of_code(value) == Some(
            ProviderOperationalProfileStatus::Active,
        ) <==> value == "ACTIVE"@,
        ProviderOperationalProfileStatus::of_code(value) == Some(
            ProviderOperationalProfileStatus::Superseded,
        ) <==> value == "SUPERSEDED"@,
        ProviderOperationalProfileStatus::of_code(value) == Some(
            ProviderOperationalProfileStatus::Cancelled,
        ) <==> value == "CANCELLED"@,
{
    reveal_strlit("SCHEDULED");
    reveal_strlit("ACTIVE");
    reveal_strlit("SUPERSEDED");
    reveal_strlit("CANCELLED");
    assert("SCHEDULED"@.len() == 9);
    assert("ACTIVE"@.len() == 6);
    assert("SUPERSEDED"@.len() == 10);
    assert("CANCELLED"@.len() == 9);
    assert("SCHEDULED"@[0] != "CANCELLED"@[0]);
}

/// Reading the value that stands for a ProviderOperationalProfileStatus gives the
/// ProviderOperationalProfileStatus back.
pub proof fn provider_operational_profile_status_code_round_trip(
    x: ProviderOperationalProfileStatus,
)
    ensures
        ProviderOperationalProfileStatus::of_code(x.code()@) == Some(x),
{
    reveal_strlit("SCHEDULED");
    reveal_strlit("ACTIVE");
    reveal_strlit("SUPERSEDED");
    reveal_strlit("CANCELLED");
    assert("SCHEDULED"@.len() == 9);
    assert("ACTIVE"@.len() == 6);
    assert("SUPERSEDED"@.len() == 10);
    assert("CANCELLED"@.len() == 9);
    assert("SCHEDULED"@[0] != "CANCELLED"@[0]);
}

/// What a ledger account of a provider is for.
#[derive(Clone, Copy, Debug, PartialEq, Eq, Structural)]
pub enum ProviderAccountCategory {
    ProviderOwned,
    ProviderFee,
    CmsSettlement,
    PlatformFee,
}

impl ProviderAccountCategory {
    /// The value that stands for it in the database.
    pub open spec fn code(self) -> &'static str {
        match self {
            ProviderAccountCategory::ProviderOwned => "PROVIDER_OWNED",
            ProviderAccountCategory::ProviderFee => "PROVIDER_FEE",
            ProviderAccountCategory::CmsSettlement => "CMS_SETTLEMENT",
            ProviderAccountCategory::PlatformFee => "PLATFORM_FEE",
        }
    }

    /// The value that stands for it in the database.
    pub fn as_db_value(self) -> (r: &'static str)
        ensures
            r == self.code(),
    {
        match self {
            ProviderAccountCategory::ProviderOwned => "PROVIDER_OWNED",
            ProviderAccountCategory::ProviderFee => "PROVIDER_FEE",
            ProviderAccountCategory::CmsSettlement => "CMS_SETTLEMENT",
            ProviderAccountCategory::PlatformFee => "PLATFORM_FEE",
        }
    }

    /// What a database value stands for, where it is one of those in use.
    pub open spec fn of_code(value: Seq<char>) -> Option<ProviderAccountCategory> {
        if value == "PROVIDER_OWNED"@ {
            Some(ProviderAccountCategory::ProviderOwned)
        } else if value == "PROVIDER_FEE"@ {
            Some(ProviderAccountCategory::ProviderFee)
        } else if value == "CMS_SETTLEMENT"@ {
            Some(ProviderAccountCategory::CmsSettlement)
        } else if value == "PLATFORM_FEE"@ {
            Some(ProviderAccountCategory::PlatformFee)
        } else {
            None
        }
    }

    /// What a database value stands for, where it is one of those in use.
    pub fn from_db_value(value: &str) -> (r: Option<ProviderAccountCategory>)
        ensures
            r == ProviderAccountCategory::of_code(value@),
    {
        if same_text(value, "PROVIDER_OWNED") {
            Some(ProviderAccountCategory::ProviderOwned)
        } else if same_text(value, "PROVIDER_FEE") {
            Some(ProviderAccountCategory::ProviderFee)
        } else if same_text(value, "CMS_SETTLEMENT") {
            Some(ProviderAccountCategory::CmsSettlement)
        } else if same_text(value, "PLATFORM_FEE") {
            Some(ProviderAccountCategory::PlatformFee)
        } else {
            None
        }
    }
}

/// A database value that stands for a ProviderAccountCategory is the one value that stands for it.
pub proof fn provider_account_category_has_one_code(value: Seq<char>)
    ensures
        ProviderAccountCategory::of_code(value) == Some(
            ProviderAccountCategory::ProviderOwned,
        ) <==> value == "PROVIDER_OWNED"@,
        ProviderAccountCategory::of_code(value) == Some(
            ProviderAccountCategory::ProviderFee,
        ) <==> value == "PROVIDER_FEE"@,
        ProviderAccountCategory::of_code(value) == Some(
            ProviderAccountCategory::CmsSettlement,
        ) <==> value == "CMS_SETTLEMENT"@,
        ProviderAccountCategory::of_code(value) == Some(
            ProviderAccountCategory::PlatformFee,
        ) <==> value == "PLATFORM_FEE"@,
{
    reveal_strlit("PROVIDER_OWNED");
    reveal_strlit("PROVIDER_FEE");
    reveal_strlit("CMS_SETTLEMENT");
    reveal_strlit("PLATFORM_FEE");
    assert("PROVIDER_OWNED"@.len() == 14);
    assert("PROVIDER_FEE"@.len() == 12);
    assert("CMS_SETTLEMENT"@.len() == 14);
    assert("PLATFORM_FEE"@.len() == 12);
    assert("PROVIDER_OWNED"@[0] != "CMS_SETTLEMENT"@[0]);
    assert("PROVIDER_FEE"@[1] != "PLATFORM_FEE"@[1]);
}

/// Reading the value that stands for a ProviderAccountCategory gives the ProviderAccountCategory
/// back.
pub proof fn provider_account_category_code_round_trip(x: ProviderAccountCategory)
    ensures
        ProviderAccountCategory::of_code(x.code()@) == Some(x),
{
    reveal_strlit("PROVIDER_OWNED");
    reveal_strlit("PROVIDER_FEE");
    reveal_strlit("CMS_SETTLEMENT");
    reveal_strlit("PLATFORM_FEE");
    assert("PROVIDER_OWNED"@.len() == 14);
    assert("PROVIDER_FEE"@.len() == 12);
    assert("CMS_SETTLEMENT"@.len() == 14);
    assert("PLATFORM_FEE"@.len() == 12);
    assert("PROVIDER_OWNED"@[0] != "CMS_SETTLEMENT"@[0]);
    assert("PROVIDER_FEE"@[1] != "PLATFORM_FEE"@[1]);
}

/// How far the message broker access of a provider is.
#[derive(Clone, Copy, Debug, PartialEq, Eq, Structural)]
pub enum ProviderKafkaProvisioningStatus {
    Disabled,
    Pending,
    Succeeded,
    Failed,
}

/// A version of the operational controls of a provider. `controls` is a JSON document.
#[derive(Debug)]
pub struct ProviderOperationalProfileRecord {
    pub provider_operational_profile_id: Uuid,
    pub provider_id: Uuid,
    pub status: ProviderOperationalProfileStatus,
    pub version: i64,
    pub effective_at: UtcTime,
    pub controls: String,
    pub superseded_by_profile_id: Option<Uuid>,
    pub created_by_subject: String,
    pub updated_by_subject: String,
    pub change_reason: String,
    pub activated_at: Option<UtcTime>,
    pub superseded_at: Option<UtcTime>,
    pub cancelled_at: Option<UtcTime>,
    pub created_at: UtcTime,
    pub updated_at: UtcTime,
}

impl Clone for ProviderOperationalProfileRecord {
    fn clone(&self) -> (r: Self)
        ensures
            r == *self,
    {
        ProviderOperationalProfileRecord {
            provider_operational_profile_id: self.provider_operational_profile_id,
            provider_id: self.provider_id,
            status: self.status,
            version: self.version,
            effective_at: self.effective_at,
            controls: self.controls.clone(),
            superseded_by_profile_id: self.superseded_by_profile_id,
            created_by_subject: self.created_by_subject.clone(),
            updated_by_subject: self.updated_by_subject.clone(),
            change_reason: self.change_reason.clone(),
            activated_at: self.activated_at,
            superseded_at: self.superseded_at,
            cancelled_at: self.cancelled_at,
            created_at: self.created_at,
            updated_at: self.updated_at,
        }
    }
}

/// The operational controls that a command asks for. `controls` is a JSON document.
#[derive(Debug)]
pub struct DesiredProviderOperationalProfile {
    pub controls: String,
    pub effective_at: UtcTime,
    pub reason: String,
}

/// A provider. `metadata` is a JSON document.
#[derive(Debug)]
pub struct Provider {
    pub provider_id: Uuid,
    pub legal_name: String,
    pub trade_name: String,
    pub tax_id: Option<String>,
    pub registration_number: Option<String>,
    pub email_address: Option<String>,
    pub website_url: Option<String>,
    pub mailing_address: Option<String>,
    pub status: ProviderStatus,
    pub metadata: String,
    pub created_at: UtcTime,
    pub updated_at: UtcTime,
    pub kafka_provisioning_status: ProviderKafkaProvisioningStatus,
}

impl Clone for Provider {
    fn clone(&self) -> (r: Self)
        ensures
            r == *self,
    {
        Provider {
            provider_id: self.provider_id,
            legal_name: self.legal_name.clone(),
            trade_name: self.trade_name.clone(),
            tax_id: copied(&self.tax_id),
            registration_number: copied(&self.registration_number),
            email_address: copied(&self.email_address),
            website_url: copied(&self.website_url),
            mailing_address: copied(&self.mailing_address),
            status: self.status,
            metadata: self.metadata.clone(),
            created_at: self.created_at,
            updated_at: self.updated_at,
            kafka_provisioning_status: self.kafka_provisioning_status,
        }
    }
}

/// A contact of a provider. `contact_type` is a database value and `metadata` a JSON document.
#[derive(Debug)]
pub struct ProviderContact {
    pub provider_contact_id: Uuid,
    pub contact_type: String,
    pub name: Option<String>,
    pub email: Option<String>,
    pub phone: Option<String>,
    pub mobile: Option<String>,
    pub sms_enabled: bool,
    pub metadata: String,
}

impl Clone for ProviderContact {
    fn clone(&self) -> (r: Self)
        ensures
            r == *self,
    {
        ProviderContact {
            provider_contact_id: self.provider_contact_id,
            contact_type: self.contact_type.clone(),
            name: copied(&self.name),
            email: copied(&self.email),
            phone: copied(&self.phone),
            mobile: copied(&self.mobile),
            sms_enabled: self.sms_enabled,
            metadata: self.metadata.clone(),
        }
    }
}

/// The operational controls that a provider begins with. `controls` is a JSON document.
#[derive(Debug)]
pub struct InitialOperationalProfile {
    pub controls: String,
    pub effective_at: UtcTime,
}

/// The message broker access that a provider begins with. `bootstrap_servers` is a JSON list.
#[derive(Debug)]
pub struct NewProviderKafkaAccess {
    pub provider_kafka_access_id: Uuid,
    pub topic_name: String,
    pub username: String,
    pub consumer_group: String,
    pub security_protocol: String,
    pub sasl_mechanism: String,
    pub bootstrap_servers: String,
    pub provider_kafka_credential_id: Uuid,
    pub credential_version: u64,
    pub password_ciphertext: String,
    pub encryption_key_version: String,
}

/// A credential for the message broker.
#[derive(Debug)]
pub struct NewProviderKafkaCredential {
    pub provider_kafka_credential_id: Uuid,
    pub credential_version: u64,
    pub password_ciphertext: String,
    pub encryption_key_version: String,
}

/// A provider that is to be created. `metadata` is a JSON document.
#[derive(Debug)]
pub struct NewProvider {
    pub provider_id: Uuid,
    pub legal_name: String,
    pub trade_name: String,
    pub tax_id: Option<String>,
    pub registration_number: Option<String>,
    pub email_address: Option<String>,
    pub website_url: Option<String>,
    pub mailing_address: Option<String>,
    pub metadata: String,
    pub contacts: Vec<ProviderContact>,
    pub operational_profile: InitialOperationalProfile,
    pub kafka_access: Option<NewProviderKafkaAccess>,
}

/// The last provider of a page.
#[derive(Clone, Copy, Debug, PartialEq, Eq, Structural)]
pub struct ProviderListCursor {
    pub created_at: UtcTime,
    pub provider_id: Uuid,
}

/// Which providers to list.
#[derive(Debug)]
pub struct ProviderListQuery {
    pub status: Option<ProviderStatus>,
    pub tax_id: Option<String>,
    pub cursor: Option<ProviderListCursor>,
    pub limit: u16,
}

/// A provider in a list.
#[derive(Debug)]
pub struct ProviderListItem {
    pub provider_id: Uuid,
    pub legal_name: String,
    pub trade_name: String,
    pub tax_id: Option<String>,
    pub status: ProviderStatus,
    pub created_at: UtcTime,
    pub updated_at: UtcTime,
}

/// A page of providers.
pub type ProviderListPage = Page<ProviderListItem, ProviderListCursor>;

/// A change of a field that may be empty.
#[derive(Debug)]
pub enum FieldUpdate {
    Unchanged,
    Replace(String),
    Clear,
}

/// A change of who a provider is. `metadata` is a JSON document.
#[derive(Debug)]
pub struct ProviderIdentityUpdate {
    pub legal_name: Option<String>,
    pub trade_name: Option<String>,
    pub tax_id: FieldUpdate,
    pub registration_number: FieldUpdate,
    pub email_address: FieldUpdate,
    pub website_url: FieldUpdate,
    pub mailing_address: FieldUpdate,
    pub metadata: Option<String>,
    pub reason: String,
}

/// A change of a contact. `contact_type` is a database value and `metadata` a JSON document.
#[derive(Debug)]
pub struct ProviderContactUpdate {
    pub contact_type: Option<String>,
    pub name: FieldUpdate,
    pub email: FieldUpdate,
    pub phone: FieldUpdate,
    pub mobile: FieldUpdate,
    pub sms_enabled: Option<bool>,
    pub metadata: Option<String>,
    pub reason: String,
}

/// A stored contact. The type and the status are database values, `metadata` is a JSON document.
#[derive(Debug)]
pub struct ProviderContactRecord {
    pub provider_contact_id: Uuid,
    pub provider_id: Uuid,
    pub contact_type: String,
    pub name: Option<String>,
    pub email: Option<String>,
    pub phone: Option<String>,
    pub mobile: Option<String>,
    pub sms_enabled: bool,
    pub metadata: String,
    pub status: String,
    pub created_by_subject: String,
    pub updated_by_subject: String,
    pub created_at: UtcTime,
    pub updated_at: UtcTime,
}

impl Clone for ProviderContactRecord {
    fn clone(&self) -> (r: Self)
        ensures
            r == *self,
    {
        ProviderContactRecord {
            provider_contact_id: self.provider_contact_id,
            provider_id: self.provider_id,
            contact_type: self.contact_type.clone(),
            name: copied(&self.name),
            email: copied(&self.email),
            phone: copied(&self.phone),
            mobile: copied(&self.mobile),
            sms_enabled: self.sms_enabled,
            metadata: self.metadata.clone(),
            status: self.status.clone(),
            created_by_subject: self.created_by_subject.clone(),
            updated_by_subject: self.updated_by_subject.clone(),
            created_at: self.created_at,
            updated_at: self.updated_at,
        }
    }
}

/// The last contact of a page.
#[derive(Clone, Copy, Debug, PartialEq, Eq, Structural)]
pub struct ProviderContactCursor {
    pub created_at: UtcTime,
    pub provider_contact_id: Uuid,
}

/// Which contacts to list. The type and the status are database values.
#[derive(Debug)]
pub struct ProviderContactListQuery {
    pub contact_type: Option<String>,
    pub status: Option<String>,
    pub cursor: Option<ProviderContactCursor>,
    pub limit: u16,
}

/// A page of contacts.
pub type ProviderContactListPage = Page<ProviderContactRecord, ProviderContactCursor>;

} // verus!
