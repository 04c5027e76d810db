//! Rules and encodings that are held outside this library.
use vstd::prelude::*;
use crate::db::oracle::card_issuance_result::{IssuanceProviderAccountIntent, IssuanceWalFacts};
use crate::db::oracle::card_policy::SetCardPolicyResult;
use crate::db::oracle::card_range_command::CardRangeControls;
use crate::db::oracle::document::{Document, EventKeys, Snapshot};
use crate::db::oracle::outbox::EnvelopeKeys;
use crate::db::oracle::provider_event_subscription::{
    ProviderEventSubscriptionRecord, SubscriptionHeader,
};
use crate::db::oracle::provider_fee::SetProviderFeeProfileResult;
use crate::db::oracle::provider_range::RangeControlProjection;
use crate::db::oracle::wal_recovery::IssuanceWalPayload;
use crate::domain::card_issuance::{CardIssuanceBatch, CardIssuanceBatchStatus};
use crate::domain::card_policy::{
    CardPolicyProfile, DesiredCardPolicy, PolicyMaterializationReceipt,
};
use crate::domain::card_range::{
    CardRange, CardRangeStatus, LimitCalendar, NewCardRange, WithdrawalLimitAuthority,
};
use crate::domain::command::{DurableMutationContext, HeaderSource};
use crate::domain::provider::{
    Provider, ProviderAccountCategory, ProviderContact, ProviderContactRecord,
    ProviderOperationalProfileRecord, ProviderStatus,
};
use crate::domain::provider_credit::{
    CreditEvent, CreditMovementIntent, CreditMovementResult, CreditMovementType,
    CreditMovementWalPayload,
};
use crate::domain::provider_fee::{
    DesiredProviderFeeProfile, FeePolicy, ProviderFeeMaterializationReceipt, ProviderFeeProfile,
};
use crate::domain::receipt::RuntimeMaterializationReceipt;
use crate::domain::user_card::{
    CardProfileBase, CardProfileFundingSource, CardProfileRefreshReason, CurrentFundingSource,
    FundingOrderAppliedSource, FundingOrderSummary, PolicyUsageAccountIds, ProviderUserView,
};
use crate::time::UtcTime;
use crate::uuid::Uuid;

verus! {

/// The domains whose database values are listed outside.
#[derive(Clone, Copy, Debug, PartialEq, Eq, Structural)]
pub enum CodeKind {
    AuditAction,
    CmsOperationMode,
    CardRangeProviderStatus,
    FeePayer,
    FinancialTransactionType,
    FinancialAccountCategory,
    FinancialEntryDirection,
    ProviderContactType,
    ProviderContactStatus,
}

/// The kinds of JSON documents whose shape is known outside.
#[derive(Clone, Copy, Debug, PartialEq, Eq, Structural)]
pub enum DocumentKind {
    CardPolicyTerms,
    CreditMovementResult,
    OperationalControls,
    EventHeaders,
    FundingOrderResult,
}

/// The list that a rule or an encoding works on.
pub enum Attachment {
    Nothing,
    Providers(Vec<Uuid>),
    FundingSources(Vec<CardProfileFundingSource>),
    Subscriptions(Vec<ProviderEventSubscriptionRecord>),
    CurrentSources(Vec<CurrentFundingSource>),
    AppliedSources(Vec<FundingOrderAppliedSource>),
    AccountIntents(Vec<IssuanceProviderAccountIntent>),
}

/// A list that a rule or an encoding works on, as plain values.
pub enum AttachmentView {
    Nothing,
    Providers(Seq<Uuid>),
    FundingSources(Seq<CardProfileFundingSource>),
    Subscriptions(Seq<ProviderEventSubscriptionRecord>),
    CurrentSources(Seq<CurrentFundingSource>),
    AppliedSources(Seq<FundingOrderAppliedSource>),
    AccountIntents(Seq<IssuanceProviderAccountIntent>),
}

impl View for Attachment {
    type V = AttachmentView;

    open spec fn view(&self) -> AttachmentView {
        match self {
            Attachment::Nothing => AttachmentView::Nothing,
            Attachment::Providers(list) => AttachmentView::Providers(list@),
            Attachment::FundingSources(list) => AttachmentView::FundingSources(list@),
            Attachment::Subscriptions(list) => AttachmentView::Subscriptions(list@),
            Attachment::CurrentSources(list) => AttachmentView::CurrentSources(list@),
            Attachment::AppliedSources(list) => AttachmentView::AppliedSources(list@),
            Attachment::AccountIntents(list) => AttachmentView::AccountIntents(list@),
        }
    }
}

/// What a script asks of the rules and encodings around it.
pub enum Rule {
    /// A new random identifier.
    FreshId,
    /// The present instant.
    Now,
    /// Whether a database value is one that the domain knows.
    KnownCode(CodeKind, String),
    /// What is wrong with a JSON document of a kind, where something is.
    Document(DocumentKind, String),
    /// A JSON document with what audit evidence must not show taken out.
    Redacted(Snapshot),
    /// The headers of an event, as JSON.
    EventHeaders(HeaderSource),
    /// The snapshot under which a card range is replayed.
    CardRangeSnapshot(CardRange),
    /// A draft range with the values that are asked for, or what is wrong with them. The values are
    /// a JSON document, and the reason of the change comes along.
    DraftUpdate(CardRange, String, String),
    /// Whether operational controls that a range is to get are in order: whether it issues cards,
    /// the mode in which cards are operated, as a database value, and the reason of the change.
    ControlChange(bool, String, String),
    /// A card range, as JSON.
    CardRangeDocument(CardRange),
    /// The status of a card range, as JSON.
    CardRangeStatusDocument(CardRangeStatus),
    /// The mode in which cards are operated, as JSON. It is given as a database value.
    CmsModeDocument(String),
    /// The calendar by which limits are counted, as JSON.
    CalendarDocument(Option<LimitCalendar>),
    /// An internal event with its payload, as JSON.
    EventEnvelope(EventKeys, Document),
    /// The event that publishes the controls of a range, as JSON. The providers come along.
    RangeControlEvent(EventKeys, CardRangeControls),
    /// Whether a card policy is in order under the authority that enforces it.
    CardPolicyContract(WithdrawalLimitAuthority, DesiredCardPolicy),
    /// The limits among the terms of a card policy, as JSON.
    WithdrawalLimits(String),
    /// The snapshot under which a card policy is replayed.
    CardPolicySnapshot(CardPolicyProfile),
    /// The answer to setting a card policy, as JSON.
    CardPolicyResponse(SetCardPolicyResult),
    /// A receipt for a card policy, as JSON.
    PolicyReceipt(PolicyMaterializationReceipt),
    /// The command and the intent of a movement of credit, as JSON.
    CreditMovementWal(DurableMutationContext, CreditMovementIntent),
    /// The event that tells a provider of a movement of credit, as JSON.
    CreditEvent(CreditEvent),
    /// The direction of a movement of credit, as JSON.
    MovementTypeDocument(CreditMovementType),
    /// Who started a movement of credit, as JSON. It is given as a database value.
    InitiatorDocument(String),
    /// The answer to a movement of credit, as JSON.
    CreditMovementResponse(CreditMovementResult),
    /// The command and the intent that a JSON document holds, or what is wrong with it.
    ReadCreditMovementWal(String),
    /// Whether a fee profile is in order.
    FeeContract(DesiredProviderFeeProfile),
    /// The snapshot under which a fee profile is replayed.
    FeeSnapshot(ProviderFeeProfile),
    /// The answer to setting a fee profile, as JSON.
    FeeResponse(SetProviderFeeProfileResult),
    /// A receipt for a fee profile, as JSON.
    FeeReceipt(ProviderFeeMaterializationReceipt),
    /// Fees, as JSON.
    FeePolicyDocument(FeePolicy),
    /// The event that publishes the controls of a range as they are stored, as JSON. The providers
    /// come along.
    RangeControlProjectionEvent(EventKeys, RangeControlProjection),
    /// The snapshot under which an operational profile is replayed.
    OperationalProfileSnapshot(ProviderOperationalProfileRecord),
    /// What the envelope of an internal event says of it, where a JSON document is one.
    InternalEnvelope(String),
    /// The snapshot under which a provider is replayed.
    ProviderSnapshot(Provider),
    /// The ledger account of a provider for a purpose.
    LedgerAccount(ProviderAccountCategory, Uuid),
    /// The status of a provider, as JSON.
    ProviderStatusDocument(ProviderStatus),
    /// Whether a provider may go from a status to another.
    ProviderTransition(ProviderStatus, ProviderStatus),
    /// A contact in its normal form, or what is wrong with it.
    NormalizedContact(ProviderContact),
    /// The snapshot under which a contact is replayed.
    ContactSnapshot(ProviderContactRecord),
    /// A card number with its middle hidden.
    MaskedCardNumber(String),
    /// The ledger account of a user with a provider.
    ProviderUserAccount(Uuid, Uuid),
    /// The ledger accounts that count what a card spends.
    UsageAccounts(Uuid),
    /// The ledger accounts that count what a card spends, as JSON.
    UsageAccountsDocument(PolicyUsageAccountIds),
    /// The snapshot under which an enrollment is replayed.
    ProviderUserSnapshot(ProviderUserView),
    /// The event that publishes a card to the runtime, or refreshes it for a reason, as JSON.
    /// Its funding sources come along.
    CardProfileEvent(EventKeys, Option<CardProfileRefreshReason>, CardProfileBase),
    /// The snapshot of the event subscriptions of a provider. The subscriptions come along.
    SubscriptionSnapshot(SubscriptionHeader),
    /// Audit evidence of the order of the funding sources of a card at a version. The sources come
    /// along, by provider.
    PreviousFundingOrder(i64),
    /// The answer to putting the funding sources of a card in order, as JSON. The sources come
    /// along.
    FundingOrderResponse(FundingOrderSummary),
    /// A batch of card issuances, as JSON.
    IssuanceBatchResponse(CardIssuanceBatch),
    /// The status of a batch of card issuances, as JSON.
    IssuanceStatusDocument(CardIssuanceBatchStatus),
    /// A receipt from the runtime, as JSON.
    RuntimeReceipt(RuntimeMaterializationReceipt),
    /// A command in its durable form, as JSON.
    DurableCommand(DurableMutationContext),
    /// The intent to provision an issued card, as JSON. The accounts come along.
    IssuanceWal(IssuanceWalFacts),
    /// The command that a JSON document holds, or what is wrong with it.
    ReadDurableCommand(String),
    /// The command under `command_context` of a JSON document, or what is wrong with it.
    ReadProviderUserWal(String),
    /// The command, the report and the batch that a JSON document holds, or what is wrong with it.
    ReadIssuanceWal(String),
}

/// What a rule or an encoding gives.
pub enum Answer {
    /// A text, or the error that kept it from being made.
    Text(Result<String, String>),
    /// An objection, where there is one.
    Verdict(Option<String>),
    Id(Uuid),
    Time(UtcTime),
    Flag(bool),
    /// The desired values of a draft, or what is wrong with them.
    Draft(Result<NewCardRange, String>),
    UsageAccounts(PolicyUsageAccountIds),
    /// The command and the intent of a movement of credit, or what is wrong with them.
    CreditMovementWal(Result<CreditMovementWalPayload, String>),
    /// The keys of an envelope, where there is one.
    Envelope(Option<EnvelopeKeys>),
    /// A contact in its normal form, or what is wrong with it.
    Contact(Result<ProviderContact, String>),
    /// A command, or what is wrong with it.
    DurableCommand(Result<DurableMutationContext, String>),
    /// A command, a report and a batch, or what is wrong with them.
    IssuanceWal(Result<IssuanceWalPayload, String>),
}

} // verus!
