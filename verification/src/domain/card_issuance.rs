//! Card issuances.
use vstd::prelude::*;
use crate::domain::copied;
use crate::domain::page::Page;
use crate::text::same_text;
use crate::time::UtcTime;
use crate::uuid::Uuid;

verus! {

/// The life cycle of a batch of card issuances.
#[derive(Clone, Copy, Debug, PartialEq, Eq, Structural)]
pub enum CardIssuanceBatchStatus {
    Creating,
    Ready,
    ProcessingResult,
    Completed,
    PartiallyCompleted,
}

impl CardIssuanceBatchStatus {
    /// The value that stands for it in the database.
    pub open spec fn code(self) -> &'static str {
        match self {
            CardIssuanceBatchStatus::Creating => "CREATING",
            CardIssuanceBatchStatus::Ready => "READY",
            CardIssuanceBatchStatus::ProcessingResult => "PROCESSING_RESULT",
            CardIssuanceBatchStatus::Completed => "COMPLETED",
            CardIssuanceBatchStatus::PartiallyCompleted => "PARTIALLY_COMPLETED",
        }
    }

    /// The value that stands for it in the database.
    pub fn as_db_value(self) -> (r: &'static str)
        ensures
            r == self.code(),
    {
        match self {
            CardIssuanceBatchStatus::Creating => "CREATING",
            CardIssuanceBatchStatus::Ready => "READY",
            CardIssuanceBatchStatus::ProcessingResult => "PROCESSING_RESULT",
            CardIssuanceBatchStatus::Completed => "COMPLETED",
            CardIssuanceBatchStatus::PartiallyCompleted => "PARTIALLY_COMPLETED",
        }
    }

    /// What a database value stands for, where it is one of those in use.
    pub open spec fn of_code(value: Seq<char>) -> Option<CardIssuanceBatchStatus> {
        if value == "CREATING"@ {
            Some(CardIssuanceBatchStatus::Creating)
        } else if value == "READY"@ {
            Some(CardIssuanceBatchStatus::Ready)
        } else if value == "PROCESSING_RESULT"@ {
            Some(CardIssuanceBatchStatus::ProcessingResult)
        } else if value == "COMPLETED"@ {
            Some(CardIssuanceBatchStatus::Completed)
        } else if value == "PARTIALLY_COMPLETED"@ {
            Some(CardIssuanceBatchStatus::PartiallyCompleted)
        } else {
            None
        }
    }

    /// What a database value stands for, where it is one of those in use.
    pub fn from_db_value(value: &str) -> (r: Option<CardIssuanceBatchStatus>)
        ensures
            r == CardIssuanceBatchStatus::of_code(value@),
    {
        if same_text(value, "CREATING") {
            Some(CardIssuanceBatchStatus::Creating)
        } else if same_text(value, "READY") {
            Some(CardIssuanceBatchStatus::Ready)
        } else if same_text(value, "PROCESSING_RESULT") {
            Some(CardIssuanceBatchStatus::ProcessingResult)
        } else if same_text(value, "COMPLETED") {
            Some(CardIssuanceBatchStatus::Completed)
        } else if same_text(value, "PARTIALLY_COMPLETED") {
            Some(CardIssuanceBatchStatus::PartiallyCompleted)
        } else {
            None
        }
    }
}

/// A database value that stands for a CardIssuanceBatchStatus is the one value that stands for it.
pub proof fn card_issuance_batch_status_has_one_code(value: Seq<char>)
    ensures
        CardIssuanceBatchStatus::of_code(value) == Some(
            CardIssuanceBatchStatus::Creating,
        ) <==> value == "CREATING"@,
        CardIssuanceBatchStatus::of_code(value) == Some(
            CardIssuanceBatchStatus::Ready,
        ) <==> value == "READY"@,
        CardIssuanceBatchStatus::of_code(value) == Some(
            CardIssuanceBatchStatus::ProcessingResult,
        ) <==> value == "PROCESSING_RESULT"@,
        CardIssuanceBatchStatus::of_code(value) == Some(
            CardIssuanceBatchStatus::Completed,
        ) <==> value == "COMPLETED"@,
        CardIssuanceBatchStatus::of_code(value) == Some(
            CardIssuanceBatchStatus::PartiallyCompleted,
        ) <==> value == "PARTIALLY_COMPLETED"@,
{
    reveal_strlit("CREATING");
    reveal_strlit("READY");
    reveal_strlit("PROCESSING_RESULT");
    reveal_strlit("COMPLETED");
    reveal_strlit("PARTIALLY_COMPLETED");
    assert("CREATING"@.len() == 8);
    assert("READY"@.len() == 5);
    assert("PROCESSING_RESULT"@.len() == 17);
    assert("COMPLETED"@.len() == 9);
    assert("PARTIALLY_COMPLETED"@.len() == 19);
}

/// Reading the value that stands for a CardIssuanceBatchStatus gives the CardIssuanceBatchStatus
/// back.
pub proof fn card_issuance_batch_status_code_round_trip(x: CardIssuanceBatchStatus)
    ensures
        CardIssuanceBatchStatus::of_code(x.code()@) == Some(x),
{
    reveal_strlit("CREATING");
    reveal_strlit("READY");
    reveal_strlit("PROCESSING_RESULT");
    reveal_strlit("COMPLETED");
    reveal_strlit("PARTIALLY_COMPLETED");
    assert("CREATING"@.len() == 8);
    assert("READY"@.len() == 5);
    assert("PROCESSING_RESULT"@.len() == 17);
    assert("COMPLETED"@.len() == 9);
    assert("PARTIALLY_COMPLETED"@.len() == 19);
}

/// What the bank made of a card issuance.
#[derive(Clone, Copy, Debug, PartialEq, Eq, Structural)]
pub enum CardIssuanceResultStatus {
    Issued,
    Rejected,
}

/// A batch of card issuances.
#[derive(Debug)]
pub struct CardIssuanceBatch {
    pub batch_id: Uuid,
    pub status: CardIssuanceBatchStatus,
    pub request_checksum_sha256: Option<String>,
    pub result_checksum_sha256: Option<String>,
    pub request_count: u32,
    pub issued_count: u32,
    pub rejected_count: u32,
    pub failed_count: u32,
    pub expires_at: UtcTime,
    pub created_at: UtcTime,
    pub updated_at: UtcTime,
    pub completed_at: Option<UtcTime>,
}

impl Clone for CardIssuanceBatch {
    fn clone(&self) -> (r: Self)
        ensures
            r == *self,
    {
        CardIssuanceBatch {
            batch_id: self.batch_id,
            status: self.status,
            request_checksum_sha256: copied(&self.request_checksum_sha256),
            result_checksum_sha256: copied(&self.result_checksum_sha256),
            request_count: self.request_count,
            issued_count: self.issued_count,
            rejected_count: self.rejected_count,
            failed_count: self.failed_count,
            expires_at: self.expires_at,
            created_at: self.created_at,
            updated_at: self.updated_at,
            completed_at: self.completed_at,
        }
    }
}

/// The last batch of a page.
#[derive(Clone, Copy, Debug, PartialEq, Eq, Structural)]
pub struct CardIssuanceBatchCursor {
    pub created_at: UtcTime,
    pub batch_id: Uuid,
}

/// A page of batches.
pub type CardIssuanceBatchPage = Page<CardIssuanceBatch, CardIssuanceBatchCursor>;

/// What became of a card issuance of a batch. `status` is a database value.
#[derive(Debug)]
pub struct CardIssuanceBatchResultRow {
    pub issuance_request_id: Uuid,
    pub row_number: u32,
    pub status: String,
    pub result_code: Option<String>,
    pub result_message: Option<String>,
}

/// A card issuance as the bank is asked for it. `funding_mode` is a database value.
#[derive(Debug)]
pub struct CardIssuanceExportRow {
    pub issuance_request_id: Uuid,
    pub requested_at: UtcTime,
    pub card_range_id: Uuid,
    pub funding_mode: String,
    pub national_id: String,
    pub first_name: String,
    pub last_name: String,
    pub birth_date: String,
    pub mobile: String,
    pub delivery_province: String,
    pub delivery_city: String,
    pub delivery_address: String,
    pub postal_code: String,
    pub provider_request_count: u32,
}

/// A batch that is ready to be written to its object, with the issuances in it.
#[derive(Debug)]
pub struct PreparedCardIssuanceBatch {
    pub batch: CardIssuanceBatch,
    pub object_key: String,
    pub rows: Vec<CardIssuanceExportRow>,
}

/// A batch that is ready to be written to its object, as plain values.
pub struct PreparedBatchView {
    pub batch: CardIssuanceBatch,
    pub object_key: Seq<char>,
    pub rows: Seq<CardIssuanceExportRow>,
}

impl View for PreparedCardIssuanceBatch {
    type V = PreparedBatchView;

    open spec fn view(&self) -> PreparedBatchView {
        PreparedBatchView { batch: self.batch, object_key: self.object_key@, rows: self.rows@ }
    }
}

/// What the bank reports of a card issuance.
#[derive(Debug)]
pub struct CardIssuanceResultRow {
    pub issuance_request_id: Uuid,
    pub status: CardIssuanceResultStatus,
    pub card_number: Option<String>,
    pub issuer_reference: Option<String>,
    pub failure_code: Option<String>,
    pub failure_message: Option<String>,
    pub produced_at: Option<UtcTime>,
    pub dispatched_at: Option<UtcTime>,
    pub tracking_reference: Option<String>,
}

} // verus!
