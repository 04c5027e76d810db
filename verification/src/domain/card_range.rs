//! Card ranges.
use vstd::prelude::*;
use crate::domain::page::Page;
use crate::json;
use crate::text::same_text;
use crate::time::UtcTime;
use crate::uuid::Uuid;

verus! {

/// How many providers fund the cards of a range.
#[derive(Clone, Copy, Debug, PartialEq, Eq, Structural)]
pub enum FundingMode {
    SingleProvider,
    MultiProvider,
}

impl FundingMode {
    /// The value that stands for it in the database.
    pub open spec fn code(self) -> &'static str {
        match self {
            FundingMode::SingleProvider => "SINGLE_PROVIDER",
            FundingMode::MultiProvider => "MULTI_PROVIDER",
        }
    }

    /// The value that stands for it in the database.
    pub fn as_db_value(self) -> (r: &'static str)
        ensures
            r == self.code(),
    {
        match self {
            FundingMode::SingleProvider => "SINGLE_PROVIDER",
            FundingMode::MultiProvider => "MULTI_PROVIDER",
        }
    }

    /// What a database value stands for, where it is one of those in use.
    pub open spec fn of_code(value: Seq<char>) -> Option<FundingMode> {
        if value == "SINGLE_PROVIDER"@ {
            Some(FundingMode::SingleProvider)
        } else if value == "MULTI_PROVIDER"@ {
            Some(FundingMode::MultiProvider)
        } else {
            None
        }
    }

    /// What a database value stands for, where it is one of those in use.
    pub fn from_db_value(value: &str) -> (r: Option<FundingMode>)
        ensures
            r == FundingMode::of_code(value@),
    {
        if same_text(value, "SINGLE_PROVIDER") {
            Some(FundingMode::SingleProvider)
        } else if same_text(value, "MULTI_PROVIDER") {
            Some(FundingMode::MultiProvider)
        } else {
            None
        }
    }
}

/// A database value that stands for a FundingMode is the one value that stands for it.
pub proof fn funding_mode_has_one_code(value: Seq<char>)
    ensures
        FundingMode::of_code(value) == Some(
            FundingMode::SingleProvider,
        ) <==> value == "SINGLE_PROVIDER"@,
        FundingMode::of_code(value) == Some(
            FundingMode::MultiProvider,
        ) <==> value == "MULTI_PROVIDER"@,
{
    reveal_strlit("SINGLE_PROVIDER");
    reveal_strlit("MULTI_PROVIDER");
    assert("SINGLE_PROVIDER"@.len() == 15);
    assert("MULTI_PROVIDER"@.len() == 14);
}

/// Reading the value that stands for a FundingMode gives the FundingMode back.
pub proof fn funding_mode_code_round_trip(x: FundingMode)
    ensures
        FundingMode::of_code(x.code()@) == Some(x),
{
    reveal_strlit("SINGLE_PROVIDER");
    reveal_strlit("MULTI_PROVIDER");
    assert("SINGLE_PROVIDER"@.len() == 15);
    assert("MULTI_PROVIDER"@.len() == 14);
}

/// Who enforces withdrawal limits.
#[derive(Clone, Copy, Debug, PartialEq, Eq, Structural)]
pub enum WithdrawalLimitAuthority {
    Platform,
    Cms,
}

impl WithdrawalLimitAuthority {
    /// The value that stands for it in the database.
    pub open spec fn code(self) -> &'static str {
        match self {
            WithdrawalLimitAuthority::Platform => "PLATFORM",
            WithdrawalLimitAuthority::Cms => "CMS",
        }
    }

    /// The value that stands for it in the database.
    pub fn as_db_value(self) -> (r: &'static str)
        ensures
            r == self.code(),
    {
        match self {
            WithdrawalLimitAuthority::Platform => "PLATFORM",
            WithdrawalLimitAuthority::Cms => "CMS",
        }
    }

    /// What a database value stands for, where it is one of those in use.
    pub open spec fn of_code(value: Seq<char>) -> Option<WithdrawalLimitAuthority> {
        if value == "PLATFORM"@ {
            Some(WithdrawalLimitAuthority::Platform)
        } else if value == "CMS"@ {
            Some(WithdrawalLimitAuthority::Cms)
        } else {
            None
        }
    }

    /// What a database value stands for, where it is one of those in use.
    pub fn from_db_value(value: &str) -> (r: Option<WithdrawalLimitAuthority>)
        ensures
            r == WithdrawalLimitAuthority::of_code(value@),
    {
        if same_text(value, "PLATFORM") {
            Some(WithdrawalLimitAuthority::Platform)
        } else if same_text(value, "CMS") {
            Some(WithdrawalLimitAuthority::Cms)
        } else {
            None
        }
    }
}

/// A database value that stands for a WithdrawalLimitAuthority is the one value that stands for it.
pub proof fn withdrawal_limit_authority_has_one_code(value: Seq<char>)
    ensures
        WithdrawalLimitAuthority::of_code(value) == Some(
            WithdrawalLimitAuthority::Platform,
        ) <==> value == "PLATFORM"@,
        WithdrawalLimitAuthority::of_code(value) == Some(
            WithdrawalLimitAuthority::Cms,
        ) <==> value == "CMS"@,
{
    reveal_strlit("PLATFORM");
    reveal_strlit("CMS");
    assert("PLATFORM"@.len() == 8);
    assert("CMS"@.len() == 3);
}

/// Reading the value that stands for a WithdrawalLimitAuthority gives the WithdrawalLimitAuthority
/// back.
pub proof fn withdrawal_limit_authority_code_round_trip(x: WithdrawalLimitAuthority)
    ensures
        WithdrawalLimitAuthority::of_code(x.code()@) == Some(x),
{
    reveal_strlit("PLATFORM");
    reveal_strlit("CMS");
    assert("PLATFORM"@.len() == 8);
    assert("CMS"@.len() == 3);
}

/// The life cycle of a card range.
#[derive(Clone, Copy, Debug, PartialEq, Eq, Structural)]
pub enum CardRangeStatus {
    Draft,
    Active,
    Suspended,
}

impl CardRangeStatus {
    /// The value that stands for it in the database.
    pub open spec fn code(self) -> &'static str {
        match self {
            CardRangeStatus::Draft => "DRAFT",
            CardRangeStatus::Active => "ACTIVE",
            CardRangeStatus::Suspended => "SUSPENDED",
        }
    }

    /// The value that stands for it in the database.
    pub fn as_db_value(self) -> (r: &'static str)
        ensures
            r == self.code(),
    {
        match self {
            CardRangeStatus::Draft => "DRAFT",
            CardRangeStatus::Active => "ACTIVE",
            CardRangeStatus::Suspended => "SUSPENDED",
        }
    }

    /// What a database value stands for, where it is one of those in use.
    pub open spec fn of_code(value: Seq<char>) -> Option<CardRangeStatus> {
        if value == "DRAFT"@ {
            Some(CardRangeStatus::Draft)
        } else if value == "ACTIVE"@ {
            Some(CardRangeStatus::Active)
        } else if value == "SUSPENDED"@ {
            Some(CardRangeStatus::Suspended)
        } else {
            None
        }
    }

    /// What a database value stands for, where it is one of those in use.
    pub fn from_db_value(value: &str) -> (r: Option<CardRangeStatus>)
        ensures
            r == CardRangeStatus::of_code(value@),
    {
        if same_text(value, "DRAFT") {
            Some(CardRangeStatus::Draft)
        } else if same_text(value, "ACTIVE") {
            Some(CardRangeStatus::Active)
        } else if same_text(value, "SUSPENDED") {
            Some(CardRangeStatus::Suspended)
        } else {
            None
        }
    }
}

/// A database value that stands for a CardRangeStatus is the one value that stands for it.
pub proof fn card_range_status_has_one_code(value: Seq<char>)
    ensures
        CardRangeStatus::of_code(value) == Some(CardRangeStatus::Draft) <==> value == "DRAFT"@,
        CardRangeStatus::of_code(value) == Some(CardRangeStatus::Active) <==> value == "ACTIVE"@,
        CardRangeStatus::of_code(value) == Some(
            CardRangeStatus::Suspended,
        ) <==> value == "SUSPENDED"@,
{
    reveal_strlit("DRAFT");
    reveal_strlit("ACTIVE");
    reveal_strlit("SUSPENDED");
    assert("DRAFT"@.len() == 5);
    assert("ACTIVE"@.len() == 6);
    assert("SUSPENDED"@.len() == 9);
}

/// Reading the value that stands for a CardRangeStatus gives the CardRangeStatus back.
pub proof fn card_range_status_code_round_trip(x: CardRangeStatus)
    ensures
        CardRangeStatus::of_code(x.code()@) == Some(x),
{
    reveal_strlit("DRAFT");
    reveal_strlit("ACTIVE");
    reveal_strlit("SUSPENDED");
    assert("DRAFT"@.len() == 5);
    assert("ACTIVE"@.len() == 6);
    assert("SUSPENDED"@.len() == 9);
}

/// The day on which a week begins.
#[derive(Clone, Copy, Debug, PartialEq, Eq, Structural)]
pub enum WeekStartDay {
    Saturday,
    Sunday,
    Monday,
}

/// How the windows of limits are laid out.
#[derive(Clone, Copy, Debug, PartialEq, Eq, Structural)]
pub enum LimitWindowMode {
    Calendar,
}

#[derive(Debug)]
enum HeldZone {
    Named(String),
    Stored(String),
}

/// The name of a time zone: one that was given, or the one that a stored JSON document holds.
#[derive(Debug)]
pub struct ZoneName {
    held: HeldZone,
}

/// The name that a held time zone stands for.
spec fn zone_text(held: HeldZone) -> Seq<char> {
    match held {
        HeldZone::Named(name) => name@,
        HeldZone::Stored(document) => json::json_text_member(document@, "timezone"@)->Some_0,
    }
}

impl View for ZoneName {
    type V = Seq<char>;

    closed spec fn view(&self) -> Seq<char> {
        zone_text(self.held)
    }
}

impl ZoneName {
    #[verifier::type_invariant]
    spec fn is_there(self) -> bool {
        self.held matches HeldZone::Stored(document) ==> json::json_text_member(
            document@,
            "timezone"@,
        ) is Some
    }

    /// The time zone that a JSON document holds.
    pub closed spec fn of_document(document: String) -> ZoneName {
        ZoneName { held: HeldZone::Stored(document) }
    }

    /// A time zone by its name.
    pub fn named(name: String) -> (r: ZoneName)
        ensures
            r@ == name@,
    {
        ZoneName { held: HeldZone::Named(name) }
    }

    /// The time zone that a JSON document holds, where it holds one.
    pub fn stored(document: &String) -> (r: Option<ZoneName>)
        ensures
            match r {
                Some(zone) => zone == ZoneName::of_document(*document) && Some(zone@)
                    == json::json_text_member(document@, "timezone"@),
                None => json::json_text_member(document@, "timezone"@) is None,
            },
    {
        if json::text_member(document.as_str(), "timezone").is_some() {
            Some(ZoneName { held: HeldZone::Stored(document.clone()) })
        } else {
            None
        }
    }

    /// The name as a text.
    pub fn text(&self) -> (r: String)
        ensures
            r@ == self@,
    {
        proof {
            use_type_invariant(self);
        }
        match &self.held {
            HeldZone::Named(name) => name.clone(),
            HeldZone::Stored(document) => match json::text_member(document.as_str(), "timezone") {
                Some(name) => name,
                None => document.clone(),
            },
        }
    }
}

/// The time zone of a document that holds one is the one that it holds.
pub broadcast proof fn stored_zone_is_in_its_document(document: String)
    requires
        json::json_text_member(document@, "timezone"@) is Some,
    ensures
        Some((#[trigger] ZoneName::of_document(document))@) == json::json_text_member(
            document@,
            "timezone"@,
        ),
{
}

impl Clone for ZoneName {
    fn clone(&self) -> (r: Self)
        ensures
            r == *self,
    {
        proof {
            use_type_invariant(self);
        }
        match &self.held {
            HeldZone::Named(name) => ZoneName { held: HeldZone::Named(name.clone()) },
            HeldZone::Stored(document) => ZoneName { held: HeldZone::Stored(document.clone()) },
        }
    }
}

/// The calendar by which limits are counted.
#[derive(Debug)]
pub struct LimitCalendar {
    pub timezone: ZoneName,
    pub week_starts_on: WeekStartDay,
    pub window_mode: LimitWindowMode,
}

impl Clone for LimitCalendar {
    fn clone(&self) -> (r: Self)
        ensures
            r == *self,
    {
        LimitCalendar {
            timezone: self.timezone.clone(),
            week_starts_on: self.week_starts_on,
            window_mode: self.window_mode,
        }
    }
}

/// Two calendars count by the same time zone and week.
pub open spec fn same_calendar_spec(a: LimitCalendar, b: LimitCalendar) -> bool {
    &&& a.timezone@ == b.timezone@
    &&& a.week_starts_on == b.week_starts_on
    &&& a.window_mode == b.window_mode
}

/// Whether two calendars count by the same time zone and week.
pub fn same_calendar(a: &LimitCalendar, b: &LimitCalendar) -> (r: bool)
    ensures
        r == same_calendar_spec(*a, *b),
{
    same_text(a.timezone.text().as_str(), b.timezone.text().as_str()) && a.week_starts_on
        == b.week_starts_on && a.window_mode == b.window_mode
}

/// The first and the last card number of a range.
#[derive(Debug)]
pub struct CardNumberRange {
    pub start: String,
    pub end: String,
}

impl Clone for CardNumberRange {
    fn clone(&self) -> (r: Self)
        ensures
            r == *self,
    {
        CardNumberRange {
            start: self.start.clone(),
            end: self.end.clone(),
        }
    }
}

/// A card range. `cms_operation_mode` is a database value and `metadata_json` a JSON document.
#[derive(Debug)]
pub struct CardRange {
    pub card_range_id: Uuid,
    pub numbers: CardNumberRange,
    pub funding_mode: FundingMode,
    pub withdrawal_limit_authority: WithdrawalLimitAuthority,
    pub limit_calendar: Option<LimitCalendar>,
    pub status: CardRangeStatus,
    pub issuance_enabled: bool,
    pub cms_operation_mode: String,
    pub operational_version: i64,
    pub materialized_operational_version: i64,
    pub range_control_operation_id: Option<Uuid>,
    pub metadata_json: String,
    pub created_by_subject: String,
    pub updated_by_subject: String,
    pub created_at: UtcTime,
    pub updated_at: UtcTime,
}

impl Clone for CardRange {
    fn clone(&self) -> (r: Self)
        ensures
            r == *self,
    {
        CardRange {
            card_range_id: self.card_range_id,
            numbers: self.numbers.clone(),
            funding_mode: self.funding_mode,
            withdrawal_limit_authority: self.withdrawal_limit_authority,
            limit_calendar: match &self.limit_calendar { Some(v) => Some(v.clone()), None => None },
            status: self.status,
            issuance_enabled: self.issuance_enabled,
            cms_operation_mode: self.cms_operation_mode.clone(),
            operational_version: self.operational_version,
            materialized_operational_version: self.materialized_operational_version,
            range_control_operation_id: self.range_control_operation_id,
            metadata_json: self.metadata_json.clone(),
            created_by_subject: self.created_by_subject.clone(),
            updated_by_subject: self.updated_by_subject.clone(),
            created_at: self.created_at,
            updated_at: self.updated_at,
        }
    }
}

/// The values of a card range that is to be created, or of a draft that is to be changed.
#[derive(Debug)]
pub struct NewCardRange {
    pub card_range_id: Uuid,
    pub numbers: CardNumberRange,
    pub funding_mode: FundingMode,
    pub withdrawal_limit_authority: WithdrawalLimitAuthority,
    pub limit_calendar: Option<LimitCalendar>,
    pub issuance_enabled: bool,
    pub cms_operation_mode: String,
    pub metadata_json: String,
}

impl Clone for NewCardRange {
    fn clone(&self) -> (r: Self)
        ensures
            r == *self,
    {
        NewCardRange {
            card_range_id: self.card_range_id,
            numbers: self.numbers.clone(),
            funding_mode: self.funding_mode,
            withdrawal_limit_authority: self.withdrawal_limit_authority,
            limit_calendar: match &self.limit_calendar { Some(v) => Some(v.clone()), None => None },
            issuance_enabled: self.issuance_enabled,
            cms_operation_mode: self.cms_operation_mode.clone(),
            metadata_json: self.metadata_json.clone(),
        }
    }
}

/// The last card range of a page.
#[derive(Clone, Copy, Debug, PartialEq, Eq, Structural)]
pub struct CardRangeListCursor {
    pub created_at: UtcTime,
    pub card_range_id: Uuid,
}

/// Which card ranges to list.
#[derive(Debug)]
pub struct CardRangeListQuery {
    pub status: Option<CardRangeStatus>,
    pub funding_mode: Option<FundingMode>,
    pub withdrawal_limit_authority: Option<WithdrawalLimitAuthority>,
    pub cursor: Option<CardRangeListCursor>,
    pub limit: u16,
    pub database_fetch_limit: u32,
}

/// A page of card ranges.
pub type CardRangeListPage = Page<CardRange, CardRangeListCursor>;

/// Whether a provider may use a card range. `status` is a database value.
#[derive(Debug)]
pub struct CardRangeProviderEligibility {
    pub card_range_id: Uuid,
    pub provider_id: Uuid,
    pub status: String,
}

} // verus!
