//! Persisted record types and their row descriptors.
//!
//! Each record binds its fields, in declaration order, to the columns of its
//! table. Enumerations travel as their one-byte codes. Instants are
//! milliseconds since the Unix epoch and UUIDs their 128-bit values.
//!
//! The column order must match the physical table: a mismatch is not
//! detected here, only a row whose shape or values do not fit the record.

use vstd::prelude::*;
use crate::db::row::{
    copy_nullable, datetime_at, i32_at, nullable_text_at, text_at, u64_at,
    u8_at, uuid_at, check_shape, first_mismatch, Cell, CellKind, DecodeError, Row,
};
use crate::models::domain::intelligence::{IntelligenceType, SourceType as IntelligenceSource, Urgency};

verus! {

/// Attribute of an intelligence value.
#[derive(Debug, Clone, Copy, PartialEq, Eq, Structural)]
pub enum AttributeType {
    Domain,
    Url,
    EmailAddress,
    Ipv4,
    Md5,
    UrlDomain,
    EmailDomain,
    Sha256,
}

impl AttributeType {
    /// The one-byte code of the variant, counting from 1 in declaration order.
    pub open spec fn code_spec(self) -> u8 {
        match self {
            AttributeType::Domain => 1,
            AttributeType::Url => 2,
            AttributeType::EmailAddress => 3,
            AttributeType::Ipv4 => 4,
            AttributeType::Md5 => 5,
            AttributeType::UrlDomain => 6,
            AttributeType::EmailDomain => 7,
            AttributeType::Sha256 => 8,
        }
    }

    /// The variant with the given code, if any.
    pub open spec fn from_code_spec(c: u8) -> Option<Self> {
        if c == 1 {
            Some(AttributeType::Domain)
        } else if c == 2 {
            Some(AttributeType::Url)
        } else if c == 3 {
            Some(AttributeType::EmailAddress)
        } else if c == 4 {
            Some(AttributeType::Ipv4)
        } else if c == 5 {
            Some(AttributeType::Md5)
        } else if c == 6 {
            Some(AttributeType::UrlDomain)
        } else if c == 7 {
            Some(AttributeType::EmailDomain)
        } else if c == 8 {
            Some(AttributeType::Sha256)
        } else {
            None
        }
    }

    /// The one-byte code of the variant.
    pub fn code(&self) -> (r: u8)
        ensures
            r == self.code_spec(),
            Self::from_code_spec(r) == Some(*self),
    {
        match self {
            AttributeType::Domain => 1,
            AttributeType::Url => 2,
            AttributeType::EmailAddress => 3,
            AttributeType::Ipv4 => 4,
            AttributeType::Md5 => 5,
            AttributeType::UrlDomain => 6,
            AttributeType::EmailDomain => 7,
            AttributeType::Sha256 => 8,
        }
    }

    /// The variant with the given code, if any.
    pub fn from_code(c: u8) -> (r: Option<Self>)
        ensures
            r == Self::from_code_spec(c),
    {
        if c == 1 {
            Some(AttributeType::Domain)
        } else if c == 2 {
            Some(AttributeType::Url)
        } else if c == 3 {
            Some(AttributeType::EmailAddress)
        } else if c == 4 {
            Some(AttributeType::Ipv4)
        } else if c == 5 {
            Some(AttributeType::Md5)
        } else if c == 6 {
            Some(AttributeType::UrlDomain)
        } else if c == 7 {
            Some(AttributeType::EmailDomain)
        } else if c == 8 {
            Some(AttributeType::Sha256)
        } else {
            None
        }
    }

}

/// Urgency of an alert.
#[derive(Debug, Clone, Copy, PartialEq, Eq, Structural)]
pub enum UrgencyLevel {
    High,
    Medium,
    Low,
}

impl UrgencyLevel {
    /// The one-byte code of the variant, counting from 1 in declaration order.
    pub open spec fn code_spec(self) -> u8 {
        match self {
            UrgencyLevel::High => 1,
            UrgencyLevel::Medium => 2,
            UrgencyLevel::Low => 3,
        }
    }

    /// The variant with the given code, if any.
    pub open spec fn from_code_spec(c: u8) -> Option<Self> {
        if c == 1 {
            Some(UrgencyLevel::High)
        } else if c == 2 {
            Some(UrgencyLevel::Medium)
        } else if c == 3 {
            Some(UrgencyLevel::Low)
        } else {
            None
        }
    }

    /// The one-byte code of the variant.
    pub fn code(&self) -> (r: u8)
        ensures
            r == self.code_spec(),
            Self::from_code_spec(r) == Some(*self),
    {
        match self {
            UrgencyLevel::High => 1,
            UrgencyLevel::Medium => 2,
            UrgencyLevel::Low => 3,
        }
    }

    /// The variant with the given code, if any.
    pub fn from_code(c: u8) -> (r: Option<Self>)
        ensures
            r == Self::from_code_spec(c),
    {
        if c == 1 {
            Some(UrgencyLevel::High)
        } else if c == 2 {
            Some(UrgencyLevel::Medium)
        } else if c == 3 {
            Some(UrgencyLevel::Low)
        } else {
            None
        }
    }

}

/// Origin of an alert: local or cloud intelligence.
#[derive(Debug, Clone, Copy, PartialEq, Eq, Structural)]
pub enum SourceType {
    Local,
    Cloud,
}

impl SourceType {
    /// The one-byte code of the variant, counting from 1 in declaration order.
    pub open spec fn code_spec(self) -> u8 {
        match self {
            SourceType::Local => 1,
            SourceType::Cloud => 2,
        }
    }

    /// The variant with the given code, if any.
    pub open spec fn from_code_spec(c: u8) -> Option<Self> {
        if c == 1 {
            Some(SourceType::Local)
        } else if c == 2 {
            Some(SourceType::Cloud)
        } else {
            None
        }
    }

    /// The one-byte code of the variant.
    pub fn code(&self) -> (r: u8)
        ensures
            r == self.code_spec(),
            Self::from_code_spec(r) == Some(*self),
    {
        match self {
            SourceType::Local => 1,
            SourceType::Cloud => 2,
        }
    }

    /// The variant with the given code, if any.
    pub fn from_code(c: u8) -> (r: Option<Self>)
        ensures
            r == Self::from_code_spec(c),
    {
        if c == 1 {
            Some(SourceType::Local)
        } else if c == 2 {
            Some(SourceType::Cloud)
        } else {
            None
        }
    }

}

/// Kind of the object in which an alert was found.
#[derive(Debug, Clone, Copy, PartialEq, Eq, Structural)]
pub enum ParentSourceType {
    Email,
    File,
    EmailHeader,
    EmailBody,
    QrCode,
    Text,
    Url,
    Smtp,
}

impl ParentSourceType {
    /// The one-byte code of the variant, counting from 1 in declaration order.
    pub open spec fn code_spec(self) -> u8 {
        match self {
            ParentSourceType::Email => 1,
            ParentSourceType::File => 2,
            ParentSourceType::EmailHeader => 3,
            ParentSourceType::EmailBody => 4,
            ParentSourceType::QrCode => 5,
            ParentSourceType::Text => 6,
            ParentSourceType::Url => 7,
            ParentSourceType::Smtp => 8,
        }
    }

    /// The variant with the given code, if any.
    pub open spec fn from_code_spec(c: u8) -> Option<Self> {
        if c == 1 {
            Some(ParentSourceType::Email)
        } else if c == 2 {
            Some(ParentSourceType::File)
        } else if c == 3 {
            Some(ParentSourceType::EmailHeader)
        } else if c == 4 {
            Some(ParentSourceType::EmailBody)
        } else if c == 5 {
            Some(ParentSourceType::QrCode)
        } else if c == 6 {
            Some(ParentSourceType::Text)
        } else if c == 7 {
            Some(ParentSourceType::Url)
        } else if c == 8 {
            Some(ParentSourceType::Smtp)
        } else {
            None
        }
    }

    /// The one-byte code of the variant.
    pub fn code(&self) -> (r: u8)
        ensures
            r == self.code_spec(),
            Self::from_code_spec(r) == Some(*self),
    {
        match self {
            ParentSourceType::Email => 1,
            ParentSourceType::File => 2,
            ParentSourceType::EmailHeader => 3,
            ParentSourceType::EmailBody => 4,
            ParentSourceType::QrCode => 5,
            ParentSourceType::Text => 6,
            ParentSourceType::Url => 7,
            ParentSourceType::Smtp => 8,
        }
    }

    /// The variant with the given code, if any.
    pub fn from_code(c: u8) -> (r: Option<Self>)
        ensures
            r == Self::from_code_spec(c),
    {
        if c == 1 {
            Some(ParentSourceType::Email)
        } else if c == 2 {
            Some(ParentSourceType::File)
        } else if c == 3 {
            Some(ParentSourceType::EmailHeader)
        } else if c == 4 {
            Some(ParentSourceType::EmailBody)
        } else if c == 5 {
            Some(ParentSourceType::QrCode)
        } else if c == 6 {
            Some(ParentSourceType::Text)
        } else if c == 7 {
            Some(ParentSourceType::Url)
        } else if c == 8 {
            Some(ParentSourceType::Smtp)
        } else {
            None
        }
    }

}

/// Disposition applied to an email.
#[derive(Debug, Clone, Copy, PartialEq, Eq, Structural)]
pub enum ActionType {
    Accept,
    Discard,
    Reject,
    Quarantine,
}

impl ActionType {
    /// The one-byte code of the variant, counting from 1 in declaration order.
    pub open spec fn code_spec(self) -> u8 {
        match self {
            ActionType::Accept => 1,
            ActionType::Discard => 2,
            ActionType::Reject => 3,
            ActionType::Quarantine => 4,
        }
    }

    /// The variant with the given code, if any.
    pub open spec fn from_code_spec(c: u8) -> Option<Self> {
        if c == 1 {
            Some(ActionType::Accept)
        } else if c == 2 {
            Some(ActionType::Discard)
        } else if c == 3 {
            Some(ActionType::Reject)
        } else if c == 4 {
            Some(ActionType::Quarantine)
        } else {
            None
        }
    }

    /// The one-byte code of the variant.
    pub fn code(&self) -> (r: u8)
        ensures
            r == self.code_spec(),
            Self::from_code_spec(r) == Some(*self),
    {
        match self {
            ActionType::Accept => 1,
            ActionType::Discard => 2,
            ActionType::Reject => 3,
            ActionType::Quarantine => 4,
        }
    }

    /// The variant with the given code, if any.
    pub fn from_code(c: u8) -> (r: Option<Self>)
        ensures
            r == Self::from_code_spec(c),
    {
        if c == 1 {
            Some(ActionType::Accept)
        } else if c == 2 {
            Some(ActionType::Discard)
        } else if c == 3 {
            Some(ActionType::Reject)
        } else if c == 4 {
            Some(ActionType::Quarantine)
        } else {
            None
        }
    }

    /// The name of the variant.
    pub fn name(&self) -> (r: &'static str)
        ensures
            *self == ActionType::Accept ==> r@ == "Accept"@,
            *self == ActionType::Discard ==> r@ == "Discard"@,
            *self == ActionType::Reject ==> r@ == "Reject"@,
            *self == ActionType::Quarantine ==> r@ == "Quarantine"@,
    {
        match self {
            ActionType::Accept => "Accept",
            ActionType::Discard => "Discard",
            ActionType::Reject => "Reject",
            ActionType::Quarantine => "Quarantine",
        }
    }

}

/// An alert raised by an intelligence match: one row of `alert_intelligence`.
#[derive(Debug, Clone, PartialEq, Eq)]
pub struct AlertIntelligence {
    pub id: u64,
    pub mail_id: u64,
    pub timestamp: i64,
    pub intelligence_id: u128,
    pub description: String,
    pub source_industry: String,
    pub first_discovered_time: i64,
    pub last_active_time: i64,
    pub intelligence_update_time: i64,
    pub intelligence_expiration_time: i64,
    pub attribute: AttributeType,
    pub intelligence_type: String,
    pub urgency: UrgencyLevel,
    pub value: String,
    pub pattern: String,
    pub info: String,
    pub threat_actor: String,
    pub joint_prevention_and_control: String,
    pub display_to_name: String,
    pub display_to_address: String,
    pub display_to_account: String,
    pub display_to_domain: String,
    pub is_deleted: u8,
    pub updated_at: i64,
    pub source: SourceType,
    pub source_id: u64,
    pub source_mime_type: String,
    pub parent_source: ParentSourceType,
    pub scan_time_us: u64,
}

impl Row for AlertIntelligence {
    open spec fn column_names_spec() -> Seq<Seq<char>> {
        seq!["id"@, "mail_id"@, "timestamp"@, "intelligence_id"@, "description"@, "source_industry"@, "first_discovered_time"@, "last_active_time"@, "intelligence_update_time"@, "intelligence_expiration_time"@, "attribute"@, "intelligence_type"@, "urgency"@, "value"@, "pattern"@, "info"@, "threat_actor"@, "joint_prevention_and_control"@, "display_to_name"@, "display_to_address"@, "display_to_account"@, "display_to_domain"@, "is_deleted"@, "updated_at"@, "source"@, "source_id"@, "source_mime_type"@, "parent_source"@, "scan_time_us"@]
    }

    open spec fn column_kinds() -> Seq<CellKind> {
        seq![CellKind::UInt64, CellKind::UInt64, CellKind::DateTime, CellKind::Uuid, CellKind::Text, CellKind::Text, CellKind::DateTime, CellKind::DateTime, CellKind::DateTime, CellKind::DateTime, CellKind::UInt8, CellKind::Text, CellKind::UInt8, CellKind::Text, CellKind::Text, CellKind::Text, CellKind::Text, CellKind::Text, CellKind::Text, CellKind::Text, CellKind::Text, CellKind::Text, CellKind::UInt8, CellKind::DateTime, CellKind::UInt8, CellKind::UInt64, CellKind::Text, CellKind::UInt8, CellKind::UInt64]
    }

    open spec fn to_cells(self) -> Seq<Cell> {
        seq![
            Cell::UInt64(self.id),
            Cell::UInt64(self.mail_id),
            Cell::DateTime(self.timestamp),
            Cell::Uuid(self.intelligence_id),
            Cell::Text(self.description),
            Cell::Text(self.source_industry),
            Cell::DateTime(self.first_discovered_time),
            Cell::DateTime(self.last_active_time),
            Cell::DateTime(self.intelligence_update_time),
            Cell::DateTime(self.intelligence_expiration_time),
            Cell::UInt8(self.attribute.code_spec()),
            Cell::Text(self.intelligence_type),
            Cell::UInt8(self.urgency.code_spec()),
            Cell::Text(self.value),
            Cell::Text(self.pattern),
            Cell::Text(self.info),
            Cell::Text(self.threat_actor),
            Cell::Text(self.joint_prevention_and_control),
            Cell::Text(self.display_to_name),
            Cell::Text(self.display_to_address),
            Cell::Text(self.display_to_account),
            Cell::Text(self.display_to_domain),
            Cell::UInt8(self.is_deleted),
            Cell::DateTime(self.updated_at),
            Cell::UInt8(self.source.code_spec()),
            Cell::UInt64(self.source_id),
            Cell::Text(self.source_mime_type),
            Cell::UInt8(self.parent_source.code_spec()),
            Cell::UInt64(self.scan_time_us),
        ]
    }

    open spec fn from_cells(row: Seq<Cell>) -> Self {
        AlertIntelligence {
            id: row[0]->UInt64_0,
            mail_id: row[1]->UInt64_0,
            timestamp: row[2]->DateTime_0,
            intelligence_id: row[3]->Uuid_0,
            description: row[4]->Text_0,
            source_industry: row[5]->Text_0,
            first_discovered_time: row[6]->DateTime_0,
            last_active_time: row[7]->DateTime_0,
            intelligence_update_time: row[8]->DateTime_0,
            intelligence_expiration_time: row[9]->DateTime_0,
            attribute: AttributeType::from_code_spec(row[10]->UInt8_0)->Some_0,
            intelligence_type: row[11]->Text_0,
            urgency: UrgencyLevel::from_code_spec(row[12]->UInt8_0)->Some_0,
            value: row[13]->Text_0,
            pattern: row[14]->Text_0,
            info: row[15]->Text_0,
            threat_actor: row[16]->Text_0,
            joint_prevention_and_control: row[17]->Text_0,
            display_to_name: row[18]->Text_0,
            display_to_address: row[19]->Text_0,
            display_to_account: row[20]->Text_0,
            display_to_domain: row[21]->Text_0,
            is_deleted: row[22]->UInt8_0,
            updated_at: row[23]->DateTime_0,
            source: SourceType::from_code_spec(row[24]->UInt8_0)->Some_0,
            source_id: row[25]->UInt64_0,
            source_mime_type: row[26]->Text_0,
            parent_source: ParentSourceType::from_code_spec(row[27]->UInt8_0)->Some_0,
            scan_time_us: row[28]->UInt64_0,
        }
    }

    open spec fn value_error(row: Seq<Cell>) -> Option<DecodeError> {
        if AttributeType::from_code_spec(row[10]->UInt8_0) is None {
            Some(DecodeError::BadValue { column: 10 })
        } else if UrgencyLevel::from_code_spec(row[12]->UInt8_0) is None {
            Some(DecodeError::BadValue { column: 12 })
        } else if SourceType::from_code_spec(row[24]->UInt8_0) is None {
            Some(DecodeError::BadValue { column: 24 })
        } else if ParentSourceType::from_code_spec(row[27]->UInt8_0) is None {
            Some(DecodeError::BadValue { column: 27 })
        } else {
            None
        }
    }

    fn column_names() -> (r: Vec<&'static str>) {
        let mut v: Vec<&'static str> = Vec::new();
        v.push("id");
        v.push("mail_id");
        v.push("timestamp");
        v.push("intelligence_id");
        v.push("description");
        v.push("source_industry");
        v.push("first_discovered_time");
        v.push("last_active_time");
        v.push("intelligence_update_time");
        v.push("intelligence_expiration_time");
        v.push("attribute");
        v.push("intelligence_type");
        v.push("urgency");
        v.push("value");
        v.push("pattern");
        v.push("info");
        v.push("threat_actor");
        v.push("joint_prevention_and_control");
        v.push("display_to_name");
        v.push("display_to_address");
        v.push("display_to_account");
        v.push("display_to_domain");
        v.push("is_deleted");
        v.push("updated_at");
        v.push("source");
        v.push("source_id");
        v.push("source_mime_type");
        v.push("parent_source");
        v.push("scan_time_us");
        proof {
            assert(v@.len() == Self::column_names_spec().len());
        }
        v
    }

    fn column_kind_list() -> (r: Vec<CellKind>) {
        let mut v: Vec<CellKind> = Vec::new();
        v.push(CellKind::UInt64);
        v.push(CellKind::UInt64);
        v.push(CellKind::DateTime);
        v.push(CellKind::Uuid);
        v.push(CellKind::Text);
        v.push(CellKind::Text);
        v.push(CellKind::DateTime);
        v.push(CellKind::DateTime);
        v.push(CellKind::DateTime);
        v.push(CellKind::DateTime);
        v.push(CellKind::UInt8);
        v.push(CellKind::Text);
        v.push(CellKind::UInt8);
        v.push(CellKind::Text);
        v.push(CellKind::Text);
        v.push(CellKind::Text);
        v.push(CellKind::Text);
        v.push(CellKind::Text);
        v.push(CellKind::Text);
        v.push(CellKind::Text);
        v.push(CellKind::Text);
        v.push(CellKind::Text);
        v.push(CellKind::UInt8);
        v.push(CellKind::DateTime);
        v.push(CellKind::UInt8);
        v.push(CellKind::UInt64);
        v.push(CellKind::Text);
        v.push(CellKind::UInt8);
        v.push(CellKind::UInt64);
        v
    }

    fn encode(&self) -> (r: Vec<Cell>) {
        let mut v: Vec<Cell> = Vec::new();
        v.push(Cell::UInt64(self.id));
        v.push(Cell::UInt64(self.mail_id));
        v.push(Cell::DateTime(self.timestamp));
        v.push(Cell::Uuid(self.intelligence_id));
        v.push(Cell::Text(self.description.clone()));
        v.push(Cell::Text(self.source_industry.clone()));
        v.push(Cell::DateTime(self.first_discovered_time));
        v.push(Cell::DateTime(self.last_active_time));
        v.push(Cell::DateTime(self.intelligence_update_time));
        v.push(Cell::DateTime(self.intelligence_expiration_time));
        v.push(Cell::UInt8(self.attribute.code()));
        v.push(Cell::Text(self.intelligence_type.clone()));
        v.push(Cell::UInt8(self.urgency.code()));
        v.push(Cell::Text(self.value.clone()));
        v.push(Cell::Text(self.pattern.clone()));
        v.push(Cell::Text(self.info.clone()));
        v.push(Cell::Text(self.threat_actor.clone()));
        v.push(Cell::Text(self.joint_prevention_and_control.clone()));
        v.push(Cell::Text(self.display_to_name.clone()));
        v.push(Cell::Text(self.display_to_address.clone()));
        v.push(Cell::Text(self.display_to_account.clone()));
        v.push(Cell::Text(self.display_to_domain.clone()));
        v.push(Cell::UInt8(self.is_deleted));
        v.push(Cell::DateTime(self.updated_at));
        v.push(Cell::UInt8(self.source.code()));
        v.push(Cell::UInt64(self.source_id));
        v.push(Cell::Text(self.source_mime_type.clone()));
        v.push(Cell::UInt8(self.parent_source.code()));
        v.push(Cell::UInt64(self.scan_time_us));
        v
    }

    fn decode(row: &Vec<Cell>) -> (r: Result<Self, DecodeError>) {
        let kinds = Self::column_kind_list();
        if let Err(e) = check_shape(row, &kinds) {
            return Err(e);
        }
        let attribute = match AttributeType::from_code(u8_at(row, 10)) {
            Some(x) => x,
            None => {
                return Err(DecodeError::BadValue { column: 10 });
            },
        };
        let urgency = match UrgencyLevel::from_code(u8_at(row, 12)) {
            Some(x) => x,
            None => {
                return Err(DecodeError::BadValue { column: 12 });
            },
        };
        let source = match SourceType::from_code(u8_at(row, 24)) {
            Some(x) => x,
            None => {
                return Err(DecodeError::BadValue { column: 24 });
            },
        };
        let parent_source = match ParentSourceType::from_code(u8_at(row, 27)) {
            Some(x) => x,
            None => {
                return Err(DecodeError::BadValue { column: 27 });
            },
        };
        Ok(AlertIntelligence {
            id: u64_at(row, 0),
            mail_id: u64_at(row, 1),
            timestamp: datetime_at(row, 2),
            intelligence_id: uuid_at(row, 3),
            description: text_at(row, 4),
            source_industry: text_at(row, 5),
            first_discovered_time: datetime_at(row, 6),
            last_active_time: datetime_at(row, 7),
            intelligence_update_time: datetime_at(row, 8),
            intelligence_expiration_time: datetime_at(row, 9),
            attribute,
            intelligence_type: text_at(row, 11),
            urgency,
            value: text_at(row, 13),
            pattern: text_at(row, 14),
            info: text_at(row, 15),
            threat_actor: text_at(row, 16),
            joint_prevention_and_control: text_at(row, 17),
            display_to_name: text_at(row, 18),
            display_to_address: text_at(row, 19),
            display_to_account: text_at(row, 20),
            display_to_domain: text_at(row, 21),
            is_deleted: u8_at(row, 22),
            updated_at: datetime_at(row, 23),
            source,
            source_id: u64_at(row, 25),
            source_mime_type: text_at(row, 26),
            parent_source,
            scan_time_us: u64_at(row, 28),
        })
    }

    proof fn lemma_cells_fit(x: Self) {
        reveal_with_fuel(first_mismatch, 31);
        assert(x.to_cells().len() == 29);
        assert(Self::from_cells(x.to_cells()) == x);
    }

}

/// Metadata of one scanned email: one row of `data_mail_info`.
#[derive(Debug, Clone, PartialEq, Eq)]
pub struct DataMailInfo {
    pub id: u64,
    pub action: ActionType,
    pub timestamp: i64,
    pub send_time: i64,
    pub subject: String,
    pub bcc_name: String,
    pub bcc_email: String,
    pub bcc_email_account: String,
    pub bcc_email_domain: String,
    pub display_from: String,
    pub display_to_name: String,
    pub display_to_address: String,
    pub display_to_account: String,
    pub display_to_domain: String,
    pub config: String,
    pub sasl_login: String,
    pub sasl_method: String,
    pub client_ip: String,
    pub client_ptr: String,
    pub client_port: i32,
    pub client_helo: String,
    pub client_active_connections: i32,
    pub client_envelope_from_name: String,
    pub client_envelope_from_address: String,
    pub client_envelope_from_account: String,
    pub client_envelope_from_domain: String,
    pub client_envelope_to_name: String,
    pub client_envelope_to_address: String,
    pub client_envelope_to_account: String,
    pub client_envelope_to_domain: String,
    pub tls: String,
    pub server: String,
    pub protocol_version: String,
    pub text_body: String,
    pub html_body: String,
    pub deconstruction_modules: String,
    pub detection_modules: String,
    pub hash_sha1: String,
    pub hash_sha256: String,
    pub hash_md5: String,
    pub direction: String,
    pub protocol_check: String,
    pub extract_password: String,
}

impl Row for DataMailInfo {
    open spec fn column_names_spec() -> Seq<Seq<char>> {
        seq!["id"@, "action"@, "timestamp"@, "send_time"@, "subject"@, "bcc_name"@, "bcc_email"@, "bcc_email_account"@, "bcc_email_domain"@, "display_from"@, "display_to_name"@, "display_to_address"@, "display_to_account"@, "display_to_domain"@, "config"@, "sasl_login"@, "sasl_method"@, "client_ip"@, "client_ptr"@, "client_port"@, "client_helo"@, "client_active_connections"@, "client_envelope_from_name"@, "client_envelope_from_address"@, "client_envelope_from_account"@, "client_envelope_from_domain"@, "client_envelope_to_name"@, "client_envelope_to_address"@, "client_envelope_to_account"@, "client_envelope_to_domain"@, "tls"@, "server"@, "protocol_version"@, "text_body"@, "html_body"@, "deconstruction_modules"@, "detection_modules"@, "hash_sha1"@, "hash_sha256"@, "hash_md5"@, "direction"@, "protocol_check"@, "extract_password"@]
    }

    open spec fn column_kinds() -> Seq<CellKind> {
        seq![CellKind::UInt64, CellKind::UInt8, CellKind::DateTime, CellKind::DateTime, CellKind::Text, CellKind::Text, CellKind::Text, CellKind::Text, CellKind::Text, CellKind::Text, CellKind::Text, CellKind::Text, CellKind::Text, CellKind::Text, CellKind::Text, CellKind::Text, CellKind::Text, CellKind::Text, CellKind::Text, CellKind::Int32, CellKind::Text, CellKind::Int32, CellKind::Text, CellKind::Text, CellKind::Text, CellKind::Text, CellKind::Text, CellKind::Text, CellKind::Text, CellKind::Text, CellKind::Text, CellKind::Text, CellKind::Text, CellKind::Text, CellKind::Text, CellKind::Text, CellKind::Text, CellKind::Text, CellKind::Text, CellKind::Text, CellKind::Text, CellKind::Text, CellKind::Text]
    }

    open spec fn to_cells(self) -> Seq<Cell> {
        seq![
            Cell::UInt64(self.id),
            Cell::UInt8(self.action.code_spec()),
            Cell::DateTime(self.timestamp),
            Cell::DateTime(self.send_time),
            Cell::Text(self.subject),
            Cell::Text(self.bcc_name),
            Cell::Text(self.bcc_email),
            Cell::Text(self.bcc_email_account),
            Cell::Text(self.bcc_email_domain),
            Cell::Text(self.display_from),
            Cell::Text(self.display_to_name),
            Cell::Text(self.display_to_address),
            Cell::Text(self.display_to_account),
            Cell::Text(self.display_to_domain),
            Cell::Text(self.config),
            Cell::Text(self.sasl_login),
            Cell::Text(self.sasl_method),
            Cell::Text(self.client_ip),
            Cell::Text(self.client_ptr),
            Cell::Int32(self.client_port),
            Cell::Text(self.client_helo),
            Cell::Int32(self.client_active_connections),
            Cell::Text(self.client_envelope_from_name),
            Cell::Text(self.client_envelope_from_address),
            Cell::Text(self.client_envelope_from_account),
            Cell::Text(self.client_envelope_from_domain),
            Cell::Text(self.client_envelope_to_name),
            Cell::Text(self.client_envelope_to_address),
            Cell::Text(self.client_envelope_to_account),
            Cell::Text(self.client_envelope_to_domain),
            Cell::Text(self.tls),
            Cell::Text(self.server),
            Cell::Text(self.protocol_version),
            Cell::Text(self.text_body),
            Cell::Text(self.html_body),
            Cell::Text(self.deconstruction_modules),
            Cell::Text(self.detection_modules),
            Cell::Text(self.hash_sha1),
            Cell::Text(self.hash_sha256),
            Cell::Text(self.hash_md5),
            Cell::Text(self.direction),
            Cell::Text(self.protocol_check),
            Cell::Text(self.extract_password),
        ]
    }

    open spec fn from_cells(row: Seq<Cell>) -> Self {
        DataMailInfo {
            id: row[0]->UInt64_0,
            action: ActionType::from_code_spec(row[1]->UInt8_0)->Some_0,
            timestamp: row[2]->DateTime_0,
            send_time: row[3]->DateTime_0,
            subject: row[4]->Text_0,
            bcc_name: row[5]->Text_0,
            bcc_email: row[6]->Text_0,
            bcc_email_account: row[7]->Text_0,
            bcc_email_domain: row[8]->Text_0,
            display_from: row[9]->Text_0,
            display_to_name: row[10]->Text_0,
            display_to_address: row[11]->Text_0,
            display_to_account: row[12]->Text_0,
            display_to_domain: row[13]->Text_0,
            config: row[14]->Text_0,
            sasl_login: row[15]->Text_0,
            sasl_method: row[16]->Text_0,
            client_ip: row[17]->Text_0,
            client_ptr: row[18]->Text_0,
            client_port: row[19]->Int32_0,
            client_helo: row[20]->Text_0,
            client_active_connections: row[21]->Int32_0,
            client_envelope_from_name: row[22]->Text_0,
            client_envelope_from_address: row[23]->Text_0,
            client_envelope_from_account: row[24]->Text_0,
            client_envelope_from_domain: row[25]->Text_0,
            client_envelope_to_name: row[26]->Text_0,
            client_envelope_to_address: row[27]->Text_0,
            client_envelope_to_account: row[28]->Text_0,
            client_envelope_to_domain: row[29]->Text_0,
            tls: row[30]->Text_0,
            server: row[31]->Text_0,
            protocol_version: row[32]->Text_0,
            text_body: row[33]->Text_0,
            html_body: row[34]->Text_0,
            deconstruction_modules: row[35]->Text_0,
            detection_modules: row[36]->Text_0,
            hash_sha1: row[37]->Text_0,
            hash_sha256: row[38]->Text_0,
            hash_md5: row[39]->Text_0,
            direction: row[40]->Text_0,
            protocol_check: row[41]->Text_0,
            extract_password: row[42]->Text_0,
        }
    }

    open spec fn value_error(row: Seq<Cell>) -> Option<DecodeError> {
        if ActionType::from_code_spec(row[1]->UInt8_0) is None {
            Some(DecodeError::BadValue { column: 1 })
        } else {
            None
        }
    }

    fn column_names() -> (r: Vec<&'static str>) {
        let mut v: Vec<&'static str> = Vec::new();
        v.push("id");
        v.push("action");
        v.push("timestamp");
        v.push("send_time");
        v.push("subject");
        v.push("bcc_name");
        v.push("bcc_email");
        v.push("bcc_email_account");
        v.push("bcc_email_domain");
        v.push("display_from");
        v.push("display_to_name");
        v.push("display_to_address");
        v.push("display_to_account");
        v.push("display_to_domain");
        v.push("config");
        v.push("sasl_login");
        v.push("sasl_method");
        v.push("client_ip");
        v.push("client_ptr");
        v.push("client_port");
        v.push("client_helo");
        v.push("client_active_connections");
        v.push("client_envelope_from_name");
        v.push("client_envelope_from_address");
        v.push("client_envelope_from_account");
        v.push("client_envelope_from_domain");
        v.push("client_envelope_to_name");
        v.push("client_envelope_to_address");
        v.push("client_envelope_to_account");
        v.push("client_envelope_to_domain");
        v.push("tls");
        v.push("server");
        v.push("protocol_version");
        v.push("text_body");
        v.push("html_body");
        v.push("deconstruction_modules");
        v.push("detection_modules");
        v.push("hash_sha1");
        v.push("hash_sha256");
        v.push("hash_md5");
        v.push("direction");
        v.push("protocol_check");
        v.push("extract_password");
        proof {
            assert(v@.len() == Self::column_names_spec().len());
        }
        v
    }

    fn column_kind_list() -> (r: Vec<CellKind>) {
        let mut v: Vec<CellKind> = Vec::new();
        v.push(CellKind::UInt64);
        v.push(CellKind::UInt8);
        v.push(CellKind::DateTime);
        v.push(CellKind::DateTime);
        v.push(CellKind::Text);
        v.push(CellKind::Text);
        v.push(CellKind::Text);
        v.push(CellKind::Text);
        v.push(CellKind::Text);
        v.push(CellKind::Text);
        v.push(CellKind::Text);
        v.push(CellKind::Text);
        v.push(CellKind::Text);
        v.push(CellKind::Text);
        v.push(CellKind::Text);
        v.push(CellKind::Text);
        v.push(CellKind::Text);
        v.push(CellKind::Text);
        v.push(CellKind::Text);
        v.push(CellKind::Int32);
        v.push(CellKind::Text);
        v.push(CellKind::Int32);
        v.push(CellKind::Text);
        v.push(CellKind::Text);
        v.push(CellKind::Text);
        v.push(CellKind::Text);
        v.push(CellKind::Text);
        v.push(CellKind::Text);
        v.push(CellKind::Text);
        v.push(CellKind::Text);
        v.push(CellKind::Text);
        v.push(CellKind::Text);
        v.push(CellKind::Text);
        v.push(CellKind::Text);
        v.push(CellKind::Text);
        v.push(CellKind::Text);
        v.push(CellKind::Text);
        v.push(CellKind::Text);
        v.push(CellKind::Text);
        v.push(CellKind::Text);
        v.push(CellKind::Text);
        v.push(CellKind::Text);
        v.push(CellKind::Text);
        v
    }

    fn encode(&self) -> (r: Vec<Cell>) {
        let mut v: Vec<Cell> = Vec::new();
        v.push(Cell::UInt64(self.id));
        v.push(Cell::UInt8(self.action.code()));
        v.push(Cell::DateTime(self.timestamp));
        v.push(Cell::DateTime(self.send_time));
        v.push(Cell::Text(self.subject.clone()));
        v.push(Cell::Text(self.bcc_name.clone()));
        v.push(Cell::Text(self.bcc_email.clone()));
        v.push(Cell::Text(self.bcc_email_account.clone()));
        v.push(Cell::Text(self.bcc_email_domain.clone()));
        v.push(Cell::Text(self.display_from.clone()));
        v.push(Cell::Text(self.display_to_name.clone()));
        v.push(Cell::Text(self.display_to_address.clone()));
        v.push(Cell::Text(self.display_to_account.clone()));
        v.push(Cell::Text(self.display_to_domain.clone()));
        v.push(Cell::Text(self.config.clone()));
        v.push(Cell::Text(self.sasl_login.clone()));
        v.push(Cell::Text(self.sasl_method.clone()));
        v.push(Cell::Text(self.client_ip.clone()));
        v.push(Cell::Text(self.client_ptr.clone()));
        v.push(Cell::Int32(self.client_port));
        v.push(Cell::Text(self.client_helo.clone()));
        v.push(Cell::Int32(self.client_active_connections));
        v.push(Cell::Text(self.client_envelope_from_name.clone()));
        v.push(Cell::Text(self.client_envelope_from_address.clone()));
        v.push(Cell::Text(self.client_envelope_from_account.clone()));
        v.push(Cell::Text(self.client_envelope_from_domain.clone()));
        v.push(Cell::Text(self.client_envelope_to_name.clone()));
        v.push(Cell::Text(self.client_envelope_to_address.clone()));
        v.push(Cell::Text(self.client_envelope_to_account.clone()));
        v.push(Cell::Text(self.client_envelope_to_domain.clone()));
        v.push(Cell::Text(self.tls.clone()));
        v.push(Cell::Text(self.server.clone()));
        v.push(Cell::Text(self.protocol_version.clone()));
        v.push(Cell::Text(self.text_body.clone()));
        v.push(Cell::Text(self.html_body.clone()));
        v.push(Cell::Text(self.deconstruction_modules.clone()));
        v.push(Cell::Text(self.detection_modules.clone()));
        v.push(Cell::Text(self.hash_sha1.clone()));
        v.push(Cell::Text(self.hash_sha256.clone()));
        v.push(Cell::Text(self.hash_md5.clone()));
        v.push(Cell::Text(self.direction.clone()));
        v.push(Cell::Text(self.protocol_check.clone()));
        v.push(Cell::Text(self.extract_password.clone()));
        v
    }

    fn decode(row: &Vec<Cell>) -> (r: Result<Self, DecodeError>) {
        let kinds = Self::column_kind_list();
        if let Err(e) = check_shape(row, &kinds) {
            return Err(e);
        }
        let action = match ActionType::from_code(u8_at(row, 1)) {
            Some(x) => x,
            None => {
                return Err(DecodeError::BadValue { column: 1 });
            },
        };
        Ok(DataMailInfo {
            id: u64_at(row, 0),
            action,
            timestamp: datetime_at(row, 2),
            send_time: datetime_at(row, 3),
            subject: text_at(row, 4),
            bcc_name: text_at(row, 5),
            bcc_email: text_at(row, 6),
            bcc_email_account: text_at(row, 7),
            bcc_email_domain: text_at(row, 8),
            display_from: text_at(row, 9),
            display_to_name: text_at(row, 10),
            display_to_address: text_at(row, 11),
            display_to_account: text_at(row, 12),
            display_to_domain: text_at(row, 13),
            config: text_at(row, 14),
            sasl_login: text_at(row, 15),
            sasl_method: text_at(row, 16),
            client_ip: text_at(row, 17),
            client_ptr: text_at(row, 18),
            client_port: i32_at(row, 19),
            client_helo: text_at(row, 20),
            client_active_connections: i32_at(row, 21),
            client_envelope_from_name: text_at(row, 22),
            client_envelope_from_address: text_at(row, 23),
            client_envelope_from_account: text_at(row, 24),
            client_envelope_from_domain: text_at(row, 25),
            client_envelope_to_name: text_at(row, 26),
            client_envelope_to_address: text_at(row, 27),
            client_envelope_to_account: text_at(row, 28),
            client_envelope_to_domain: text_at(row, 29),
            tls: text_at(row, 30),
            server: text_at(row, 31),
            protocol_version: text_at(row, 32),
            text_body: text_at(row, 33),
            html_body: text_at(row, 34),
            deconstruction_modules: text_at(row, 35),
            detection_modules: text_at(row, 36),
            hash_sha1: text_at(row, 37),
            hash_sha256: text_at(row, 38),
            hash_md5: text_at(row, 39),
            direction: text_at(row, 40),
            protocol_check: text_at(row, 41),
            extract_password: text_at(row, 42),
        })
    }

    proof fn lemma_cells_fit(x: Self) {
        reveal_with_fuel(first_mismatch, 45);
        assert(x.to_cells().len() == 43);
        assert(Self::from_cells(x.to_cells()) == x);
    }

}

/// The single count returned by a counting query.
#[derive(Debug, Clone, PartialEq, Eq)]
pub struct CountResult {
    pub count: u64,
}

impl Row for CountResult {
    open spec fn column_names_spec() -> Seq<Seq<char>> {
        seq!["count"@]
    }

    open spec fn column_kinds() -> Seq<CellKind> {
        seq![CellKind::UInt64]
    }

    open spec fn to_cells(self) -> Seq<Cell> {
        seq![
            Cell::UInt64(self.count),
        ]
    }

    open spec fn from_cells(row: Seq<Cell>) -> Self {
        CountResult {
            count: row[0]->UInt64_0,
        }
    }

    open spec fn value_error(row: Seq<Cell>) -> Option<DecodeError> {
        None
    }

    fn column_names() -> (r: Vec<&'static str>) {
        let mut v: Vec<&'static str> = Vec::new();
        v.push("count");
        proof {
            assert(v@.len() == Self::column_names_spec().len());
        }
        v
    }

    fn column_kind_list() -> (r: Vec<CellKind>) {
        let mut v: Vec<CellKind> = Vec::new();
        v.push(CellKind::UInt64);
        v
    }

    fn encode(&self) -> (r: Vec<Cell>) {
        let mut v: Vec<Cell> = Vec::new();
        v.push(Cell::UInt64(self.count));
        v
    }

    fn decode(row: &Vec<Cell>) -> (r: Result<Self, DecodeError>) {
        let kinds = Self::column_kind_list();
        if let Err(e) = check_shape(row, &kinds) {
            return Err(e);
        }
        Ok(CountResult {
            count: u64_at(row, 0),
        })
    }

    proof fn lemma_cells_fit(x: Self) {
        reveal_with_fuel(first_mismatch, 3);
        assert(x.to_cells().len() == 1);
        assert(Self::from_cells(x.to_cells()) == x);
    }

}

/// A user event with its JSON payload.
#[derive(Debug, Clone, PartialEq, Eq)]
pub struct UserEvent {
    pub event_id: u128,
    pub user_id: u64,
    pub event_type: String,
    pub payload: String,
    pub timestamp: i64,
    pub ip_address: Option<String>,
    pub user_agent: Option<String>,
}

impl Row for UserEvent {
    open spec fn column_names_spec() -> Seq<Seq<char>> {
        seq!["event_id"@, "user_id"@, "event_type"@, "payload"@, "timestamp"@, "ip_address"@, "user_agent"@]
    }

    open spec fn column_kinds() -> Seq<CellKind> {
        seq![CellKind::Uuid, CellKind::UInt64, CellKind::Text, CellKind::Text, CellKind::DateTime, CellKind::NullableText, CellKind::NullableText]
    }

    open spec fn to_cells(self) -> Seq<Cell> {
        seq![
            Cell::Uuid(self.event_id),
            Cell::UInt64(self.user_id),
            Cell::Text(self.event_type),
            Cell::Text(self.payload),
            Cell::DateTime(self.timestamp),
            Cell::NullableText(self.ip_address),
            Cell::NullableText(self.user_agent),
        ]
    }

    open spec fn from_cells(row: Seq<Cell>) -> Self {
        UserEvent {
            event_id: row[0]->Uuid_0,
            user_id: row[1]->UInt64_0,
            event_type: row[2]->Text_0,
            payload: row[3]->Text_0,
            timestamp: row[4]->DateTime_0,
            ip_address: row[5]->NullableText_0,
            user_agent: row[6]->NullableText_0,
        }
    }

    open spec fn value_error(row: Seq<Cell>) -> Option<DecodeError> {
        None
    }

    fn column_names() -> (r: Vec<&'static str>) {
        let mut v: Vec<&'static str> = Vec::new();
        v.push("event_id");
        v.push("user_id");
        v.push("event_type");
        v.push("payload");
        v.push("timestamp");
        v.push("ip_address");
        v.push("user_agent");
        proof {
            assert(v@.len() == Self::column_names_spec().len());
        }
        v
    }

    fn column_kind_list() -> (r: Vec<CellKind>) {
        let mut v: Vec<CellKind> = Vec::new();
        v.push(CellKind::Uuid);
        v.push(CellKind::UInt64);
        v.push(CellKind::Text);
        v.push(CellKind::Text);
        v.push(CellKind::DateTime);
        v.push(CellKind::NullableText);
        v.push(CellKind::NullableText);
        v
    }

    fn encode(&self) -> (r: Vec<Cell>) {
        let mut v: Vec<Cell> = Vec::new();
        v.push(Cell::Uuid(self.event_id));
        v.push(Cell::UInt64(self.user_id));
        v.push(Cell::Text(self.event_type.clone()));
        v.push(Cell::Text(self.payload.clone()));
        v.push(Cell::DateTime(self.timestamp));
        v.push(Cell::NullableText(copy_nullable(&self.ip_address)));
        v.push(Cell::NullableText(copy_nullable(&self.user_agent)));
        v
    }

    fn decode(row: &Vec<Cell>) -> (r: Result<Self, DecodeError>) {
        let kinds = Self::column_kind_list();
        if let Err(e) = check_shape(row, &kinds) {
            return Err(e);
        }
        Ok(UserEvent {
            event_id: uuid_at(row, 0),
            user_id: u64_at(row, 1),
            event_type: text_at(row, 2),
            payload: text_at(row, 3),
            timestamp: datetime_at(row, 4),
            ip_address: nullable_text_at(row, 5),
            user_agent: nullable_text_at(row, 6),
        })
    }

    proof fn lemma_cells_fit(x: Self) {
        reveal_with_fuel(first_mismatch, 9);
        assert(x.to_cells().len() == 7);
        assert(Self::from_cells(x.to_cells()) == x);
    }

}

/// One row of the intelligence listing view: an item with its hit counts and flags.
#[derive(Debug, Clone, PartialEq, Eq)]
pub struct IntelligenceRow {
    pub id: u128,
    pub intelligence_id: u128,
    pub value: String,
    pub description: String,
    pub intelligence_type: IntelligenceType,
    pub sub_type: String,
    pub source: IntelligenceSource,
    pub urgency: Urgency,
    pub hit_emails: i32,
    pub impact_users: i32,
    pub first_found_time: i64,
    pub latest_hits_time: i64,
    pub is_white: u8,
    pub is_black: u8,
    pub is_reported: u8,
    pub attacked_industry: i32,
    pub contribution_industry: String,
}

impl Row for IntelligenceRow {
    open spec fn column_names_spec() -> Seq<Seq<char>> {
        seq!["id"@, "intelligence_id"@, "value"@, "description"@, "intelligence_type"@, "sub_type"@, "source"@, "urgency"@, "hit_emails"@, "impact_users"@, "first_found_time"@, "latest_hits_time"@, "is_white"@, "is_black"@, "is_reported"@, "attacked_industry"@, "contribution_industry"@]
    }

    open spec fn column_kinds() -> Seq<CellKind> {
        seq![CellKind::Uuid, CellKind::Uuid, CellKind::Text, CellKind::Text, CellKind::UInt8, CellKind::Text, CellKind::UInt8, CellKind::UInt8, CellKind::Int32, CellKind::Int32, CellKind::DateTime, CellKind::DateTime, CellKind::UInt8, CellKind::UInt8, CellKind::UInt8, CellKind::Int32, CellKind::Text]
    }

    open spec fn to_cells(self) -> Seq<Cell> {
        seq![
            Cell::Uuid(self.id),
            Cell::Uuid(self.intelligence_id),
            Cell::Text(self.value),
            Cell::Text(self.description),
            Cell::UInt8(self.intelligence_type.code_spec()),
            Cell::Text(self.sub_type),
            Cell::UInt8(self.source.code_spec()),
            Cell::UInt8(self.urgency.code_spec()),
            Cell::Int32(self.hit_emails),
            Cell::Int32(self.impact_users),
            Cell::DateTime(self.first_found_time),
            Cell::DateTime(self.latest_hits_time),
            Cell::UInt8(self.is_white),
            Cell::UInt8(self.is_black),
            Cell::UInt8(self.is_reported),
            Cell::Int32(self.attacked_industry),
            Cell::Text(self.contribution_industry),
        ]
    }

    open spec fn from_cells(row: Seq<Cell>) -> Self {
        IntelligenceRow {
            id: row[0]->Uuid_0,
            intelligence_id: row[1]->Uuid_0,
            value: row[2]->Text_0,
            description: row[3]->Text_0,
            intelligence_type: IntelligenceType::from_code_spec(row[4]->UInt8_0)->Some_0,
            sub_type: row[5]->Text_0,
            source: IntelligenceSource::from_code_spec(row[6]->UInt8_0)->Some_0,
            urgency: Urgency::from_code_spec(row[7]->UInt8_0)->Some_0,
            hit_emails: row[8]->Int32_0,
            impact_users: row[9]->Int32_0,
            first_found_time: row[10]->DateTime_0,
            latest_hits_time: row[11]->DateTime_0,
            is_white: row[12]->UInt8_0,
            is_black: row[13]->UInt8_0,
            is_reported: row[14]->UInt8_0,
            attacked_industry: row[15]->Int32_0,
            contribution_industry: row[16]->Text_0,
        }
    }

    open spec fn value_error(row: Seq<Cell>) -> Option<DecodeError> {
        if IntelligenceType::from_code_spec(row[4]->UInt8_0) is None {
            Some(DecodeError::BadValue { column: 4 })
        } else if IntelligenceSource::from_code_spec(row[6]->UInt8_0) is None {
            Some(DecodeError::BadValue { column: 6 })
        } else if Urgency::from_code_spec(row[7]->UInt8_0) is None {
            Some(DecodeError::BadValue { column: 7 })
        } else {
            None
        }
    }

    fn column_names() -> (r: Vec<&'static str>) {
        let mut v: Vec<&'static str> = Vec::new();
        v.push("id");
        v.push("intelligence_id");
        v.push("value");
        v.push("description");
        v.push("intelligence_type");
        v.push("sub_type");
        v.push("source");
        v.push("urgency");
        v.push("hit_emails");
        v.push("impact_users");
        v.push("first_found_time");
        v.push("latest_hits_time");
        v.push("is_white");
        v.push("is_black");
        v.push("is_reported");
        v.push("attacked_industry");
        v.push("contribution_industry");
        proof {
            assert(v@.len() == Self::column_names_spec().len());
        }
        v
    }

    fn column_kind_list() -> (r: Vec<CellKind>) {
        let mut v: Vec<CellKind> = Vec::new();
        v.push(CellKind::Uuid);
        v.push(CellKind::Uuid);
        v.push(CellKind::Text);
        v.push(CellKind::Text);
        v.push(CellKind::UInt8);
        v.push(CellKind::Text);
        v.push(CellKind::UInt8);
        v.push(CellKind::UInt8);
        v.push(CellKind::Int32);
        v.push(CellKind::Int32);
        v.push(CellKind::DateTime);
        v.push(CellKind::DateTime);
        v.push(CellKind::UInt8);
        v.push(CellKind::UInt8);
        v.push(CellKind::UInt8);
        v.push(CellKind::Int32);
        v.push(CellKind::Text);
        v
    }

    fn encode(&self) -> (r: Vec<Cell>) {
        let mut v: Vec<Cell> = Vec::new();
        v.push(Cell::Uuid(self.id));
        v.push(Cell::Uuid(self.intelligence_id));
        v.push(Cell::Text(self.value.clone()));
        v.push(Cell::Text(self.description.clone()));
        v.push(Cell::UInt8(self.intelligence_type.code()));
        v.push(Cell::Text(self.sub_type.clone()));
        v.push(Cell::UInt8(self.source.code()));
        v.push(Cell::UInt8(self.urgency.code()));
        v.push(Cell::Int32(self.hit_emails));
        v.push(Cell::Int32(self.impact_users));
        v.push(Cell::DateTime(self.first_found_time));
        v.push(Cell::DateTime(self.latest_hits_time));
        v.push(Cell::UInt8(self.is_white));
        v.push(Cell::UInt8(self.is_black));
        v.push(Cell::UInt8(self.is_reported));
        v.push(Cell::Int32(self.attacked_industry));
        v.push(Cell::Text(self.contribution_industry.clone()));
        v
    }

    fn decode(row: &Vec<Cell>) -> (r: Result<Self, DecodeError>) {
        let kinds = Self::column_kind_list();
        if let Err(e) = check_shape(row, &kinds) {
            return Err(e);
        }
        let intelligence_type = match IntelligenceType::from_code(u8_at(row, 4)) {
            Some(x) => x,
            None => {
                return Err(DecodeError::BadValue { column: 4 });
            },
        };
        let source = match IntelligenceSource::from_code(u8_at(row, 6)) {
            Some(x) => x,
            None => {
                return Err(DecodeError::BadValue { column: 6 });
            },
        };
        let urgency = match Urgency::from_code(u8_at(row, 7)) {
            Some(x) => x,
            None => {
                return Err(DecodeError::BadValue { column: 7 });
            },
        };
        Ok(IntelligenceRow {
            id: uuid_at(row, 0),
            intelligence_id: uuid_at(row, 1),
            value: text_at(row, 2),
            description: text_at(row, 3),
            intelligence_type,
            sub_type: text_at(row, 5),
            source,
            urgency,
            hit_emails: i32_at(row, 8),
            impact_users: i32_at(row, 9),
            first_found_time: datetime_at(row, 10),
            latest_hits_time: datetime_at(row, 11),
            is_white: u8_at(row, 12),
            is_black: u8_at(row, 13),
            is_reported: u8_at(row, 14),
            attacked_industry: i32_at(row, 15),
            contribution_industry: text_at(row, 16),
        })
    }

    proof fn lemma_cells_fit(x: Self) {
        reveal_with_fuel(first_mismatch, 19);
        assert(x.to_cells().len() == 17);
        assert(Self::from_cells(x.to_cells()) == x);
    }

}

/// A stored analysis result with its JSON data and parameters.
#[derive(Debug, Clone, PartialEq, Eq)]
pub struct AnalysisResult {
    pub result_id: u128,
    pub analysis_name: String,
    pub result_data: String,
    pub created_at: i64,
    pub updated_at: i64,
    pub parameters: Option<String>,
}

impl Row for AnalysisResult {
    open spec fn column_names_spec() -> Seq<Seq<char>> {
        seq!["result_id"@, "analysis_name"@, "result_data"@, "created_at"@, "updated_at"@, "parameters"@]
    }

    open spec fn column_kinds() -> Seq<CellKind> {
        seq![CellKind::Uuid, CellKind::Text, CellKind::Text, CellKind::DateTime, CellKind::DateTime, CellKind::NullableText]
    }

    open spec fn to_cells(self) -> Seq<Cell> {
        seq![
            Cell::Uuid(self.result_id),
            Cell::Text(self.analysis_name),
            Cell::Text(self.result_data),
            Cell::DateTime(self.created_at),
            Cell::DateTime(self.updated_at),
            Cell::NullableText(self.parameters),
        ]
    }

    open spec fn from_cells(row: Seq<Cell>) -> Self {
        AnalysisResult {
            result_id: row[0]->Uuid_0,
            analysis_name: row[1]->Text_0,
            result_data: row[2]->Text_0,
            created_at: row[3]->DateTime_0,
            updated_at: row[4]->DateTime_0,
            parameters: row[5]->NullableText_0,
        }
    }

    open spec fn value_error(row: Seq<Cell>) -> Option<DecodeError> {
        None
    }

    fn column_names() -> (r: Vec<&'static str>) {
        let mut v: Vec<&'static str> = Vec::new();
        v.push("result_id");
        v.push("analysis_name");
        v.push("result_data");
        v.push("created_at");
        v.push("updated_at");
        v.push("parameters");
        proof {
            assert(v@.len() == Self::column_names_spec().len());
        }
        v
    }

    fn column_kind_list() -> (r: Vec<CellKind>) {
        let mut v: Vec<CellKind> = Vec::new();
        v.push(CellKind::Uuid);
        v.push(CellKind::Text);
        v.push(CellKind::Text);
        v.push(CellKind::DateTime);
        v.push(CellKind::DateTime);
        v.push(CellKind::NullableText);
        v
    }

    fn encode(&self) -> (r: Vec<Cell>) {
        let mut v: Vec<Cell> = Vec::new();
        v.push(Cell::Uuid(self.result_id));
        v.push(Cell::Text(self.analysis_name.clone()));
        v.push(Cell::Text(self.result_data.clone()));
        v.push(Cell::DateTime(self.created_at));
        v.push(Cell::DateTime(self.updated_at));
        v.push(Cell::NullableText(copy_nullable(&self.parameters)));
        v
    }

    fn decode(row: &Vec<Cell>) -> (r: Result<Self, DecodeError>) {
        let kinds = Self::column_kind_list();
        if let Err(e) = check_shape(row, &kinds) {
            return Err(e);
        }
        Ok(AnalysisResult {
            result_id: uuid_at(row, 0),
            analysis_name: text_at(row, 1),
            result_data: text_at(row, 2),
            created_at: datetime_at(row, 3),
            updated_at: datetime_at(row, 4),
            parameters: nullable_text_at(row, 5),
        })
    }

    proof fn lemma_cells_fit(x: Self) {
        reveal_with_fuel(first_mismatch, 8);
        assert(x.to_cells().len() == 6);
        assert(Self::from_cells(x.to_cells()) == x);
    }

}

} // verus!
