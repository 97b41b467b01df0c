//! Intelligence items and the filter that lists them.

use vstd::prelude::*;

verus! {

/// Where an intelligence item comes from.
#[derive(Debug, Clone, Copy, PartialEq, Eq, Hash, Structural)]
pub enum SourceType {
    /// Produced locally.
    Local,
    /// Received from the cloud feed.
    Cloud,
}

impl SourceType {
    /// Human-readable label of the source.
    pub fn label(&self) -> (r: &'static str)
        ensures
            *self == SourceType::Local ==> r@ == "本地情报"@,
            *self == SourceType::Cloud ==> r@ == "云端情报"@,
    {
        match self {
            SourceType::Local => "本地情报",
            SourceType::Cloud => "云端情报",
        }
    }
}

/// Main kind of an intelligence item.
#[derive(Debug, Clone, Copy, PartialEq, Eq, Hash, Structural)]
pub enum IntelligenceType {
    Account,
    Domain,
    Url,
    File,
}

/// Sub-kinds of account intelligence.
#[derive(Debug, Clone, Copy, PartialEq, Eq, Hash, Structural)]
pub enum AccountSubType {
    Puppet,
    Invalid,
    Fake,
    BrandImitation,
    Anonymous,
    Abuse,
    Apt,
    BlackIndustry,
}

impl AccountSubType {
    /// Display label of the sub-kind.
    pub fn as_ref(&self) -> (r: &'static str)
        ensures
            *self == AccountSubType::Puppet ==> r@ == "傀儡账号"@,
            *self == AccountSubType::Invalid ==> r@ == "无效账号"@,
            *self == AccountSubType::Fake ==> r@ == "伪造账号"@,
            *self == AccountSubType::BrandImitation ==> r@ == "品牌仿冒账号"@,
            *self == AccountSubType::Anonymous ==> r@ == "匿名账号"@,
            *self == AccountSubType::Abuse ==> r@ == "滥用账号"@,
            *self == AccountSubType::Apt ==> r@ == "APT账号"@,
            *self == AccountSubType::BlackIndustry ==> r@ == "黑灰产账号"@,
    {
        match self {
            AccountSubType::Puppet => "傀儡账号",
            AccountSubType::Invalid => "无效账号",
            AccountSubType::Fake => "伪造账号",
            AccountSubType::BrandImitation => "品牌仿冒账号",
            AccountSubType::Anonymous => "匿名账号",
            AccountSubType::Abuse => "滥用账号",
            AccountSubType::Apt => "APT账号",
            AccountSubType::BlackIndustry => "黑灰产账号",
        }
    }
}

/// Sub-kinds of domain intelligence.
#[derive(Debug, Clone, Copy, PartialEq, Eq, Hash, Structural)]
pub enum DomainSubType {
    BrandImitation,
    AttackerRegistered,
    AnonymousEmail,
    Invalid,
}

impl DomainSubType {
    /// Display label of the sub-kind.
    pub fn as_ref(&self) -> (r: &'static str)
        ensures
            *self == DomainSubType::BrandImitation ==> r@ == "品牌仿冒域名"@,
            *self == DomainSubType::AttackerRegistered ==> r@ == "攻击者注册的域名"@,
            *self == DomainSubType::AnonymousEmail ==> r@ == "匿名邮箱域名"@,
            *self == DomainSubType::Invalid ==> r@ == "无效域名"@,
    {
        match self {
            DomainSubType::BrandImitation => "品牌仿冒域名",
            DomainSubType::AttackerRegistered => "攻击者注册的域名",
            DomainSubType::AnonymousEmail => "匿名邮箱域名",
            DomainSubType::Invalid => "无效域名",
        }
    }
}

/// Sub-kinds of URL intelligence.
#[derive(Debug, Clone, Copy, PartialEq, Eq, Hash, Structural)]
pub enum UrlSubType {
    Phishing,
    BrandImitation,
    InducedDownload,
}

impl UrlSubType {
    /// Display label of the sub-kind.
    pub fn as_ref(&self) -> (r: &'static str)
        ensures
            *self == UrlSubType::Phishing ==> r@ == "钓鱼欺诈"@,
            *self == UrlSubType::BrandImitation ==> r@ == "品牌仿冒"@,
            *self == UrlSubType::InducedDownload ==> r@ == "诱导下载"@,
    {
        match self {
            UrlSubType::Phishing => "钓鱼欺诈",
            UrlSubType::BrandImitation => "品牌仿冒",
            UrlSubType::InducedDownload => "诱导下载",
        }
    }
}

/// Sub-kinds of file intelligence.
#[derive(Debug, Clone, Copy, PartialEq, Eq, Hash, Structural)]
pub enum FileSubType {
    MaliciousHash,
}

impl FileSubType {
    /// Display label of the sub-kind.
    pub fn as_ref(&self) -> (r: &'static str)
        ensures
            *self == FileSubType::MaliciousHash ==> r@ == "恶意文件HASH"@,
    {
        match self {
            FileSubType::MaliciousHash => "恶意文件HASH",
        }
    }
}

impl IntelligenceType {
    /// The one-byte code of the variant, counting from 1 in declaration order.
    pub open spec fn code_spec(self) -> u8 {
        match self {
            IntelligenceType::Account => 1,
            IntelligenceType::Domain => 2,
            IntelligenceType::Url => 3,
            IntelligenceType::File => 4,
        }
    }

    /// The variant with the given code, if any.
    pub open spec fn from_code_spec(c: u8) -> Option<Self> {
        if c == 1 {
            Some(IntelligenceType::Account)
        } else if c == 2 {
            Some(IntelligenceType::Domain)
        } else if c == 3 {
            Some(IntelligenceType::Url)
        } else if c == 4 {
            Some(IntelligenceType::File)
        } else {
            None
        }
    }

    /// The one-byte code of the variant.
    pub fn code(&self) -> (r: u8)
        ensures
            r == self.code_spec(),
            Self::from_code_spec(r) == Some(*self),
    {
        match self {
            IntelligenceType::Account => 1,
            IntelligenceType::Domain => 2,
            IntelligenceType::Url => 3,
            IntelligenceType::File => 4,
        }
    }

    /// The variant with the given code, if any.
    pub fn from_code(c: u8) -> (r: Option<Self>)
        ensures
            r == Self::from_code_spec(c),
    {
        if c == 1 {
            Some(IntelligenceType::Account)
        } else if c == 2 {
            Some(IntelligenceType::Domain)
        } else if c == 3 {
            Some(IntelligenceType::Url)
        } else if c == 4 {
            Some(IntelligenceType::File)
        } else {
            None
        }
    }

}

impl SourceType {
    /// The one-byte code of the variant, counting from 1 in declaration order.
    pub open spec fn code_spec(self) -> u8 {
        match self {
            SourceType::Local => 1,
            SourceType::Cloud => 2,
        }
    }

    /// The variant with the given code, if any.
    pub open spec fn from_code_spec(c: u8) -> Option<Self> {
        if c == 1 {
            Some(SourceType::Local)
        } else if c == 2 {
            Some(SourceType::Cloud)
        } else {
            None
        }
    }

    /// The one-byte code of the variant.
    pub fn code(&self) -> (r: u8)
        ensures
            r == self.code_spec(),
            Self::from_code_spec(r) == Some(*self),
    {
        match self {
            SourceType::Local => 1,
            SourceType::Cloud => 2,
        }
    }

    /// The variant with the given code, if any.
    pub fn from_code(c: u8) -> (r: Option<Self>)
        ensures
            r == Self::from_code_spec(c),
    {
        if c == 1 {
            Some(SourceType::Local)
        } else if c == 2 {
            Some(SourceType::Cloud)
        } else {
            None
        }
    }

}

impl Urgency {
    /// The one-byte code of the variant, counting from 1 in declaration order.
    pub open spec fn code_spec(self) -> u8 {
        match self {
            Urgency::High => 1,
            Urgency::Medium => 2,
            Urgency::Low => 3,
        }
    }

    /// The variant with the given code, if any.
    pub open spec fn from_code_spec(c: u8) -> Option<Self> {
        if c == 1 {
            Some(Urgency::High)
        } else if c == 2 {
            Some(Urgency::Medium)
        } else if c == 3 {
            Some(Urgency::Low)
        } else {
            None
        }
    }

    /// The one-byte code of the variant.
    pub fn code(&self) -> (r: u8)
        ensures
            r == self.code_spec(),
            Self::from_code_spec(r) == Some(*self),
    {
        match self {
            Urgency::High => 1,
            Urgency::Medium => 2,
            Urgency::Low => 3,
        }
    }

    /// The variant with the given code, if any.
    pub fn from_code(c: u8) -> (r: Option<Self>)
        ensures
            r == Self::from_code_spec(c),
    {
        if c == 1 {
            Some(Urgency::High)
        } else if c == 2 {
            Some(Urgency::Medium)
        } else if c == 3 {
            Some(Urgency::Low)
        } else {
            None
        }
    }

}

/// Names of the status flags of a listing filter.
#[derive(Debug, Clone, Copy, PartialEq, Eq, Hash, Structural)]
pub enum StatusKey {
    /// Hide items that are on the allow-list.
    IgnoreWhite,
    /// Hide items that are on the deny-list.
    IgnoreBlack,
    /// Hide items that were reported.
    IgnoreReported,
}

/// Urgency of an intelligence item.
#[derive(Debug, Clone, Copy, PartialEq, Eq, Hash, Structural)]
pub enum Urgency {
    High,
    Medium,
    Low,
}

/// Sort keys of the intelligence listing.
#[derive(Debug, Clone, Copy, PartialEq, Eq, Hash, Structural)]
pub enum SortField {
    /// Most recent hit time.
    LatestHitsTime,
    /// Number of hit emails.
    HitEmails,
    /// Number of impacted users.
    ImpactUsers,
}

/// Sort direction.
#[derive(Debug, Clone, Copy, PartialEq, Eq, Hash, Structural)]
pub enum SortOrder {
    Asc,
    Desc,
}

/// Status flags, one boolean per `StatusKey`.
///
/// On an item the flags say whether it is on the allow-list, on the
/// deny-list, or reported; in a filter they ask to hide such items.
#[derive(Debug, Clone, Copy, PartialEq, Eq, Structural)]
pub struct IntelligenceStatus {
    pub ignore_white: bool,
    pub ignore_black: bool,
    pub ignore_reported: bool,
}

impl IntelligenceStatus {
    /// The flag named by `key`.
    pub open spec fn flag(self, key: StatusKey) -> bool {
        match key {
            StatusKey::IgnoreWhite => self.ignore_white,
            StatusKey::IgnoreBlack => self.ignore_black,
            StatusKey::IgnoreReported => self.ignore_reported,
        }
    }

    /// All flags false.
    pub fn cleared() -> (r: Self)
        ensures
            forall|k: StatusKey| !r.flag(k),
            !r.ignore_white && !r.ignore_black && !r.ignore_reported,
    {
        IntelligenceStatus { ignore_white: false, ignore_black: false, ignore_reported: false }
    }

    /// The flag named by `key`.
    pub fn get(&self, key: StatusKey) -> (r: bool)
        ensures
            r == self.flag(key),
    {
        match key {
            StatusKey::IgnoreWhite => self.ignore_white,
            StatusKey::IgnoreBlack => self.ignore_black,
            StatusKey::IgnoreReported => self.ignore_reported,
        }
    }

    /// Sets the flag named by `key`, leaving the others.
    pub fn set(&mut self, key: StatusKey, value: bool)
        ensures
            final(self).flag(key) == value,
            forall|k: StatusKey| k != key ==> final(self).flag(k) == old(self).flag(k),
    {
        match key {
            StatusKey::IgnoreWhite => self.ignore_white = value,
            StatusKey::IgnoreBlack => self.ignore_black = value,
            StatusKey::IgnoreReported => self.ignore_reported = value,
        }
    }
}

/// File details of an item, where it concerns a file.
#[derive(Debug, Clone)]
pub struct BasicInfo {
    pub file_name: Option<String>,
    pub file_path: Option<String>,
    pub file_size: Option<u64>,
    pub file_type: Option<String>,
}

/// Share of hits that fell on one industry.
#[derive(Debug, Clone)]
pub struct IndustryDistribution {
    pub industry_name: String,
    /// Share of the hits, in whole percent.
    pub hit_percentage: u32,
}

/// One intelligence item. Instants are milliseconds since the Unix epoch,
/// identifiers are the 128-bit values of UUIDs.
#[derive(Debug, Clone)]
pub struct Intelligence {
    pub id: u128,
    pub intelligence_id: u128,
    pub value: String,
    pub description: String,
    pub intelligence_type: IntelligenceType,
    pub sub_type: String,
    pub source: SourceType,
    pub urgency: Urgency,
    pub hit_emails: i32,
    pub impact_users: i32,
    pub first_found_time: i64,
    pub latest_hits_time: i64,
    pub status: IntelligenceStatus,
    pub basic_info: BasicInfo,
    pub attacked_industry: i32,
    pub contribution_industry: String,
    pub industry_distribution: Vec<IndustryDistribution>,
}

/// Accepted sub-kinds for one main kind. An empty list accepts every
/// sub-kind of that kind.
#[derive(Debug, Clone)]
pub struct TypeFacet {
    pub intelligence_type: IntelligenceType,
    pub sub_types: Vec<String>,
}

/// A normalized listing filter for intelligence items.
///
/// The time window is inclusive at both ends and bounds the latest hit time;
/// pages are numbered from 1.
#[derive(Debug, Clone)]
pub struct IntelligenceFilter {
    pub start_time: i64,
    pub end_time: i64,
    /// Accepted sources; `None` accepts all.
    pub sources: Option<Vec<SourceType>>,
    /// Accepted kinds with their sub-kinds; `None` accepts all.
    pub intelligence_type: Option<Vec<TypeFacet>>,
    /// Flags that hide items carrying the same flag.
    pub status: IntelligenceStatus,
    /// Substring that the item's value must contain; `None` or empty: no
    /// constraint.
    pub filter: Option<String>,
    pub sort_by: SortField,
    pub sort_order: SortOrder,
    pub page_size: usize,
    pub page: usize,
}

impl IntelligenceFilter {
    /// A normalized filter has a page size and a page number of at least 1.
    pub open spec fn wf(&self) -> bool {
        self.page_size > 0 && self.page >= 1
    }
}

} // verus!
