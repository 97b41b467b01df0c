//! Related emails, email details and file downloads.

use std::sync::Arc;
use vstd::prelude::*;
use crate::clock::{format_rfc2822, formattable, now_millis, rfc2822_text, FOUR_DIGIT_YEAR_END, FOUR_DIGIT_YEAR_MIN};
use crate::db::clickhouse::{ClickHouseClient, ClientHolder};
use crate::models::domain::email::{Attachment, Email, EmailFilter, Url};
use crate::query::{page_end, page_start, paginate};
use crate::text::{after_last, decode_or_keep, decoded_or_raw, str_eq, text_after_last};
use vstd::string::StrSliceExecFns;

verus! {

/// Content type of files whose extension is not in the table.
pub const OCTET_STREAM: &'static str = "application/octet-stream";

/// The extension of a file name: the text after its last dot, if it has one.
pub open spec fn extension_of(name: Seq<char>) -> Option<Seq<char>> {
    if name.contains('.') {
        Some(after_last(name, '.'))
    } else {
        None
    }
}

/// The extension table.
pub open spec fn mime_of_extension(e: Seq<char>) -> Seq<char> {
    if e == "pdf"@ {
        "application/pdf"@
    } else if e == "doc"@ {
        "application/msword"@
    } else if e == "docx"@ {
        "application/vnd.openxmlformats-officedocument.wordprocessingml.document"@
    } else if e == "xls"@ {
        "application/vnd.ms-excel"@
    } else if e == "xlsx"@ {
        "application/vnd.openxmlformats-officedocument.spreadsheetml.sheet"@
    } else if e == "ppt"@ {
        "application/vnd.ms-powerpoint"@
    } else if e == "pptx"@ {
        "application/vnd.openxmlformats-officedocument.presentationml.presentation"@
    } else if e == "txt"@ {
        "text/plain"@
    } else if e == "zip"@ {
        "application/zip"@
    } else if e == "rar"@ {
        "application/x-rar-compressed"@
    } else if e == "7z"@ {
        "application/x-7z-compressed"@
    } else if e == "jpg"@ || e == "jpeg"@ {
        "image/jpeg"@
    } else if e == "png"@ {
        "image/png"@
    } else if e == "gif"@ {
        "image/gif"@
    } else if e == "svg"@ {
        "image/svg+xml"@
    } else if e == "mp3"@ {
        "audio/mpeg"@
    } else if e == "mp4"@ {
        "video/mp4"@
    } else {
        OCTET_STREAM@
    }
}

/// The content type of a file name: by its extension, or generic binary.
pub open spec fn content_type_of(name: Seq<char>) -> Seq<char> {
    match extension_of(name) {
        Some(e) => mime_of_extension(e),
        None => OCTET_STREAM@,
    }
}

/// The content type of a file, from the extension of its name.
pub fn content_type_for(filename: &str) -> (r: &'static str)
    ensures
        r@ == content_type_of(filename@),
{
    if rfind_dot_absent(filename) {
        return OCTET_STREAM;
    }
    let e = text_after_last(filename, '.');
    if str_eq(e, "pdf") {
        "application/pdf"
    } else if str_eq(e, "doc") {
        "application/msword"
    } else if str_eq(e, "docx") {
        "application/vnd.openxmlformats-officedocument.wordprocessingml.document"
    } else if str_eq(e, "xls") {
        "application/vnd.ms-excel"
    } else if str_eq(e, "xlsx") {
        "application/vnd.openxmlformats-officedocument.spreadsheetml.sheet"
    } else if str_eq(e, "ppt") {
        "application/vnd.ms-powerpoint"
    } else if str_eq(e, "pptx") {
        "application/vnd.openxmlformats-officedocument.presentationml.presentation"
    } else if str_eq(e, "txt") {
        "text/plain"
    } else if str_eq(e, "zip") {
        "application/zip"
    } else if str_eq(e, "rar") {
        "application/x-rar-compressed"
    } else if str_eq(e, "7z") {
        "application/x-7z-compressed"
    } else if str_eq(e, "jpg") || str_eq(e, "jpeg") {
        "image/jpeg"
    } else if str_eq(e, "png") {
        "image/png"
    } else if str_eq(e, "gif") {
        "image/gif"
    } else if str_eq(e, "svg") {
        "image/svg+xml"
    } else if str_eq(e, "mp3") {
        "audio/mpeg"
    } else if str_eq(e, "mp4") {
        "video/mp4"
    } else {
        OCTET_STREAM
    }
}

fn rfind_dot_absent(s: &str) -> (r: bool)
    ensures
        r == !s@.contains('.'),
{
    crate::text::rfind_char(s, '.').is_none()
}

/// The file name of a path: the text after its last `/`.
pub open spec fn file_name_of(path: Seq<char>) -> Seq<char> {
    after_last(path, '/')
}

/// Identifier of the one attachment that the fallback data holds.
pub const SAMPLE_ATTACHMENT_ID: &'static str = "att_001";

/// Identifier of the one email that the fallback data holds.
pub const SAMPLE_EMAIL_ID: &'static str = "1";

/// A minimal one-page PDF document, served for the sample attachment.
pub const SAMPLE_PDF: &'static str = "%PDF-1.5\n1 0 obj\n<</Type/Catalog/Pages 2 0 R>>\nendobj\n2 0 obj\n<</Type/Pages/Kids[3 0 R]/Count 1>>\nendobj\n3 0 obj\n<</Type/Page/MediaBox[0 0 595 842]/Parent 2 0 R/Resources<<>>>>\nendobj\nxref\n0 4\n0000000000 65535 f \n0000000018 00000 n \n0000000063 00000 n \n0000000114 00000 n \n\ntrailer\n<</Size 4/Root 1 0 R>>\nstartxref\n178\n%%EOF";

/// 2024-03-01T08:00:00Z, the time of the sample email.
pub const SAMPLE_EMAIL_TIME: i64 = 1_709_280_000_000;

/// Why a file or an email could not be served.
#[derive(Debug, Clone)]
pub enum EmailError {
    /// No email or attachment has this identifier.
    NotFound(String),
    /// An attachment was asked for without its path.
    MissingPath,
}

/// What a download is for.
#[derive(Debug, Clone, Copy, PartialEq, Eq, Structural)]
pub enum FileKind {
    /// The raw message of an email.
    Eml,
    /// An attachment, located by its path.
    Attachment,
}

/// The sample email of the fallback data, as far as callers read it.
pub open spec fn is_sample_email(e: Email) -> bool {
    &&& e.id@ == SAMPLE_EMAIL_ID@
    &&& e.timestamp == SAMPLE_EMAIL_TIME
    &&& e.subject@ == "Test Email"@
    &&& e.sender@ == "sender@example.com"@
    &&& e.recipients@.len() == 1
    &&& e.recipients@[0]@ == "recipient@example.com"@
    &&& e.attachments@.len() == 1
    &&& e.attachments@[0].id@ == SAMPLE_ATTACHMENT_ID@
    &&& e.attachments@[0].filename@ == "test.pdf"@
    &&& e.attachments@[0].file_path@ == "/attachments/2024/03/test.pdf"@
    &&& e.attachments@[0].size == 1024
    &&& e.urls@.len() == 1
    &&& e.urls@[0].url@ == "https://example.com/test"@
}

/// The sample email of the fallback data.
pub fn sample_email() -> (r: Email)
    ensures
        is_sample_email(r),
{
    let mut recipients: Vec<String> = Vec::new();
    recipients.push("recipient@example.com".to_string());
    let mut attachments: Vec<Attachment> = Vec::new();
    attachments.push(
        Attachment {
            id: SAMPLE_ATTACHMENT_ID.to_string(),
            filename: "test.pdf".to_string(),
            file_path: "/attachments/2024/03/test.pdf".to_string(),
            size: 1024,
            file_extension: "pdf".to_string(),
            md5: "d41d8cd98f00b204e9800998ecf8427e".to_string(),
        },
    );
    let mut urls: Vec<Url> = Vec::new();
    urls.push(
        Url {
            id: "url_001".to_string(),
            url: "https://example.com/test".to_string(),
            path: "/test".to_string(),
        },
    );
    Email {
        id: SAMPLE_EMAIL_ID.to_string(),
        timestamp: SAMPLE_EMAIL_TIME,
        subject: "Test Email".to_string(),
        sender: "sender@example.com".to_string(),
        recipients,
        attachments,
        urls,
        content: "邮件内容".to_string(),
        status: "正常".to_string(),
        source_code: "原始邮件代码".to_string(),
    }
}

/// Header lines of a generated message, up to its date.
pub const EML_HEAD: &'static str = "From: sender@example.com\r\nTo: recipient@example.com\r\nSubject: Test Email\r\nDate: ";

/// Lines of a generated message between its date and its identifier.
pub const EML_BODY: &'static str = "\r\nContent-Type: text/plain\r\n\r\n这是一封测试邮件的内容。\r\n邮件ID: ";

/// The text of the generated message for `email_id`, dated `date`.
pub open spec fn eml_text(email_id: Seq<char>, date: Seq<char>) -> Seq<char> {
    EML_HEAD@ + date + EML_BODY@ + email_id + "\r\n"@
}

/// Builds the message text for an email identifier and a date line.
pub fn build_eml(email_id: &str, date: &str) -> (r: String)
    ensures
        r@ == eml_text(email_id@, date@),
{
    let mut s = EML_HEAD.to_string();
    s.append(date);
    s.append(EML_BODY);
    s.append(email_id);
    s.append("\r\n");
    s
}

/// The date line of a generated message at instant `now`: its RFC 2822
/// text, or empty where the instant has no such text.
pub open spec fn eml_date(now: i64) -> Seq<char> {
    if formattable(now) {
        rfc2822_text(now)
    } else {
        Seq::empty()
    }
}

/// Email service.
#[derive(Clone)]
pub struct EmailService {
    pub db_client: ClientHolder,
}

impl EmailService {
    /// A service over the connection, if any.
    pub fn new(db_client: Option<Arc<ClickHouseClient>>) -> (r: Self)
        ensures
            r.db_client == ClientHolder::of_slot(db_client),
    {
        EmailService { db_client: ClientHolder::from_slot(db_client) }
    }

    /// Lists the emails related to an intelligence item: the total and the
    /// requested page. No store query exists for this family yet: the answer
    /// is the one sample email, paginated; it never fails.
    pub fn get_related_emails(&self, filter: &EmailFilter) -> (r: (u32, Vec<Email>))
        requires
            filter.wf(),
        ensures
            r.0 == 1,
            r.1@.len() == (if filter.page == 1 { 1int } else { 0int }),
            r.1@.len() <= r.0,
            forall|i: int| 0 <= i < r.1@.len() ==> is_sample_email(#[trigger] r.1@[i]),
    {
        let mut all: Vec<Email> = Vec::new();
        all.push(sample_email());
        let ghost s = all@;
        let page = paginate(all, filter.page as usize, filter.page_size as usize);
        proof {
            let lo = page_start(1, filter.page as int, filter.page_size as int);
            let hi = page_end(1, filter.page as int, filter.page_size as int);
            if filter.page == 1 {
                assert((filter.page - 1) * filter.page_size == 0 && filter.page * filter.page_size >= 1)
                    by (nonlinear_arith)
                    requires
                        filter.page == 1,
                        filter.page_size >= 1,
                ;
                assert(lo == 0 && hi == 1);
            } else {
                assert((filter.page - 1) * filter.page_size >= 1 && filter.page * filter.page_size >= 1)
                    by (nonlinear_arith)
                    requires
                        filter.page >= 2,
                        filter.page_size >= 1,
                ;
                assert(lo == 1 && hi == 1);
            }
            assert(is_sample_email(s[0]));
            assert forall|i: int| 0 <= i < page@.len() implies is_sample_email(#[trigger] page@[i]) by {
                assert(lo == 0 && i == 0);
                assert(page@[i] == s[lo + i]);
            }
        }
        (1, page)
    }

    /// The raw message of an email, dated now.
    pub fn download_email_eml(&self, email_id: &str) -> (r: Vec<u8>)
        ensures
            exists|now: i64| r@ == eml_bytes(email_id@, eml_date(now)),
    {
        let now = now_millis();
        let date = if FOUR_DIGIT_YEAR_MIN <= now && now < FOUR_DIGIT_YEAR_END {
            format_rfc2822(now)
        } else {
            String::new()
        };
        let text = build_eml(email_id, date.as_str());
        let r = text.as_str().as_bytes_vec();
        assert(r@ == eml_bytes(email_id@, eml_date(now)));
        r
    }

    /// An attachment by identifier and path: its bytes, its file name (the
    /// last segment of the path) and its content type (from the file name's
    /// extension). Only the sample attachment exists.
    pub fn download_attachment(&self, attachment_id: &str, file_path: &str) -> (r: Result<(Vec<u8>, String, String), EmailError>)
        ensures
            r is Ok <==> attachment_id@ == SAMPLE_ATTACHMENT_ID@,
            r matches Ok(f) ==> {
                &&& f.0@ == vstd::utf8::encode_utf8(SAMPLE_PDF@)
                &&& f.1@ == file_name_of(file_path@)
                &&& f.2@ == content_type_of(file_name_of(file_path@))
            },
            r matches Err(e) ==> e matches EmailError::NotFound(id) && id@ == attachment_id@,
    {
        let filename = text_after_last(file_path, '/');
        let content_type = content_type_for(filename);
        if str_eq(attachment_id, SAMPLE_ATTACHMENT_ID) {
            Ok((SAMPLE_PDF.as_bytes_vec(), filename.to_string(), content_type.to_string()))
        } else {
            Err(EmailError::NotFound(attachment_id.to_string()))
        }
    }

    /// A file to download: the raw message of an email, or an attachment
    /// located by its path as received, percent-encoded or not.
    pub fn download_file(&self, id: &str, kind: FileKind, file_path: Option<&str>) -> (r: Result<(Vec<u8>, String, String), EmailError>)
        ensures
            kind == FileKind::Attachment && file_path is None ==> r matches Err(EmailError::MissingPath),
            kind == FileKind::Attachment && file_path is Some ==> (r is Ok <==> id@ == SAMPLE_ATTACHMENT_ID@),
            kind == FileKind::Attachment ==> (r matches Ok(f) ==> {
                &&& f.0@ == vstd::utf8::encode_utf8(SAMPLE_PDF@)
                &&& f.1@ == file_name_of(decoded_or_raw(file_path->Some_0@))
                &&& f.2@ == content_type_of(file_name_of(decoded_or_raw(file_path->Some_0@)))
            }),
            kind == FileKind::Eml ==> (r matches Ok(f) && f.1@ == id@ + ".eml"@ && f.2@
                == "message/rfc822"@ && exists|now: i64| f.0@ == eml_bytes(id@, eml_date(now))),
    {
        match kind {
            FileKind::Eml => {
                let data = self.download_email_eml(id);
                let mut name = id.to_string();
                name.append(".eml");
                Ok((data, name, "message/rfc822".to_string()))
            },
            FileKind::Attachment => match file_path {
                Some(p) => {
                    let path = decode_or_keep(p);
                    self.download_attachment(id, path.as_str())
                },
                None => Err(EmailError::MissingPath),
            },
        }
    }

    /// The details of an email. An unknown identifier is a typed "not
    /// found", never an empty success.
    pub fn get_email_detail(&self, email_id: &str) -> (r: Result<Email, EmailError>)
        ensures
            r is Ok <==> email_id@ == SAMPLE_EMAIL_ID@,
            r matches Ok(e) ==> is_sample_email(e),
            r matches Err(e) ==> e matches EmailError::NotFound(id) && id@ == email_id@,
    {
        if str_eq(email_id, SAMPLE_EMAIL_ID) {
            Ok(sample_email())
        } else {
            Err(EmailError::NotFound(email_id.to_string()))
        }
    }
}

/// The bytes (UTF-8) of the generated message.
pub open spec fn eml_bytes(email_id: Seq<char>, date: Seq<char>) -> Seq<u8> {
    vstd::utf8::encode_utf8(eml_text(email_id, date))
}

} // verus!
