use analysis_api::models::domain::email::EmailFilter;
use analysis_api::services::email_service::{
    build_eml, content_type_for, EmailError, EmailService, FileKind, SAMPLE_PDF,
};

fn email_filter(page: u32, page_size: u32) -> EmailFilter {
    EmailFilter {
        start_time: 1_709_251_200_000,
        end_time: 1_709_424_000_000,
        intelligence_id: "1".to_string(),
        status: None,
        page,
        page_size,
    }
}

#[test]
fn unknown_email_is_not_found() {
    let svc = EmailService::new(None);
    match svc.get_email_detail("nonexistent-id") {
        Err(EmailError::NotFound(id)) => assert_eq!(id, "nonexistent-id"),
        other => panic!("unexpected: {:?}", other),
    }
}

#[test]
fn known_email_has_its_details() {
    let e = EmailService::new(None).get_email_detail("1").unwrap();
    assert_eq!(e.id, "1");
    assert_eq!(e.subject, "Test Email");
    assert_eq!(e.attachments.len(), 1);
    assert_eq!(e.attachments[0].id, "att_001");
    assert_eq!(e.urls[0].url, "https://example.com/test");
}

#[test]
fn pdf_attachment_gets_pdf_content_type() {
    let svc = EmailService::new(None);
    let (data, name, ct) = svc.download_attachment("att_001", "/attachments/2024/03/test.pdf").unwrap();
    assert_eq!(ct, "application/pdf");
    assert_eq!(name, "test.pdf");
    assert_eq!(data, SAMPLE_PDF.as_bytes().to_vec());
    assert!(data.starts_with(b"%PDF-1.5"));
}

#[test]
fn unknown_extension_gets_generic_binary_type() {
    let svc = EmailService::new(None);
    let (_, name, ct) = svc.download_attachment("att_001", "/x/unknownext.xyz").unwrap();
    assert_eq!(ct, "application/octet-stream");
    assert_eq!(name, "unknownext.xyz");
}

#[test]
fn unknown_attachment_is_not_found() {
    let svc = EmailService::new(None);
    match svc.download_attachment("att_404", "/x/a.pdf") {
        Err(EmailError::NotFound(id)) => assert_eq!(id, "att_404"),
        other => panic!("unexpected: {:?}", other),
    }
}

#[test]
fn extension_table() {
    assert_eq!(content_type_for("a.doc"), "application/msword");
    assert_eq!(content_type_for("a.docx"), "application/vnd.openxmlformats-officedocument.wordprocessingml.document");
    assert_eq!(content_type_for("a.xlsx"), "application/vnd.openxmlformats-officedocument.spreadsheetml.sheet");
    assert_eq!(content_type_for("a.jpg"), "image/jpeg");
    assert_eq!(content_type_for("a.jpeg"), "image/jpeg");
    assert_eq!(content_type_for("a.7z"), "application/x-7z-compressed");
    assert_eq!(content_type_for("archive.tar.gz"), "application/octet-stream");
    assert_eq!(content_type_for("notes.backup.txt"), "text/plain");
    assert_eq!(content_type_for("pdf"), "application/octet-stream");
    assert_eq!(content_type_for(""), "application/octet-stream");
    assert_eq!(content_type_for("a.PDF"), "application/octet-stream");
}

#[test]
fn download_file_needs_a_path_for_attachments() {
    let svc = EmailService::new(None);
    assert!(matches!(svc.download_file("att_001", FileKind::Attachment, None), Err(EmailError::MissingPath)));
    let (_, name, ct) = svc.download_file("att_001", FileKind::Attachment, Some("/a/b/report.docx")).unwrap();
    assert_eq!(name, "report.docx");
    assert_eq!(ct, "application/vnd.openxmlformats-officedocument.wordprocessingml.document");
}

#[test]
fn eml_download_is_a_dated_message() {
    let svc = EmailService::new(None);
    let (data, name, ct) = svc.download_file("42", FileKind::Eml, None).unwrap();
    assert_eq!(name, "42.eml");
    assert_eq!(ct, "message/rfc822");
    let text = String::from_utf8(data).unwrap();
    assert!(text.starts_with("From: sender@example.com\r\n"));
    assert!(text.ends_with("邮件ID: 42\r\n"));
    let date_line = text.lines().find(|l| l.starts_with("Date: ")).unwrap();
    assert!(date_line.ends_with("+0000"), "{}", date_line);
    assert!(date_line.len() > "Date: ".len() + 20);
}

#[test]
fn eml_text_layout() {
    let t = build_eml("7", "Fri, 1 Mar 2024 00:00:00 +0000");
    assert_eq!(
        t,
        "From: sender@example.com\r\nTo: recipient@example.com\r\nSubject: Test Email\r\nDate: Fri, 1 Mar 2024 00:00:00 +0000\r\nContent-Type: text/plain\r\n\r\n这是一封测试邮件的内容。\r\n邮件ID: 7\r\n"
    );
}

#[test]
fn related_emails_are_paginated() {
    let svc = EmailService::new(None);
    let (total, page) = svc.get_related_emails(&email_filter(1, 10));
    assert_eq!(total, 1);
    assert_eq!(page.len(), 1);
    assert_eq!(page[0].id, "1");
    let (total, page) = svc.get_related_emails(&email_filter(2, 10));
    assert_eq!(total, 1);
    assert!(page.is_empty());
    assert!(page.len() as u32 <= total);
}

#[test]
fn email_filter_normalizes_paging() {
    let f = EmailFilter::new(0, 1, "1".to_string(), None, None, Some(0));
    assert_eq!((f.page, f.page_size), (1, 10));
    let f = EmailFilter::new(0, 1, "1".to_string(), None, Some(0), Some(3));
    assert_eq!((f.page, f.page_size), (1, 3));
    let f = EmailFilter::new(0, 1, "1".to_string(), Some("x".to_string()), Some(2), None);
    assert_eq!((f.page, f.page_size), (2, 10));
}

#[test]
fn attachment_path_is_percent_decoded() {
    let svc = EmailService::new(None);
    let (_, name, ct) = svc.download_file("att_001", FileKind::Attachment, Some("/a/my%20report.pdf")).unwrap();
    assert_eq!(name, "my report.pdf");
    assert_eq!(ct, "application/pdf");
    let (_, name, _) = svc.download_file("att_001", FileKind::Attachment, Some("/a/%E6%8A%A5%E5%91%8A.txt")).unwrap();
    assert_eq!(name, "报告.txt");
    let (_, name, _) = svc.download_file("att_001", FileKind::Attachment, Some("/a/bad%FF.zip")).unwrap();
    assert_eq!(name, "bad%FF.zip");
}
