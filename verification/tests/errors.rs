use exif_errors::Document;
use exif_errors::Error;
use exif_errors::PartialResult;

// Check compatibility with cross-thread error aggregation types, which
// require Send, Sync, and 'static on error types.
#[test]
fn is_send_sync_static() {
    let _: Box<dyn Send + Sync + 'static> = Box::new(Error::InvalidFormat("test"));
}

#[test]
fn partial_result_is_send_sync_static() {
    let document = Document::from_fields(vec![1, 2, 3]);
    let errors = vec![Error::InvalidFormat("bad tag")];
    let wrapped = Error::PartialResult(PartialResult::new(document, errors));
    let _: Box<dyn Send + Sync + 'static> = Box::new(wrapped);
}

#[test]
fn source_is_none_for_leaf_variants() {
    assert!(Error::InvalidFormat("m").source().is_none());
    assert!(Error::NotFound("m").source().is_none());
    assert!(Error::BlankValue("m").source().is_none());
    assert!(Error::TooBig("m").source().is_none());
    assert!(Error::NotSupported("m").source().is_none());
    assert!(Error::UnexpectedValue("m").source().is_none());
    let document = Document::from_fields(vec![]);
    let wrapped = Error::PartialResult(PartialResult::new(document, vec![]));
    assert!(wrapped.source().is_none());
}

#[test]
fn source_returns_wrapped_io_error() {
    let underlying = std::io::Error::new(std::io::ErrorKind::UnexpectedEof, "unexpected end of file");
    let error = Error::Io(underlying);
    let cause = error.source().expect("Io must expose its cause");
    assert_eq!(cause.kind(), std::io::ErrorKind::UnexpectedEof);
    assert_eq!(cause.to_string(), "unexpected end of file");
}

#[test]
fn from_io_error_gives_io_variant() {
    let underlying = std::io::Error::new(std::io::ErrorKind::PermissionDenied, "denied");
    let error = Error::from(underlying);
    match error {
        Error::Io(inner) => assert_eq!(inner.kind(), std::io::ErrorKind::PermissionDenied),
        _ => panic!("From<io::Error> must produce Error::Io"),
    }
}

#[test]
fn display_renders_messages_verbatim() {
    assert_eq!(Error::InvalidFormat("truncated header").display_string(), "truncated header");
    assert_eq!(Error::BlankValue("blank value").display_string(), "blank value");
    assert_eq!(Error::TooBig("value too big").display_string(), "value too big");
    assert_eq!(Error::NotSupported("unknown field type").display_string(), "unknown field type");
    assert_eq!(Error::UnexpectedValue("bad type").display_string(), "bad type");
}

#[test]
fn display_renders_not_found_sentence() {
    assert_eq!(
        Error::NotFound("image.jpg").display_string(),
        "No Exif data found in image.jpg"
    );
}

#[test]
fn display_renders_io_message() {
    let underlying = std::io::Error::new(std::io::ErrorKind::UnexpectedEof, "unexpected end of file");
    assert_eq!(Error::Io(underlying).display_string(), "unexpected end of file");
}

#[test]
fn display_renders_partial_result_counts() {
    let document = Document::from_fields(vec![10, 20, 30]);
    let errors = vec![
        Error::InvalidFormat("bad tag"),
        Error::UnexpectedValue("bad type"),
    ];
    let wrapped = Error::PartialResult(PartialResult::new(document, errors));
    assert_eq!(wrapped.display_string(), "Partial result with 3 fields and 2 errors");
}

#[test]
fn display_renders_empty_partial_result_counts() {
    let document = Document::from_fields(vec![]);
    let wrapped = Error::PartialResult(PartialResult::new(document, vec![]));
    assert_eq!(wrapped.display_string(), "Partial result with 0 fields and 0 errors");
}

#[test]
fn display_renders_multi_digit_counts() {
    let document = Document::from_fields((0..120).collect());
    let wrapped = Error::PartialResult(PartialResult::new(document, vec![]));
    assert_eq!(wrapped.display_string(), "Partial result with 120 fields and 0 errors");
}

#[test]
fn distill_recovers_document_and_reports_suppressed_errors() {
    let document = Document::from_fields(vec![10, 20, 30]);
    let errors = vec![
        Error::InvalidFormat("bad tag"),
        Error::UnexpectedValue("bad type"),
    ];
    let wrapped = Error::PartialResult(PartialResult::new(document, errors));
    let mut calls = 0;
    let mut seen: Vec<Error> = vec![];
    let distilled = wrapped.distill_partial_result(|suppressed| {
        calls += 1;
        seen = suppressed;
    });
    let recovered = match distilled {
        Ok(document) => document,
        Err(_) => panic!("a partial result must distill to Ok"),
    };
    assert_eq!(recovered.field_count(), 3);
    assert_eq!(recovered.into_fields(), vec![10, 20, 30]);
    assert_eq!(calls, 1);
    assert_eq!(seen.len(), 2);
    match &seen[0] {
        Error::InvalidFormat(message) => assert_eq!(*message, "bad tag"),
        _ => panic!("first suppressed error must be InvalidFormat"),
    }
    match &seen[1] {
        Error::UnexpectedValue(message) => assert_eq!(*message, "bad type"),
        _ => panic!("second suppressed error must be UnexpectedValue"),
    }
}

#[test]
fn distill_returns_other_variants_unchanged() {
    let mut calls = 0;
    let distilled = Error::NotFound("image.jpg").distill_partial_result(|_suppressed| {
        calls += 1;
    });
    match distilled {
        Err(Error::NotFound(container)) => assert_eq!(container, "image.jpg"),
        _ => panic!("a non-partial variant must distill to Err, unchanged"),
    }
    assert_eq!(calls, 0);
}

#[test]
fn distill_returns_io_unchanged() {
    let underlying = std::io::Error::new(std::io::ErrorKind::UnexpectedEof, "unexpected end of file");
    let mut calls = 0;
    let distilled = Error::Io(underlying).distill_partial_result(|_suppressed| {
        calls += 1;
    });
    match distilled {
        Err(Error::Io(inner)) => {
            assert_eq!(inner.kind(), std::io::ErrorKind::UnexpectedEof);
            assert_eq!(inner.to_string(), "unexpected end of file");
        },
        _ => panic!("an Io failure must distill to Err, unchanged"),
    }
    assert_eq!(calls, 0);
}

#[test]
fn into_inner_round_trips_construction() {
    let document = Document::from_fields(vec![7, 8]);
    let errors = vec![Error::TooBig("value too big")];
    let partial = PartialResult::new(document, errors);
    let (recovered_document, recovered_errors) = partial.into_inner();
    assert_eq!(recovered_document.into_fields(), vec![7, 8]);
    assert_eq!(recovered_errors.len(), 1);
    match &recovered_errors[0] {
        Error::TooBig(message) => assert_eq!(*message, "value too big"),
        _ => panic!("the suppressed error must round-trip unchanged"),
    }
}

#[test]
fn diagnostics_are_repeatable() {
    let document = Document::from_fields(vec![1, 2]);
    let errors = vec![Error::InvalidFormat("bad tag"), Error::BlankValue("blank value")];
    let partial = PartialResult::new(document, errors);
    assert_eq!(partial.field_count(), 2);
    assert_eq!(partial.field_count(), 2);
    assert_eq!(partial.error_count(), 2);
    assert_eq!(partial.error_count(), 2);
    let first = partial.debug_string();
    let second = partial.debug_string();
    assert_eq!(first, second);
    assert_eq!(first, "PartialResult(Document(2 fields), [bad tag, blank value])");
    let (recovered_document, recovered_errors) = partial.into_inner();
    assert_eq!(recovered_document.field_count(), 2);
    assert_eq!(recovered_errors.len(), 2);
}
