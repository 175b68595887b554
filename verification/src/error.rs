//! The failure taxonomy and the best-effort partial result it can carry.

use vstd::prelude::*;
use vstd::rwlock::RwLock;
use vstd::rwlock::RwLockPredicate;

use crate::document::Document;
use crate::render::decimal_string;
use crate::render::not_found_message;
use crate::render::partial_debug_prefix;
use crate::render::partial_result_message;
use crate::render::render_not_found;
use crate::render::render_partial_result;

verus! {

/// `std::io::Error` carried by [`Error::Io`]: the underlying stream failure,
/// opaque to this crate and handed back to the caller unchanged.
#[verifier::external_type_specification]
#[verifier::external_body]
pub struct ExIoError(std::io::Error);

/// An error returned when a decode or encode operation on metadata fails.
#[non_exhaustive]
pub enum Error {
    /// Input data was malformed or truncated.
    InvalidFormat(&'static str),
    /// Input data could not be read due to an I/O error; the underlying
    /// `std::io::Error` is associated with this variant.
    Io(std::io::Error),
    /// No metadata block was found in an otherwise well-formed container
    /// such as a JPEG file.
    NotFound(&'static str),
    /// The value of the field is blank: present, but carrying a sentinel
    /// "no value" payload that should be treated like absence.
    BlankValue(&'static str),
    /// Field values or image data are too big to encode.
    TooBig(&'static str),
    /// The field's value representation is not supported and cannot be
    /// encoded or decoded.
    NotSupported(&'static str),
    /// The field has an unexpected value.
    UnexpectedValue(&'static str),
    /// Partially-decoded result and the errors suppressed to obtain it.
    /// Returned only when the caller opted into best-effort decoding.
    PartialResult(PartialResult),
}

impl Error {
    /// The underlying cause of this error. Only [`Error::Io`] wraps a lower
    /// failure; every other variant is a leaf of the causal chain.
    pub fn source(&self) -> (cause: Option<&std::io::Error>)
        ensures
            match self {
                Error::Io(underlying) => cause == Some(underlying),
                _ => cause is None,
            },
    {
        match self {
            Error::Io(underlying) => Some(underlying),
            _ => None,
        }
    }

    /// Extracts the [`Document`] and the suppressed errors from
    /// [`Error::PartialResult`].
    ///
    /// If `self` is `Error::PartialResult`, the suppressed errors are passed
    /// to `handler` as a `Vec<Error>` and the partially-decoded document is
    /// returned in `Ok`. Otherwise, `Err(self)` is returned unchanged and
    /// the handler is never invoked.
    pub fn distill_partial_result<F: FnOnce(Vec<Error>)>(self, handler: F) -> (distilled: Result<
        Document,
        Error,
    >)
        requires
            forall|suppressed: Vec<Error>|
                (self matches Error::PartialResult(partial) && suppressed@ == partial.suppressed())
                    ==> #[trigger] handler.requires((suppressed,)),
        ensures
            match distilled {
                Ok(document) => self matches Error::PartialResult(partial)
                    && document@ == partial.document_fields() && (exists|suppressed: Vec<Error>|
                    suppressed@ == partial.suppressed() && handler.ensures((suppressed,), ())),
                Err(unchanged) => unchanged == self && !(self matches Error::PartialResult(_)),
            },
    {
        match self {
            Error::PartialResult(partial) => {
                let (document, suppressed) = partial.into_inner();
                handler(suppressed);
                Ok(document)
            },
            other => Err(other),
        }
    }

    /// The human-readable rendering of this error: the stored message
    /// verbatim for the message-carrying variants, the underlying error's
    /// own rendering for [`Error::Io`], and a fixed sentence with the field
    /// and error counts for [`Error::NotFound`] and [`Error::PartialResult`].
    pub fn display_string(&self) -> (rendered: String)
        ensures
            match self {
                Error::InvalidFormat(message) => rendered@ == message@,
                Error::NotFound(container) => rendered@ == not_found_message(container@),
                Error::BlankValue(message) => rendered@ == message@,
                Error::TooBig(message) => rendered@ == message@,
                Error::NotSupported(message) => rendered@ == message@,
                Error::UnexpectedValue(message) => rendered@ == message@,
                Error::PartialResult(partial) => rendered@ == partial_result_message(
                    partial.document_fields().len(),
                    partial.suppressed().len(),
                ),
                Error::Io(_) => true,
            },
    {
        match self {
            Error::InvalidFormat(message) => (*message).to_owned(),
            Error::Io(underlying) => underlying.to_string(),
            Error::NotFound(container) => render_not_found(container),
            Error::BlankValue(message) => (*message).to_owned(),
            Error::TooBig(message) => (*message).to_owned(),
            Error::NotSupported(message) => (*message).to_owned(),
            Error::UnexpectedValue(message) => (*message).to_owned(),
            Error::PartialResult(partial) => render_partial_result(
                partial.field_count(),
                partial.error_count(),
            ),
        }
    }
}

impl From<std::io::Error> for Error {
    /// Wraps an underlying stream failure, so any operation that can fail
    /// with an I/O error can produce an [`Error`] directly.
    fn from(underlying: std::io::Error) -> (error: Error) {
        Error::Io(underlying)
    }
}

impl vstd::std_specs::convert::FromSpecImpl<std::io::Error> for Error {
    open spec fn obeys_from_spec() -> bool {
        true
    }

    open spec fn from_spec(underlying: std::io::Error) -> Error {
        Error::Io(underlying)
    }
}

/// Lock predicate pinning exactly which document a partial result's guard
/// stores: the guard is a shareability device, never contended in normal
/// use, so the contents never change between construction and extraction.
pub struct DocumentPred {
    pub fields: Seq<u64>,
}

impl RwLockPredicate<Document> for DocumentPred {
    open spec fn inv(self, document: Document) -> bool {
        document@ == self.fields
    }
}

/// The outcome of a best-effort decode pass: the document that could be
/// reconstructed, together with the ordered list of errors that were
/// suppressed while producing it.
///
/// The document sits behind a lock solely so the whole value is safely
/// shareable across threads; exactly one thread owns it from construction
/// to extraction, and contention is a contract violation, not a normal
/// code path.
pub struct PartialResult {
    guarded_document: RwLock<Document, DocumentPred>,
    suppressed_errors: Vec<Error>,
}

impl PartialResult {
    /// The field values of the embedded document.
    pub closed spec fn document_fields(&self) -> Seq<u64> {
        self.guarded_document.pred().fields
    }

    /// The suppressed errors, in the order they were encountered.
    pub closed spec fn suppressed(&self) -> Seq<Error> {
        self.suppressed_errors@
    }

    /// Packages a best-effort document and the errors suppressed while
    /// decoding it. Intended for the decoder at the end of a best-effort
    /// pass; library consumers only ever take partial results apart.
    pub fn new(document: Document, errors: Vec<Error>) -> (partial: PartialResult)
        ensures
            partial.document_fields() == document@,
            partial.suppressed() == errors@,
    {
        let ghost fields = document@;
        PartialResult {
            guarded_document: RwLock::new(document, Ghost(DocumentPred { fields })),
            suppressed_errors: errors,
        }
    }

    /// Returns the partially-decoded document and the suppressed errors.
    pub fn into_inner(self) -> (inner: (Document, Vec<Error>))
        ensures
            inner.0@ == self.document_fields(),
            inner.1@ == self.suppressed(),
    {
        let PartialResult { guarded_document, suppressed_errors } = self;
        (guarded_document.into_inner(), suppressed_errors)
    }

    /// The number of fields in the embedded document, read through the
    /// guard without consuming the partial result.
    pub fn field_count(&self) -> (count: usize)
        ensures
            count == self.document_fields().len(),
    {
        let handle = self.guarded_document.acquire_read();
        let count = handle.borrow().field_count();
        handle.release_read();
        count
    }

    /// The number of suppressed errors.
    pub fn error_count(&self) -> (count: usize)
        ensures
            count == self.suppressed().len(),
    {
        self.suppressed_errors.len()
    }

    /// The diagnostic rendering of this partial result: the field count of
    /// the embedded document followed by the rendering of every suppressed
    /// error, in encounter order. Reads through the guard without consuming
    /// the partial result, so it can be invoked repeatedly.
    pub fn debug_string(&self) -> (rendered: String)
        ensures
            partial_debug_prefix(self.document_fields().len()).is_prefix_of(rendered@),
    {
        let mut rendered: String = "PartialResult(Document(".to_owned();
        let fields = decimal_string(self.field_count() as u64);
        rendered.append(fields.as_str());
        rendered.append(" fields), [");
        proof {
            assert(rendered@ =~= partial_debug_prefix(self.document_fields().len()));
        }
        let ghost prefix = rendered@;
        let mut i: usize = 0;
        while i < self.suppressed_errors.len()
            invariant
                prefix == partial_debug_prefix(self.document_fields().len()),
                prefix.is_prefix_of(rendered@),
                i <= self.suppressed_errors.len(),
            decreases self.suppressed_errors.len() - i,
        {
            if i > 0 {
                rendered.append(", ");
            }
            let message = self.suppressed_errors[i].display_string();
            rendered.append(message.as_str());
            i = i + 1;
        }
        rendered.append("])");
        rendered
    }
}

/// Law: taking a partial result apart recovers exactly, at the level of
/// their contents, the document and the error list it was constructed
/// from: the premises are the contracts of [`PartialResult::new`] and
/// [`PartialResult::into_inner`].
pub proof fn lemma_partial_result_round_trip(
    document: Document,
    errors: Vec<Error>,
    partial: PartialResult,
    recovered_document: Document,
    recovered_errors: Vec<Error>,
)
    requires
        partial.document_fields() == document@,
        partial.suppressed() == errors@,
        recovered_document@ == partial.document_fields(),
        recovered_errors@ == partial.suppressed(),
    ensures
        recovered_document@ == document@,
        recovered_errors@ == errors@,
{
}

/// Law: diagnostic introspection is repeatable: any two reads of the field
/// count of one partial result agree, and so do any two reads of the error
/// count: the premises are the contracts of [`PartialResult::field_count`]
/// and [`PartialResult::error_count`].
pub proof fn lemma_diagnostics_repeatable(
    partial: PartialResult,
    first_fields: usize,
    second_fields: usize,
    first_errors: usize,
    second_errors: usize,
)
    requires
        first_fields == partial.document_fields().len(),
        second_fields == partial.document_fields().len(),
        first_errors == partial.suppressed().len(),
        second_errors == partial.suppressed().len(),
    ensures
        first_fields == second_fields,
        first_errors == second_errors,
{
}

} // verus!
