use vstd::prelude::*;
use vstd::string::*;
use crate::config::{env_var_name, ConfigField};
use crate::text::{contains_text, occurs_in, same_text};

verus! {

/// The four storage operations.
#[derive(Clone, Copy, Debug, PartialEq, Eq, Structural)]
pub enum Operation {
    HeadObject,
    CreateBucket,
    PutObject,
    GetObject,
}

/// How a request failed, as reported by the storage client.
#[derive(Clone, Debug)]
pub struct CallFailure {
    /// No response was received: network, DNS or connection trouble.
    pub dispatch: bool,
    /// The backend's error code, when it sent one.
    pub code: Option<String>,
    /// The rendered error.
    pub text: String,
}

/// A failed call, by kind.
#[derive(Clone, Debug)]
pub enum S3Error {
    /// A required setting is missing from both the call and the environment.
    Config(ConfigField),
    /// The backend refused access to the object.
    AccessDenied { bucket: String, key: String },
    /// The request got no response from the backend.
    Dispatch { detail: String },
    /// The backend answered, but rejected or could not serve the request.
    Backend { operation: Operation, detail: String },
    /// The response body of a read could not be collected.
    Body { detail: String },
}

/// Mathematical form of an error.
pub enum ErrorView {
    Config(ConfigField),
    AccessDenied { bucket: Seq<char>, key: Seq<char> },
    Dispatch { detail: Seq<char> },
    Backend { operation: Operation, detail: Seq<char> },
    Body { detail: Seq<char> },
}

impl View for S3Error {
    type V = ErrorView;

    open spec fn view(&self) -> ErrorView {
        match self {
            S3Error::Config(f) => ErrorView::Config(*f),
            S3Error::AccessDenied { bucket, key } => ErrorView::AccessDenied {
                bucket: bucket@,
                key: key@,
            },
            S3Error::Dispatch { detail } => ErrorView::Dispatch { detail: detail@ },
            S3Error::Backend { operation, detail } => ErrorView::Backend {
                operation: *operation,
                detail: detail@,
            },
            S3Error::Body { detail } => ErrorView::Body { detail: detail@ },
        }
    }
}

/// A result with its error in mathematical form.
pub open spec fn result_view<T>(r: Result<T, S3Error>) -> Result<T, ErrorView> {
    match r {
        Ok(v) => Ok(v),
        Err(e) => Err(e@),
    }
}

/// The backend's error code is `c`.
pub open spec fn code_is(f: CallFailure, c: Seq<char>) -> bool {
    match f.code {
        Some(s) => s@ == c,
        None => false,
    }
}

/// The failure says that the object is absent: by its code, or by a
/// not-found marker in its text.
pub open spec fn is_not_found(f: CallFailure) -> bool {
    ||| code_is(f, "NotFound"@)
    ||| code_is(f, "NoSuchKey"@)
    ||| code_is(f, "404"@)
    ||| occurs_in("NotFound"@, f.text@)
    ||| occurs_in("NoSuchKey"@, f.text@)
    ||| occurs_in("404"@, f.text@)
}

fn has_code(f: &CallFailure, c: &str) -> (r: bool)
    ensures
        r == code_is(*f, c@),
{
    match &f.code {
        Some(s) => same_text(s.as_str(), c),
        None => false,
    }
}

fn not_found(f: &CallFailure) -> (r: bool)
    ensures
        r == is_not_found(*f),
{
    has_code(f, "NotFound") || has_code(f, "NoSuchKey") || has_code(f, "404")
        || contains_text(f.text.as_str(), "NotFound") || contains_text(f.text.as_str(), "NoSuchKey")
        || contains_text(f.text.as_str(), "404")
}

/// The result of an existence check: present, absent, or a classified error.
pub open spec fn head_result_spec(bucket: Seq<char>, key: Seq<char>, reply: Result<(), CallFailure>) -> Result<bool, ErrorView> {
    match reply {
        Ok(_) => Ok(true),
        Err(f) => if is_not_found(f) {
            Ok(false)
        } else if code_is(f, "AccessDenied"@) {
            Err(ErrorView::AccessDenied { bucket: bucket, key: key })
        } else {
            Err(ErrorView::Backend { operation: Operation::HeadObject, detail: f.text@ })
        },
    }
}

/// Classifies the reply to an existence check of `key` in `bucket`: a
/// success means present, a not-found failure means absent, access denial
/// and every other failure are errors.
pub fn head_object_outcome(bucket: &str, key: &str, reply: Result<(), CallFailure>) -> (r: Result<bool, S3Error>)
    ensures
        result_view(r) == head_result_spec(bucket@, key@, reply),
{
    match reply {
        Ok(()) => Ok(true),
        Err(f) => {
            if not_found(&f) {
                Ok(false)
            } else if has_code(&f, "AccessDenied") {
                Err(S3Error::AccessDenied { bucket: bucket.to_owned(), key: key.to_owned() })
            } else {
                Err(S3Error::Backend { operation: Operation::HeadObject, detail: f.text })
            }
        },
    }
}

/// How a failed write or read is classified: dispatch failures apart,
/// everything else a backend error of `op`.
pub open spec fn failure_view(op: Operation, f: CallFailure) -> ErrorView {
    if f.dispatch {
        ErrorView::Dispatch { detail: f.text@ }
    } else {
        ErrorView::Backend { operation: op, detail: f.text@ }
    }
}

fn classify_failure(op: Operation, f: CallFailure) -> (r: S3Error)
    ensures
        r@ == failure_view(op, f),
{
    if f.dispatch {
        S3Error::Dispatch { detail: f.text }
    } else {
        S3Error::Backend { operation: op, detail: f.text }
    }
}

/// Classifies the reply to a bucket creation. A bucket that already exists
/// is a backend rejection like any other, not a success.
pub fn create_bucket_outcome(reply: Result<(), CallFailure>) -> (r: Result<bool, S3Error>)
    ensures
        match reply {
            Ok(_) => r == Ok::<bool, S3Error>(true),
            Err(f) => result_view(r) == Err::<bool, ErrorView>(failure_view(Operation::CreateBucket, f)),
        },
{
    match reply {
        Ok(()) => Ok(true),
        Err(f) => Err(classify_failure(Operation::CreateBucket, f)),
    }
}

/// `s` without its leading double quotes.
pub open spec fn strip_leading_quotes(s: Seq<char>) -> Seq<char>
    decreases s.len(),
{
    if s.len() > 0 && s[0] == '"' {
        strip_leading_quotes(s.drop_first())
    } else {
        s
    }
}

/// `s` without its trailing double quotes.
pub open spec fn strip_trailing_quotes(s: Seq<char>) -> Seq<char>
    decreases s.len(),
{
    if s.len() > 0 && s.last() == '"' {
        strip_trailing_quotes(s.drop_last())
    } else {
        s
    }
}

/// `s` without the double quotes at either end.
pub open spec fn unquoted(s: Seq<char>) -> Seq<char> {
    strip_trailing_quotes(strip_leading_quotes(s))
}

/// Removes every double quote at the start and at the end of `s`.
pub fn trim_quotes(s: &str) -> (r: String)
    ensures
        r@ == unquoted(s@),
{
    let n = s.unicode_len();
    let mut lo: usize = 0;
    assert(s@.subrange(0, n as int) =~= s@);
    while lo < n && s.get_char(lo) == '"'
        invariant
            lo <= n,
            n == s@.len(),
            strip_leading_quotes(s@) == strip_leading_quotes(s@.subrange(lo as int, n as int)),
        decreases n - lo,
    {
        assert(s@.subrange(lo as int, n as int).drop_first() =~= s@.subrange(lo + 1, n as int));
        lo = lo + 1;
    }
    let ghost mid = s@.subrange(lo as int, n as int);
    assert(strip_leading_quotes(s@) == mid);
    let mut hi: usize = n;
    while hi > lo && s.get_char(hi - 1) == '"'
        invariant
            lo <= hi <= n,
            n == s@.len(),
            mid == s@.subrange(lo as int, n as int),
            strip_trailing_quotes(mid) == strip_trailing_quotes(s@.subrange(lo as int, hi as int)),
        decreases hi - lo,
    {
        assert(s@.subrange(lo as int, hi as int).drop_last() =~= s@.subrange(lo as int, hi - 1));
        hi = hi - 1;
    }
    s.substring_char(lo, hi).to_owned()
}

/// Classifies the reply to a write: on success, the entity tag the backend
/// reported (empty when none), without its quotes.
pub fn put_object_outcome(reply: Result<Option<String>, CallFailure>) -> (r: Result<String, S3Error>)
    ensures
        match reply {
            Ok(Some(t)) => r matches Ok(s) && s@ == unquoted(t@),
            Ok(None) => r matches Ok(s) && s@ == Seq::<char>::empty(),
            Err(f) => result_view(r) == Err::<String, ErrorView>(failure_view(Operation::PutObject, f)),
        },
{
    match reply {
        Ok(Some(t)) => Ok(trim_quotes(t.as_str())),
        Ok(None) => Ok(String::new()),
        Err(f) => Err(classify_failure(Operation::PutObject, f)),
    }
}

/// Classifies the reply to a read. The outer result is the request's, the
/// inner one the collection of its body; on success the collected bytes are
/// returned unchanged.
pub fn get_object_outcome(reply: Result<Result<Vec<u8>, String>, CallFailure>) -> (r: Result<Vec<u8>, S3Error>)
    ensures
        match reply {
            Ok(Ok(b)) => r matches Ok(v) && v@ == b@,
            Ok(Err(d)) => result_view(r) == Err::<Vec<u8>, ErrorView>(ErrorView::Body { detail: d@ }),
            Err(f) => result_view(r) == Err::<Vec<u8>, ErrorView>(failure_view(Operation::GetObject, f)),
        },
{
    match reply {
        Ok(Ok(b)) => Ok(b),
        Ok(Err(d)) => Err(S3Error::Body { detail: d }),
        Err(f) => Err(classify_failure(Operation::GetObject, f)),
    }
}

/// The text that names a failed operation.
pub open spec fn operation_label(op: Operation) -> Seq<char> {
    match op {
        Operation::HeadObject => "S3 HeadObject error: "@,
        Operation::CreateBucket => "CreateBucket failed: "@,
        Operation::PutObject => "PutObject failed: "@,
        Operation::GetObject => "GetObject failed: "@,
    }
}

/// The message reported for an error.
pub open spec fn message_of(e: ErrorView) -> Seq<char> {
    match e {
        ErrorView::Config(f) => env_var_name(f) + " not set"@,
        ErrorView::AccessDenied { bucket, key } => "AccessDenied for s3://"@ + bucket + "/"@ + key
            + " (check credentials/policy)"@,
        ErrorView::Dispatch { detail } => "Dispatch failure: "@ + detail,
        ErrorView::Backend { operation, detail } => operation_label(operation) + detail,
        ErrorView::Body { detail } => "Collect error: "@ + detail,
    }
}

impl Operation {
    fn label(&self) -> (r: &'static str)
        ensures
            r@ == operation_label(*self),
    {
        match self {
            Operation::HeadObject => "S3 HeadObject error: ",
            Operation::CreateBucket => "CreateBucket failed: ",
            Operation::PutObject => "PutObject failed: ",
            Operation::GetObject => "GetObject failed: ",
        }
    }
}

impl S3Error {
    /// The message reported to the caller, with the bucket and key where
    /// they help diagnose the failure.
    pub fn message(&self) -> (r: String)
        ensures
            r@ == message_of(self@),
    {
        match self {
            S3Error::Config(f) => {
                let mut r = String::from_str(f.env_var());
                r.append(" not set");
                r
            },
            S3Error::AccessDenied { bucket, key } => {
                let mut r = String::from_str("AccessDenied for s3://");
                r.append(bucket.as_str());
                r.append("/");
                r.append(key.as_str());
                r.append(" (check credentials/policy)");
                r
            },
            S3Error::Dispatch { detail } => {
                let mut r = String::from_str("Dispatch failure: ");
                r.append(detail.as_str());
                r
            },
            S3Error::Backend { operation, detail } => {
                let mut r = String::from_str(operation.label());
                r.append(detail.as_str());
                r
            },
            S3Error::Body { detail } => {
                let mut r = String::from_str("Collect error: ");
                r.append(detail.as_str());
                r
            },
        }
    }
}

} // verus!
