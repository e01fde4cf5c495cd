//! Errors of `zfs(8)` and `libzfs_core`, and of the names of datasets.
use vstd::prelude::*;

use crate::outside::{decode_lossy, io_error_invalid_input, utf8_lossy};
use crate::path::same_path;
use super::string_map::StringMap;
use crate::zpool::vdev::{same_paths, strings_view};

verus! {

/// What is wrong with the name of a dataset.
#[derive(Debug, Clone)]
pub enum ValidationError {
    MultipleZpools(Vec<String>),
    NameTooLong(String),
    MissingName(String),
    MissingSnapshotName(String),
    MissingPool(String),
    Unknown(String),
}

/// What a validation error holds.
pub enum ValidationErrorView {
    MultipleZpools(Seq<Seq<char>>),
    NameTooLong(Seq<char>),
    MissingName(Seq<char>),
    MissingSnapshotName(Seq<char>),
    MissingPool(Seq<char>),
    Unknown(Seq<char>),
}

impl View for ValidationError {
    type V = ValidationErrorView;

    open spec fn view(&self) -> ValidationErrorView {
        match self {
            ValidationError::MultipleZpools(v) => ValidationErrorView::MultipleZpools(strings_view(v@)),
            ValidationError::NameTooLong(p) => ValidationErrorView::NameTooLong(p@),
            ValidationError::MissingName(p) => ValidationErrorView::MissingName(p@),
            ValidationError::MissingSnapshotName(p) => ValidationErrorView::MissingSnapshotName(p@),
            ValidationError::MissingPool(p) => ValidationErrorView::MissingPool(p@),
            ValidationError::Unknown(p) => ValidationErrorView::Unknown(p@),
        }
    }
}

/// Two validation errors are equal when they are of the same kind and name
/// the same datasets, paths compared as paths.
pub open spec fn same_validation_error(a: ValidationErrorView, b: ValidationErrorView) -> bool {
    match (a, b) {
        (ValidationErrorView::MultipleZpools(x), ValidationErrorView::MultipleZpools(y)) => same_paths(x, y),
        (ValidationErrorView::NameTooLong(x), ValidationErrorView::NameTooLong(y)) => same_path(x, y),
        (ValidationErrorView::MissingName(x), ValidationErrorView::MissingName(y)) => same_path(x, y),
        (
            ValidationErrorView::MissingSnapshotName(x),
            ValidationErrorView::MissingSnapshotName(y),
        ) => same_path(x, y),
        (ValidationErrorView::MissingPool(x), ValidationErrorView::MissingPool(y)) => same_path(x, y),
        (ValidationErrorView::Unknown(x), ValidationErrorView::Unknown(y)) => same_path(x, y),
        _ => false,
    }
}

impl PartialEq for ValidationError {
    fn eq(&self, other: &ValidationError) -> (r: bool) {
        match (self, other) {
            (ValidationError::MultipleZpools(x), ValidationError::MultipleZpools(y)) => {
                crate::zpool::vdev::same_path_lists(x, y)
            },
            (ValidationError::NameTooLong(x), ValidationError::NameTooLong(y)) => {
                crate::zpool::vdev::same_path_str(x.as_str(), y.as_str())
            },
            (ValidationError::MissingName(x), ValidationError::MissingName(y)) => {
                crate::zpool::vdev::same_path_str(x.as_str(), y.as_str())
            },
            (ValidationError::MissingSnapshotName(x), ValidationError::MissingSnapshotName(y)) => {
                crate::zpool::vdev::same_path_str(x.as_str(), y.as_str())
            },
            (ValidationError::MissingPool(x), ValidationError::MissingPool(y)) => {
                crate::zpool::vdev::same_path_str(x.as_str(), y.as_str())
            },
            (ValidationError::Unknown(x), ValidationError::Unknown(y)) => {
                crate::zpool::vdev::same_path_str(x.as_str(), y.as_str())
            },
            _ => false,
        }
    }
}

impl vstd::std_specs::cmp::PartialEqSpecImpl for ValidationError {
    open spec fn obeys_eq_spec() -> bool {
        true
    }

    open spec fn eq_spec(&self, other: &ValidationError) -> bool {
        same_validation_error(self@, other@)
    }
}

impl Eq for ValidationError {}

/// The views of a list of validation errors.
pub open spec fn validation_errors_view(v: Seq<ValidationError>) -> Seq<ValidationErrorView> {
    v.map_values(|e: ValidationError| e@)
}

/// Whether two lists of validation errors are equal one for one.
pub open spec fn same_validation_errors(a: Seq<ValidationErrorView>, b: Seq<ValidationErrorView>) -> bool {
    &&& a.len() == b.len()
    &&& forall|i: int| 0 <= i < a.len() ==> same_validation_error(#[trigger] a[i], b[i])
}

/// Errors of `zfs(8)` and `libzfs_core`.
#[derive(Debug)]
pub enum Error {
    /// `zfs` not found in the PATH. Open3 specific error.
    CmdNotFound,
    LZCInitializationFailed(std::io::Error),
    /// A name/value list operation failed; the text says how.
    NvOpError(String),
    Io(std::io::Error),
    Unknown,
    UnknownSoFar(String),
    DatasetNotFound(String),
    ValidationErrors(Vec<ValidationError>),
    /// Several operations of one call failed: each name with what it failed with.
    MultiOpError(StringMap),
    Unimplemented,
}

/// Identification of an error without its payload.
#[derive(Copy, Clone, Eq, PartialEq, Debug, Structural)]
pub enum ErrorKind {
    CmdNotFound,
    LZCInitializationFailed,
    NvOpError,
    InvalidInput,
    Io,
    Unknown,
    DatasetNotFound,
    ValidationErrors,
    Unimplemented,
    MultiOpError,
}

/// The kind of an error.
pub open spec fn spec_kind(e: Error) -> ErrorKind {
    match e {
        Error::CmdNotFound => ErrorKind::CmdNotFound,
        Error::LZCInitializationFailed(_) => ErrorKind::LZCInitializationFailed,
        Error::NvOpError(_) => ErrorKind::NvOpError,
        Error::Io(_) => ErrorKind::Io,
        Error::DatasetNotFound(_) => ErrorKind::DatasetNotFound,
        Error::Unknown => ErrorKind::Unknown,
        Error::UnknownSoFar(_) => ErrorKind::Unknown,
        Error::ValidationErrors(_) => ErrorKind::ValidationErrors,
        Error::MultiOpError(_) => ErrorKind::MultiOpError,
        Error::Unimplemented => ErrorKind::Unimplemented,
    }
}

/// Whether `c` may stand in the name of a dataset as `zfs(8)` prints it.
pub open spec fn is_name_char(c: char) -> bool {
    !crate::text::is_space(c) && c != '\''
}

/// The first position at or after `i` that does not hold a name character.
pub open spec fn name_end(s: Seq<char>, i: int) -> int
    decreases s.len() - i,
{
    if i < 0 || i >= s.len() {
        if i < 0 {
            0
        } else {
            s.len() as int
        }
    } else if is_name_char(s[i]) {
        name_end(s, i + 1)
    } else {
        i
    }
}

/// The dataset that stderr text `t` of `zfs(8)` reports missing: `t` starts
/// with `cannot open '`, the name, and `': dataset does not exist`.
pub open spec fn spec_dataset_not_found(t: Seq<char>) -> Option<Seq<char>> {
    let pre = "cannot open '"@;
    let suf = "': dataset does not exist"@;
    if t.len() >= pre.len() && t.take(pre.len() as int) == pre {
        let k = name_end(t, pre.len() as int);
        if k > pre.len() && t.len() >= k + suf.len() && t.subrange(k, k + suf.len()) == suf {
            Some(t.subrange(pre.len() as int, k))
        } else {
            None
        }
    } else {
        None
    }
}

/// What `zfs(8)` prints when the dataset `n` does not exist.
pub open spec fn not_found_message(n: Seq<char>) -> Seq<char> {
    "cannot open '"@ + n + "': dataset does not exist"@
}

proof fn lemma_name_end_of_message(n: Seq<char>, i: int)
    requires
        forall|j: int| 0 <= j < n.len() ==> is_name_char(#[trigger] n[j]),
        13 <= i <= 13 + n.len(),
    ensures
        name_end(not_found_message(n), i) == 13 + n.len(),
    decreases 13 + n.len() - i,
{
    reveal_strlit("cannot open '");
    reveal_strlit("': dataset does not exist");
    let t = not_found_message(n);
    if i < 13 + n.len() {
        assert(t[i] == n[i - 13]);
        lemma_name_end_of_message(n, i + 1);
    } else {
        assert(t[i] == '\'');
    }
}

/// Reading the message `zfs(8)` prints for a missing dataset gives back the
/// dataset's name, for any name without spaces and quotes.
pub proof fn lemma_not_found_message_round_trip(n: Seq<char>)
    requires
        n.len() > 0,
        forall|j: int| 0 <= j < n.len() ==> is_name_char(#[trigger] n[j]),
    ensures
        spec_dataset_not_found(not_found_message(n)) == Some(n),
{
    reveal_strlit("cannot open '");
    reveal_strlit("': dataset does not exist");
    let pre = "cannot open '"@;
    let suf = "': dataset does not exist"@;
    let t = not_found_message(n);
    lemma_name_end_of_message(n, 13);
    assert(t.take(13) =~= pre);
    assert(t.subrange(13 + n.len() as int, 13 + n.len() + suf.len() as int) =~= suf);
    assert(t.subrange(13, 13 + n.len() as int) =~= n);
}

/// Moves from `i` to the end of the name that starts there.
pub fn name_end_from(s: &[char], i: usize) -> (r: usize)
    requires
        i <= s@.len(),
    ensures
        r == name_end(s@, i as int),
        i <= r <= s@.len(),
{
    let mut j = i;
    while j < s.len() && !(s[j] == ' ' || s[j] == '\t' || s[j] == '\n' || s[j] == '\r' || s[j] == '\'')
        invariant
            i <= j <= s@.len(),
            name_end(s@, j as int) == name_end(s@, i as int),
        decreases s@.len() - j,
    {
        j += 1;
    }
    j
}

/// The dataset that the stderr text `t` reports missing, if it does.
pub fn dataset_not_found(t: &[char]) -> (r: Option<String>)
    ensures
        crate::zpool::properties::opt_view(r) == spec_dataset_not_found(t@),
{
    proof {
        reveal_strlit("cannot open '");
        reveal_strlit("': dataset does not exist");
    }
    let pre = "cannot open '";
    let suf = "': dataset does not exist";
    let pl = pre.unicode_len();
    let sl = suf.unicode_len();
    if t.len() < pl || !crate::text::chars_eq_str(t, 0, pl, pre) {
        assert(t@.subrange(0, pl as int) =~= t@.take(pl as int));
        return None;
    }
    assert(t@.subrange(0, pl as int) =~= t@.take(pl as int));
    let k = name_end_from(t, pl);
    if k > pl && t.len() - k >= sl && crate::text::chars_eq_str(t, k, k + sl, suf) {
        Some(crate::text::string_of(t, pl, k))
    } else {
        None
    }
}

/// Whether `e` is the error that the stderr bytes `raw` of `zfs(8)` stand
/// for: read as UTF-8 (lossily), a missing dataset when the text says so,
/// else the text itself.
pub open spec fn stderr_error(e: Error, raw: Seq<u8>) -> bool {
    match spec_dataset_not_found(utf8_lossy(raw)) {
        Some(name) => e matches Error::DatasetNotFound(n) && n@ == name,
        None => e matches Error::UnknownSoFar(t) && t@ == utf8_lossy(raw),
    }
}

impl Error {
    /// The kind of the error.
    pub fn kind(&self) -> (r: ErrorKind)
        ensures
            r == spec_kind(*self),
    {
        match self {
            Error::CmdNotFound => ErrorKind::CmdNotFound,
            Error::LZCInitializationFailed(_) => ErrorKind::LZCInitializationFailed,
            Error::NvOpError(_) => ErrorKind::NvOpError,
            Error::Io(_) => ErrorKind::Io,
            Error::DatasetNotFound(_) => ErrorKind::DatasetNotFound,
            Error::Unknown => ErrorKind::Unknown,
            Error::UnknownSoFar(_) => ErrorKind::Unknown,
            Error::ValidationErrors(_) => ErrorKind::ValidationErrors,
            Error::MultiOpError(_) => ErrorKind::MultiOpError,
            Error::Unimplemented => ErrorKind::Unimplemented,
        }
    }

    /// Try to convert stderr of `zfs(8)` into an error: a missing dataset
    /// when it says so, else the text itself.
    pub fn from_stderr(stderr_raw: &[u8]) -> (r: Error)
        ensures
            stderr_error(r, stderr_raw@),
    {
        let stderr = decode_lossy(stderr_raw);
        let chars = crate::text::chars_of(stderr.as_str());
        match dataset_not_found(chars.as_slice()) {
            Some(name) => Error::DatasetNotFound(name),
            None => Error::UnknownSoFar(stderr),
        }
    }

    /// The error for input that `libzfs_core` rejects: an I/O error of kind
    /// `InvalidInput`.
    pub fn invalid_input() -> (r: Error)
        ensures
            r is Io,
    {
        Error::Io(io_error_invalid_input())
    }
}

impl From<std::io::Error> for Error {
    fn from(err: std::io::Error) -> (r: Error) {
        Error::Io(err)
    }
}

impl vstd::std_specs::convert::FromSpecImpl<std::io::Error> for Error {
    open spec fn obeys_from_spec() -> bool {
        true
    }

    open spec fn from_spec(v: std::io::Error) -> Error {
        Error::Io(v)
    }
}

impl From<ValidationError> for Error {
    fn from(err: ValidationError) -> (r: Error) {
        let mut v: Vec<ValidationError> = Vec::new();
        v.push(err);
        Error::ValidationErrors(v)
    }
}

/// Whether `e` is a list of validation errors that holds `v` alone.
pub open spec fn holds_only(e: Error, v: ValidationError) -> bool {
    e matches Error::ValidationErrors(l) && l@ == seq![v]
}

/// A list that holds one error is not determined by its view alone, so the
/// error that `from` gives is described here and not claimed of calls.
impl vstd::std_specs::convert::FromSpecImpl<ValidationError> for Error {
    open spec fn obeys_from_spec() -> bool {
        false
    }

    open spec fn from_spec(v: ValidationError) -> Error {
        choose|e: Error| #[trigger] holds_only(e, v)
    }
}

impl From<Vec<ValidationError>> for Error {
    fn from(errors: Vec<ValidationError>) -> (r: Error) {
        Error::ValidationErrors(errors)
    }
}

impl vstd::std_specs::convert::FromSpecImpl<Vec<ValidationError>> for Error {
    open spec fn obeys_from_spec() -> bool {
        true
    }

    open spec fn from_spec(v: Vec<ValidationError>) -> Error {
        Error::ValidationErrors(v)
    }
}

/// Whether two lists of validation errors are equal.
fn validation_errors_equal(a: &Vec<ValidationError>, b: &Vec<ValidationError>) -> (r: bool)
    ensures
        r == same_validation_errors(validation_errors_view(a@), validation_errors_view(b@)),
{
    if a.len() != b.len() {
        return false;
    }
    let mut i: usize = 0;
    while i < a.len()
        invariant
            a@.len() == b@.len(),
            i <= a@.len(),
            forall|k: int|
                0 <= k < i ==> same_validation_error(
                    #[trigger] validation_errors_view(a@)[k],
                    validation_errors_view(b@)[k],
                ),
        decreases a@.len() - i,
    {
        if !a[i].eq(&b[i]) {
            assert(!same_validation_error(
                validation_errors_view(a@)[i as int],
                validation_errors_view(b@)[i as int],
            ));
            return false;
        }
        i += 1;
    }
    true
}

/// Errors are equal when they are of the same kind; lists of validation
/// errors are compared one for one.
pub open spec fn same_error(a: Error, b: Error) -> bool {
    match (a, b) {
        (Error::ValidationErrors(l), Error::ValidationErrors(r)) => same_validation_errors(
            validation_errors_view(l@),
            validation_errors_view(r@),
        ),
        _ => spec_kind(a) == spec_kind(b),
    }
}

impl PartialEq for Error {
    fn eq(&self, other: &Error) -> (r: bool) {
        match (self, other) {
            (Error::ValidationErrors(l), Error::ValidationErrors(r)) => validation_errors_equal(l, r),
            _ => self.kind() == other.kind(),
        }
    }
}

impl vstd::std_specs::cmp::PartialEqSpecImpl for Error {
    open spec fn obeys_eq_spec() -> bool {
        true
    }

    open spec fn eq_spec(&self, other: &Error) -> bool {
        same_error(*self, *other)
    }
}

} // verus!
