//! The error kinds a reconciliation can end in, and their metric labels.

use vstd::prelude::*;

verus! {

/// Everything that can go wrong during a reconciliation.
#[derive(Debug)]
pub enum Error {
    /// Encoding or decoding of an object failed; the payload describes how.
    SerializationError(String),
    /// A cluster-API call failed; the payload describes how.
    KubeError(String),
    /// A reconciliation error was raised inside the finalizer wrapper; the
    /// payload describes the wrapped error.
    FinalizerError(String),
    /// The named instance's declaration is invalid, for the stated reason.
    IllegalGarage(String, String),
    /// The named bucket's declaration is invalid, for the stated reason.
    IllegalBucket(String, String),
    /// The named access key's declaration is invalid, for the stated reason.
    IllegalAccessKey(String, String),
    /// The named storage claim does not exist.
    MissingDataSource(String),
    /// The named credential object does not exist.
    MissingSecret(String),
    /// The credential object lacks the named entry.
    MissingSecretData(String),
    /// An admin-API call failed; the payload describes how.
    NetworkError(String),
}

/// The mathematical shape of an [`Error`].
pub enum ErrorView {
    SerializationError(Seq<char>),
    KubeError(Seq<char>),
    FinalizerError(Seq<char>),
    IllegalGarage(Seq<char>, Seq<char>),
    IllegalBucket(Seq<char>, Seq<char>),
    IllegalAccessKey(Seq<char>, Seq<char>),
    MissingDataSource(Seq<char>),
    MissingSecret(Seq<char>),
    MissingSecretData(Seq<char>),
    NetworkError(Seq<char>),
}

impl View for Error {
    type V = ErrorView;

    open spec fn view(&self) -> ErrorView {
        match self {
            Error::SerializationError(s) => ErrorView::SerializationError(s@),
            Error::KubeError(s) => ErrorView::KubeError(s@),
            Error::FinalizerError(s) => ErrorView::FinalizerError(s@),
            Error::IllegalGarage(n, r) => ErrorView::IllegalGarage(n@, r@),
            Error::IllegalBucket(n, r) => ErrorView::IllegalBucket(n@, r@),
            Error::IllegalAccessKey(n, r) => ErrorView::IllegalAccessKey(n@, r@),
            Error::MissingDataSource(s) => ErrorView::MissingDataSource(s@),
            Error::MissingSecret(s) => ErrorView::MissingSecret(s@),
            Error::MissingSecretData(s) => ErrorView::MissingSecretData(s@),
            Error::NetworkError(s) => ErrorView::NetworkError(s@),
        }
    }
}

/// The lowercase kind label an error is counted under in the failure metric.
pub open spec fn spec_metric_label(e: ErrorView) -> Seq<char> {
    match e {
        ErrorView::SerializationError(_) => "serializationerror"@,
        ErrorView::KubeError(_) => "kubeerror"@,
        ErrorView::FinalizerError(_) => "finalizererror"@,
        ErrorView::IllegalGarage(_, _) => "illegalgarage"@,
        ErrorView::IllegalBucket(_, _) => "illegalbucket"@,
        ErrorView::IllegalAccessKey(_, _) => "illegalaccesskey"@,
        ErrorView::MissingDataSource(_) => "missingdatasource"@,
        ErrorView::MissingSecret(_) => "missingsecret"@,
        ErrorView::MissingSecretData(_) => "missingsecretdata"@,
        ErrorView::NetworkError(_) => "networkerror"@,
    }
}

impl Error {
    /// The lowercase kind label this error is counted under.
    pub fn metric_label(&self) -> (r: String)
        ensures
            r@ == spec_metric_label(self@),
    {
        match self {
            Error::SerializationError(_) => String::from_str("serializationerror"),
            Error::KubeError(_) => String::from_str("kubeerror"),
            Error::FinalizerError(_) => String::from_str("finalizererror"),
            Error::IllegalGarage(_, _) => String::from_str("illegalgarage"),
            Error::IllegalBucket(_, _) => String::from_str("illegalbucket"),
            Error::IllegalAccessKey(_, _) => String::from_str("illegalaccesskey"),
            Error::MissingDataSource(_) => String::from_str("missingdatasource"),
            Error::MissingSecret(_) => String::from_str("missingsecret"),
            Error::MissingSecretData(_) => String::from_str("missingsecretdata"),
            Error::NetworkError(_) => String::from_str("networkerror"),
        }
    }
}

} // verus!
