//! What can go wrong, and how it is reported.

use crate::text::{debug_of, debug_text};
use vstd::prelude::*;

verus! {

/// The errors of the backend.
#[derive(Debug)]
pub enum Error {
    /// A property that must be a string is something else.
    NotAString { property: String },
    /// The organisation or the token is not given.
    MissingCredentials,
    /// The URL of the server is not given, or is not a string.
    UrlNotAString,
    /// The server answered that it is not ready.
    ServerNotReady,
    /// The server could not be asked whether it is ready.
    VolumeCreation { cause: String },
    /// A storage has no configuration object of its own.
    NoVolumeConfig,
    /// The action on closure of a storage is none of those that are known.
    OnClosureValue { storage: String },
    /// The database of a storage is given, but not as a string.
    DbNotAString,
    /// The database of a storage could not be made.
    DatabaseNotCreated { db: String },
    /// Looking for the database of a storage, or making it, failed.
    StorageCreation { cause: String },
    /// The action on closure in a list of properties is none of those that are known.
    UnsupportedOnClosure { value: String },
    /// The configuration of a storage names no database.
    NoDb,
    /// A value could not be written.
    Put { measurement: String, cause: String },
    /// The points of a measurement could not be deleted.
    DeletePoints { measurement: String, cause: String },
    /// The deletion of a measurement could not be recorded.
    MarkDeleted { measurement: String, cause: String },
    /// The time range of a selector is malformed.
    TimeRange { cause: String },
    /// The time range of a selector cannot be evaluated.
    TimeOutOfRange,
}

/// The errors of the backend, over mathematical strings.
pub enum ErrorView {
    NotAString { property: Seq<char> },
    MissingCredentials,
    UrlNotAString,
    ServerNotReady,
    VolumeCreation { cause: Seq<char> },
    NoVolumeConfig,
    OnClosureValue { storage: Seq<char> },
    DbNotAString,
    DatabaseNotCreated { db: Seq<char> },
    StorageCreation { cause: Seq<char> },
    UnsupportedOnClosure { value: Seq<char> },
    NoDb,
    Put { measurement: Seq<char>, cause: Seq<char> },
    DeletePoints { measurement: Seq<char>, cause: Seq<char> },
    MarkDeleted { measurement: Seq<char>, cause: Seq<char> },
    TimeRange { cause: Seq<char> },
    TimeOutOfRange,
}

impl View for Error {
    type V = ErrorView;

    open spec fn view(&self) -> ErrorView {
        match self {
            Error::NotAString { property } => ErrorView::NotAString { property: property@ },
            Error::MissingCredentials => ErrorView::MissingCredentials,
            Error::UrlNotAString => ErrorView::UrlNotAString,
            Error::ServerNotReady => ErrorView::ServerNotReady,
            Error::VolumeCreation { cause } => ErrorView::VolumeCreation { cause: cause@ },
            Error::NoVolumeConfig => ErrorView::NoVolumeConfig,
            Error::OnClosureValue { storage } => ErrorView::OnClosureValue { storage: storage@ },
            Error::DbNotAString => ErrorView::DbNotAString,
            Error::DatabaseNotCreated { db } => ErrorView::DatabaseNotCreated { db: db@ },
            Error::StorageCreation { cause } => ErrorView::StorageCreation { cause: cause@ },
            Error::UnsupportedOnClosure { value } => ErrorView::UnsupportedOnClosure {
                value: value@,
            },
            Error::NoDb => ErrorView::NoDb,
            Error::Put { measurement, cause } => ErrorView::Put {
                measurement: measurement@,
                cause: cause@,
            },
            Error::DeletePoints { measurement, cause } => ErrorView::DeletePoints {
                measurement: measurement@,
                cause: cause@,
            },
            Error::MarkDeleted { measurement, cause } => ErrorView::MarkDeleted {
                measurement: measurement@,
                cause: cause@,
            },
            Error::TimeRange { cause } => ErrorView::TimeRange { cause: cause@ },
            Error::TimeOutOfRange => ErrorView::TimeOutOfRange,
        }
    }
}

impl ErrorView {
    /// The report of this error.
    pub open spec fn text(self) -> Seq<char> {
        match self {
            ErrorView::NotAString { property } => "Optional property `"@ + property
                + "` must be a string"@,
            ErrorView::MissingCredentials => "Properties `org_id` and `token` must exist"@,
            ErrorView::UrlNotAString =>
                "Mandatory property `url` for InfluxDb Backend must be a string"@,
            ErrorView::ServerNotReady => "Influxdb server is not ready! "@,
            ErrorView::VolumeCreation { cause } => "Failed to create InfluxDb Volume : "@ + cause,
            ErrorView::NoVolumeConfig =>
                "influxdb backed storages need some volume-specific configuration"@,
            ErrorView::OnClosureValue { storage } => "`on_closure` property of storage `"@ + storage
                + "` must be one of \"do_nothing\" (default), \"drop_db\" and \"drop_series\""@,
            ErrorView::DbNotAString => ""@,
            ErrorView::DatabaseNotCreated { db } => "Database '"@ + db
                + "' wasnt't created in InfluxDb"@,
            ErrorView::StorageCreation { cause } => "Failed to create InfluxDb Storage : "@ + cause,
            ErrorView::UnsupportedOnClosure { value } =>
                "Unsupported value for 'on_closure' property: "@ + value,
            ErrorView::NoDb => "no db was found"@,
            ErrorView::Put { measurement, cause } => "Failed to put Value for "@ + debug_text(
                measurement,
            )
                + " in InfluxDb storage : "@ + cause,
            ErrorView::DeletePoints { measurement, cause } =>
                "Failed to delete points for measurement '"@ + measurement
                    + "' from InfluxDb storage : "@ + cause,
            ErrorView::MarkDeleted { measurement, cause } => "Failed to mark measurement "@
                + debug_text(measurement) + " as deleted : "@ + cause,
            ErrorView::TimeRange { cause } => cause,
            ErrorView::TimeOutOfRange => "time range cannot be evaluated"@,
        }
    }
}

impl Error {
    /// Renders the report of this error.
    pub fn message(&self) -> (res: String)
        ensures
            res@ == self@.text(),
    {
        match self {
            Error::NotAString { property } => framed(
                "Optional property `",
                property,
                "` must be a string",
            ),
            Error::MissingCredentials => "Properties `org_id` and `token` must exist".to_owned(),
            Error::UrlNotAString =>
                "Mandatory property `url` for InfluxDb Backend must be a string".to_owned(),
            Error::ServerNotReady => "Influxdb server is not ready! ".to_owned(),
            Error::VolumeCreation { cause } => prefixed("Failed to create InfluxDb Volume : ", cause),
            Error::NoVolumeConfig =>
                "influxdb backed storages need some volume-specific configuration".to_owned(),
            Error::OnClosureValue { storage } => framed(
                "`on_closure` property of storage `",
                storage,
                "` must be one of \"do_nothing\" (default), \"drop_db\" and \"drop_series\"",
            ),
            Error::DbNotAString => "".to_owned(),
            Error::DatabaseNotCreated { db } => framed(
                "Database '",
                db,
                "' wasnt't created in InfluxDb",
            ),
            Error::StorageCreation { cause } => prefixed(
                "Failed to create InfluxDb Storage : ",
                cause,
            ),
            Error::UnsupportedOnClosure { value } => prefixed(
                "Unsupported value for 'on_closure' property: ",
                value,
            ),
            Error::NoDb => "no db was found".to_owned(),
            Error::Put { measurement, cause } => {
                let mut res = framed(
                    "Failed to put Value for ",
                    &debug_of(measurement.as_str()),
                    " in InfluxDb storage : ",
                );
                res.push_str(cause.as_str());
                res
            },
            Error::DeletePoints { measurement, cause } => {
                let mut res = framed(
                    "Failed to delete points for measurement '",
                    measurement,
                    "' from InfluxDb storage : ",
                );
                res.push_str(cause.as_str());
                res
            },
            Error::MarkDeleted { measurement, cause } => {
                let mut res = framed(
                    "Failed to mark measurement ",
                    &debug_of(measurement.as_str()),
                    " as deleted : ",
                );
                res.push_str(cause.as_str());
                res
            },
            Error::TimeRange { cause } => cause.clone(),
            Error::TimeOutOfRange => "time range cannot be evaluated".to_owned(),
        }
    }
}

/// `head` followed by `tail`.
fn prefixed(head: &str, tail: &String) -> (res: String)
    ensures
        res@ == head@ + tail@,
{
    let mut res = head.to_owned();
    res.push_str(tail.as_str());
    res
}

/// `middle` between `head` and `tail`.
fn framed(head: &str, middle: &String, tail: &str) -> (res: String)
    ensures
        res@ == head@ + middle@ + tail@,
{
    let mut res = prefixed(head, middle);
    res.push_str(tail);
    res
}

/// The report of every error holds what is known of it, word for word, in a sentence that does not
/// depend on it.
pub proof fn law_reports_hold_their_details(detail: Seq<char>, cause: Seq<char>)
    ensures
        (ErrorView::NotAString { property: detail }).text() == "Optional property `"@ + detail
            + "` must be a string"@,
        ErrorView::MissingCredentials.text() == "Properties `org_id` and `token` must exist"@,
        ErrorView::UrlNotAString.text()
            == "Mandatory property `url` for InfluxDb Backend must be a string"@,
        ErrorView::ServerNotReady.text() == "Influxdb server is not ready! "@,
        (ErrorView::VolumeCreation { cause }).text() == "Failed to create InfluxDb Volume : "@
            + cause,
        ErrorView::NoVolumeConfig.text()
            == "influxdb backed storages need some volume-specific configuration"@,
        (ErrorView::OnClosureValue { storage: detail }).text()
            == "`on_closure` property of storage `"@ + detail
            + "` must be one of \"do_nothing\" (default), \"drop_db\" and \"drop_series\""@,
        ErrorView::DbNotAString.text() == ""@,
        (ErrorView::DatabaseNotCreated { db: detail }).text() == "Database '"@ + detail
            + "' wasnt't created in InfluxDb"@,
        (ErrorView::StorageCreation { cause }).text() == "Failed to create InfluxDb Storage : "@
            + cause,
        (ErrorView::UnsupportedOnClosure { value: detail }).text()
            == "Unsupported value for 'on_closure' property: "@ + detail,
        ErrorView::NoDb.text() == "no db was found"@,
        (ErrorView::Put { measurement: detail, cause }).text() == "Failed to put Value for "@
            + debug_text(detail) + " in InfluxDb storage : "@ + cause,
        (ErrorView::DeletePoints { measurement: detail, cause }).text()
            == "Failed to delete points for measurement '"@ + detail
            + "' from InfluxDb storage : "@ + cause,
        (ErrorView::MarkDeleted { measurement: detail, cause }).text()
            == "Failed to mark measurement "@ + debug_text(detail) + " as deleted : "@ + cause,
        (ErrorView::TimeRange { cause }).text() == cause,
        ErrorView::TimeOutOfRange.text() == "time range cannot be evaluated"@,
{
}

/// An error is viewed as the same error, with the same details.
pub proof fn law_errors_are_viewed_whole(error: Error)
    ensures
        match error {
            Error::NotAString { property } => error@ == (ErrorView::NotAString {
                property: property@,
            }),
            Error::MissingCredentials => error@ == ErrorView::MissingCredentials,
            Error::UrlNotAString => error@ == ErrorView::UrlNotAString,
            Error::ServerNotReady => error@ == ErrorView::ServerNotReady,
            Error::VolumeCreation { cause } => error@ == (ErrorView::VolumeCreation {
                cause: cause@,
            }),
            Error::NoVolumeConfig => error@ == ErrorView::NoVolumeConfig,
            Error::OnClosureValue { storage } => error@ == (ErrorView::OnClosureValue {
                storage: storage@,
            }),
            Error::DbNotAString => error@ == ErrorView::DbNotAString,
            Error::DatabaseNotCreated { db } => error@ == (ErrorView::DatabaseNotCreated {
                db: db@,
            }),
            Error::StorageCreation { cause } => error@ == (ErrorView::StorageCreation {
                cause: cause@,
            }),
            Error::UnsupportedOnClosure { value } => error@ == (ErrorView::UnsupportedOnClosure {
                value: value@,
            }),
            Error::NoDb => error@ == ErrorView::NoDb,
            Error::Put { measurement, cause } => error@ == (ErrorView::Put {
                measurement: measurement@,
                cause: cause@,
            }),
            Error::DeletePoints { measurement, cause } => error@ == (ErrorView::DeletePoints {
                measurement: measurement@,
                cause: cause@,
            }),
            Error::MarkDeleted { measurement, cause } => error@ == (ErrorView::MarkDeleted {
                measurement: measurement@,
                cause: cause@,
            }),
            Error::TimeRange { cause } => error@ == (ErrorView::TimeRange { cause: cause@ }),
            Error::TimeOutOfRange => error@ == ErrorView::TimeOutOfRange,
        },
{
}

}
