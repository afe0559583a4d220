//! A backend that keeps the values of key/value storages in InfluxDB databases.
//!
//! The backend decides and the caller acts: what is asked of the server is worked out here, sent by
//! the caller, and the answer is handed back here. Every decision has a contract over mathematical
//! models of what it reads and returns.
//!
//! - [`backend`] makes a backend from its properties, and plans its storages.
//! - [`plan`] opens a planned storage: its database is looked for, and made if need be.
//! - [`storage`] stores, reads and deletes values, and closes a storage.
//! - [`point`] turns values into the points that they are stored as, and back.
//! - [`mark`] keeps values out that are older than a deletion.
//! - [`query`] writes the queries that values and marks are read with.
//! - [`time`] evaluates the time ranges of selectors, with [`offset`] for numbers of seconds with a
//!   fraction, and [`timestamp`] renders and reads timestamps.
//! - [`config`], [`closure`] and [`json`] read configurations, and [`bucket`] deals with databases.
//! - [`regex`] translates key expressions, [`error`] lists what can go wrong, and [`text`] renders
//!   integers.

use vstd::prelude::*;

pub mod backend;
pub mod bucket;
pub mod closure;
pub mod config;
pub mod error;
pub mod json;
pub mod mark;
pub mod offset;
pub mod plan;
pub mod point;
pub mod query;
pub mod regex;
pub mod storage;
pub mod text;
pub mod time;
pub mod timestamp;

pub use crate::backend::{
    check_ready, create_volume, long_version, Capability, History, InfluxDbBackend, Persistence,
};
pub use crate::bucket::{
    bucket_request, create_db, db_name_for, generate_db_name, is_db_existing, z_create_bucket,
};
pub use crate::closure::OnClosure;
pub use crate::config::{
    exposure_of, extract_credentials, get_db_id, get_private_conf, Exposure, InfluxDbCredentials,
    InfluxDbVersion,
    PROP_BACKEND_INFLUXDB_VERSION, PROP_BACKEND_ORG_ID, PROP_BACKEND_URL, PROP_STORAGE_CREATE_DB,
    PROP_STORAGE_DB, PROP_STORAGE_DB_ID, PROP_STORAGE_ON_CLOSURE, PROP_TOKEN,
};
pub use crate::error::Error;
pub use crate::mark::is_outdated;
pub use crate::offset::Offset;
pub use crate::plan::{Access, OpeningStep, StoragePlan};
pub use crate::point::{
    build_deletion_point, build_put_point, encode_payload, measurement_of, read_points,
    try_read_points, SampleValue, StoredData, ZenohPoint, NONE_KEY,
};
pub use crate::query::{write_mark_query, write_query};
pub use crate::regex::{influx_regex_all, key_exprs_to_influx_regex};
pub use crate::storage::{
    schedule_measurement_drop, write_measurement_predicate, ClosingAction, DeleteRequest, Deletion, InfluxDbStorage,
    MeasurementDrop, StorageInsertionResult, WriteRequest, DROP_MEASUREMENT_TIMEOUT_MS,
};
pub use crate::time::{
    calculate_time, calculate_time_at, calculate_time_in, is_stopping_reader, time_from_parameters,
    time_from_range, time_of_range, TimeBound, TimeExpr, TimeRange,
};
pub use crate::timestamp::{entries_at, is_in_era, Timestamp};

verus! {

}
