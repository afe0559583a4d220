//! Opening a storage: the database is looked for, made if need be, and recorded.

use crate::backend::storage_plan;
use crate::bucket::{bucket_request, bucket_request_of};
use crate::closure::OnClosure;
use crate::config::{db_id, PROP_BACKEND_ORG_ID, PROP_BACKEND_URL, PROP_STORAGE_DB};
use crate::error::{Error, ErrorView};
use crate::json::{entry, json_of, value_or_insert, with_default, Json};
use crate::storage::InfluxDbStorage;
use vstd::prelude::*;

verus! {

/// What is needed to open a storage.
pub struct StoragePlan {
    /// What is done when the storage is closed.
    pub on_closure: OnClosure,
    /// The database.
    pub db: String,
    /// Whether the database is to be made if it is missing.
    pub create_db: bool,
    /// The URL of the server.
    pub url: String,
    /// The organisation that the storage belongs to.
    pub org_id: String,
    /// The token that the storage is let in with.
    pub token: String,
}

/// A storage plan, over mathematical strings.
pub struct PlanView {
    pub on_closure: OnClosure,
    pub db: Seq<char>,
    pub create_db: bool,
    pub url: Seq<char>,
    pub org_id: Seq<char>,
    pub token: Seq<char>,
}

impl View for StoragePlan {
    type V = PlanView;

    open spec fn view(&self) -> PlanView {
        PlanView {
            on_closure: self.on_closure,
            db: self.db@,
            create_db: self.create_db,
            url: self.url@,
            org_id: self.org_id@,
            token: self.token@,
        }
    }
}

/// Whose credentials a request is sent with.
#[derive(Debug, Clone, Copy, PartialEq, Eq, Structural)]
pub enum Access {
    /// Those of the backend, which may make and drop buckets.
    Admin,
    /// Those of the storage.
    Storage,
}

/// What is done next to open a storage.
pub enum OpeningStep {
    /// The server is asked for the buckets with this identifier.
    FindBucket { id: String },
    /// The server is asked for a new bucket.
    CreateBucket { request: influxdb2::models::PostBucketRequest },
    /// The storage is opened.
    Open,
}

/// A step of opening a storage, over mathematical strings. A request for a new bucket holds its
/// organisation and its name.
pub enum OpeningStepView {
    FindBucket { id: Seq<char> },
    CreateBucket { request: Seq<Seq<char>> },
    Open,
}

impl View for OpeningStep {
    type V = OpeningStepView;

    open spec fn view(&self) -> OpeningStepView {
        match self {
            OpeningStep::FindBucket { id } => OpeningStepView::FindBucket { id: id@ },
            OpeningStep::CreateBucket { request } => OpeningStepView::CreateBucket {
                request: bucket_request_of(*request),
            },
            OpeningStep::Open => OpeningStepView::Open,
        }
    }
}

impl OpeningStep {
    /// Whose credentials the request of this step is sent with, if it sends one: a bucket is made
    /// with those of the backend, and looked for with those of the storage.
    pub fn access(&self) -> (res: Option<Access>)
        ensures
            res == match self@ {
                OpeningStepView::FindBucket { .. } => Some(Access::Storage),
                OpeningStepView::CreateBucket { .. } => Some(Access::Admin),
                OpeningStepView::Open => None,
            },
    {
        match self {
            OpeningStep::FindBucket { .. } => Some(Access::Storage),
            OpeningStep::CreateBucket { .. } => Some(Access::Admin),
            OpeningStep::Open => None,
        }
    }
}

impl PlanView {
    /// The configuration of the storage with the database, the URL and the organisation recorded
    /// in it, each unless the configuration has a value for it already.
    pub open spec fn completed(self, entries: Map<Seq<char>, Json>) -> Map<Seq<char>, Json> {
        with_default(
            with_default(
                with_default(entries, PROP_STORAGE_DB@, self.db),
                PROP_BACKEND_URL@,
                self.url,
            ),
            PROP_BACKEND_ORG_ID@,
            self.org_id,
        )
    }
}

impl StoragePlan {
    /// The first step: the database is looked for.
    pub fn start(&self) -> (res: OpeningStep)
        ensures
            res@ == (OpeningStepView::FindBucket { id: self@.db }),
    {
        OpeningStep::FindBucket { id: self.db.clone() }
    }

    /// The step after the database was looked for: it is made if it is missing and the plan says
    /// so, and otherwise the storage is opened.
    pub fn after_lookup(&self, existing: Result<bool, Error>) -> (res: Result<OpeningStep, Error>)
        ensures
            match existing {
                Ok(existing) => {
                    &&& res matches Ok(step)
                    &&& step@ == if !existing && self@.create_db {
                        OpeningStepView::CreateBucket { request: seq![self@.org_id, self@.db] }
                    } else {
                        OpeningStepView::Open
                    }
                },
                Err(cause) => res matches Err(e) && e@ == (ErrorView::StorageCreation {
                    cause: cause@.text(),
                }),
            },
    {
        match existing {
            Ok(existing) => if !existing && self.create_db {
                Ok(
                    OpeningStep::CreateBucket {
                        request: bucket_request(self.org_id.as_str(), self.db.as_str()),
                    },
                )
            } else {
                Ok(OpeningStep::Open)
            },
            Err(cause) => Err(Error::StorageCreation { cause: cause.message() }),
        }
    }

    /// The step after the database was made: the storage is opened if that worked.
    pub fn after_creation(&self, created: Result<bool, Error>) -> (res: Result<OpeningStep, Error>)
        ensures
            match created {
                Ok(true) => res matches Ok(step) && step@ == OpeningStepView::Open,
                Ok(false) => res matches Err(e) && e@ == (ErrorView::DatabaseNotCreated {
                    db: self@.db,
                }),
                Err(cause) => res matches Err(e) && e@ == (ErrorView::StorageCreation {
                    cause: cause@.text(),
                }),
            },
    {
        match created {
            Ok(created) => if created {
                Ok(OpeningStep::Open)
            } else {
                Err(Error::DatabaseNotCreated { db: self.db.clone() })
            },
            Err(cause) => Err(Error::StorageCreation { cause: cause.message() }),
        }
    }

    /// The last step: the storage is opened, with what it uses recorded in its configuration.
    pub fn open(&self, volume_cfg: serde_json::Value) -> (res: InfluxDbStorage)
        requires
            json_of(volume_cfg) is Object,
        ensures
            json_of(res.volume_cfg) == Json::Object(self@.completed(json_of(volume_cfg)->Object_0)),
            res.on_closure == self@.on_closure,
    {
        let mut volume_cfg = volume_cfg;
        value_or_insert(&mut volume_cfg, PROP_STORAGE_DB, self.db.clone());
        value_or_insert(&mut volume_cfg, PROP_BACKEND_URL, self.url.clone());
        value_or_insert(&mut volume_cfg, PROP_BACKEND_ORG_ID, self.org_id.clone());
        InfluxDbStorage { volume_cfg, on_closure: self.on_closure }
    }
}

/// The properties of a storage have different names.
proof fn lemma_names_differ()
    ensures
        "db"@ != "url"@,
        "db"@ != "org_id"@,
        "db"@ != "token"@,
        "db"@ != "private"@,
        "db"@ != "on_closure"@,
        "url"@ != "org_id"@,
        "url"@ != "token"@,
        "url"@ != "private"@,
        "url"@ != "on_closure"@,
        "org_id"@ != "token"@,
        "org_id"@ != "private"@,
        "org_id"@ != "on_closure"@,
        "create_db"@ != "db"@,
        "create_db"@ != "url"@,
        "create_db"@ != "org_id"@,
{
    reveal_strlit("db");
    reveal_strlit("url");
    reveal_strlit("org_id");
    reveal_strlit("token");
    reveal_strlit("private");
    reveal_strlit("on_closure");
    reveal_strlit("create_db");
    assert("db"@.len() == 2);
    assert("url"@.len() == 3);
    assert("org_id"@.len() == 6);
    assert("token"@.len() == 5);
    assert("private"@.len() == 7);
    assert("on_closure"@.len() == 10);
    assert("create_db"@.len() == 9);
}

/// A storage that was opened as planned finds the database of the plan in its configuration.
pub proof fn law_opened_storage_names_its_database(
    admin_status: Map<Seq<char>, Json>,
    storage: Seq<char>,
    entries: Map<Seq<char>, Json>,
    generated: Seq<char>,
    plan: PlanView,
)
    requires
        storage_plan(admin_status, storage, Json::Object(entries), generated) == Ok::<
            PlanView,
            ErrorView,
        >(plan),
    ensures
        db_id(Json::Object(plan.completed(entries))) == Ok::<Seq<char>, ErrorView>(plan.db),
{
    lemma_names_differ();
}

/// Opening a storage changes no property that its configuration gives, and adds none but the
/// database, the URL and the organisation.
pub proof fn law_opening_only_adds_what_is_missing(
    plan: PlanView,
    entries: Map<Seq<char>, Json>,
    key: Seq<char>,
)
    ensures
        entries.contains_key(key) ==> entry(plan.completed(entries), key) == entry(entries, key),
        plan.completed(entries).contains_key(key) ==> {
            ||| entries.contains_key(key)
            ||| key == PROP_STORAGE_DB@
            ||| key == PROP_BACKEND_URL@
            ||| key == PROP_BACKEND_ORG_ID@
        },
{
}

/// A storage that is opened again with the configuration that it was opened with gets the same
/// database, server, organisation, token and closing action, whatever name is made up the second
/// time. If the configuration gave a database at first, the plan is the same altogether.
pub proof fn law_opening_again_plans_the_same(
    admin_status: Map<Seq<char>, Json>,
    storage: Seq<char>,
    entries: Map<Seq<char>, Json>,
    generated: Seq<char>,
    again: Seq<char>,
    plan: PlanView,
)
    requires
        storage_plan(admin_status, storage, Json::Object(entries), generated) == Ok::<
            PlanView,
            ErrorView,
        >(plan),
    ensures
        storage_plan(
            admin_status,
            storage,
            Json::Object(plan.completed(entries)),
            again,
        ) matches Ok(second) && second == (PlanView { create_db: second.create_db, ..plan }) && (entry(
            entries,
            PROP_STORAGE_DB@,
        ) is Some ==> second == plan),
{
    lemma_names_differ();
    let completed = plan.completed(entries);
    assert(entry(completed, "on_closure"@) == entry(entries, "on_closure"@));
    assert(entry(completed, "token"@) == entry(entries, "token"@));
    assert(entry(completed, "private"@) == entry(entries, "private"@));
    assert(entry(completed, "create_db"@) == entry(entries, "create_db"@));
    assert(entry(completed, "db"@) == Some(Json::Text(plan.db)));
}

/// An opened storage has the database, the URL and the organisation of the plan in its
/// configuration, wherever that did not have values of its own.
pub proof fn law_opening_records_the_plan(plan: PlanView, entries: Map<Seq<char>, Json>)
    ensures
        entry(entries, "db"@) is None ==> entry(plan.completed(entries), "db"@) == Some(
            Json::Text(plan.db),
        ),
        entry(entries, "url"@) is None ==> entry(plan.completed(entries), "url"@) == Some(
            Json::Text(plan.url),
        ),
        entry(entries, "org_id"@) is None ==> entry(plan.completed(entries), "org_id"@) == Some(
            Json::Text(plan.org_id),
        ),
{
    lemma_names_differ();
}

/// A step of opening a storage is viewed as the same step, with all that it asks for.
pub proof fn law_steps_are_viewed_whole(
    id: String,
    request: influxdb2::models::PostBucketRequest,
)
    ensures
        (OpeningStep::FindBucket { id })@ == (OpeningStepView::FindBucket { id: id@ }),
        (OpeningStep::CreateBucket { request })@ == (OpeningStepView::CreateBucket {
            request: bucket_request_of(request),
        }),
        OpeningStep::Open@ == OpeningStepView::Open,
{
}

}
