//! The databases of the server, which it calls buckets.

use crate::error::Error;
use vstd::prelude::*;

verus! {

/// The error of a request of the `influxdb2` crate.
#[verifier::external_type_specification]
#[verifier::external_body]
pub struct ExRequestError(influxdb2::RequestError);

/// A request for a new bucket of the `influxdb2` crate.
#[verifier::external_type_specification]
#[verifier::external_body]
pub struct ExPostBucketRequest(influxdb2::models::PostBucketRequest);

/// The organisation and the bucket name that a `PostBucketRequest` holds.
pub uninterp spec fn bucket_request_of(request: influxdb2::models::PostBucketRequest) -> Seq<
    Seq<char>,
>;

/// `PostBucketRequest::new` makes a request from an organisation and a bucket name.
#[verifier::external_body]
fn post_bucket_request(org_id: String, name: String) -> (res: influxdb2::models::PostBucketRequest)
    ensures
        bucket_request_of(res) == seq![org_id@, name@],
{
    influxdb2::models::PostBucketRequest::new(org_id, name)
}

/// Whether `c` is a lower-case hexadecimal digit.
pub open spec fn is_hex_digit(c: char) -> bool {
    ('0' <= c && c <= '9') || ('a' <= c && c <= 'f')
}

/// Whether `text` is a version 4 UUID without hyphens.
pub open spec fn is_simple_uuid(text: Seq<char>) -> bool {
    &&& text.len() == 32
    &&& forall|i: int| 0 <= i < 32 ==> is_hex_digit(#[trigger] text[i])
    &&& text[12] == '4'
    &&& text[16] == '8' || text[16] == '9' || text[16] == 'a' || text[16] == 'b'
}

/// Whether `name` is one that the backend makes up for a database.
pub open spec fn is_generated_db_name(name: Seq<char>) -> bool {
    &&& name.len() == 41
    &&& name.take(9) == "zenoh_db_"@
    &&& is_simple_uuid(name.skip(9))
}

/// `Uuid::new_v4` draws a random version 4 UUID; `simple` renders it as 32 lower-case hexadecimal
/// digits, of which the 13th is the version and the 17th holds the variant.
#[verifier::external_body]
pub(crate) fn random_uuid() -> (res: String)
    ensures
        is_simple_uuid(res@),
{
    uuid::Uuid::new_v4().simple().to_string()
}

/// Whether `uuid` is what a draw of a random UUID gave.
pub closed spec fn is_drawn(uuid: String) -> bool {
    call_ensures(random_uuid, (), uuid)
}

/// The name of a database with the UUID `uuid`.
pub open spec fn db_name(uuid: Seq<char>) -> Seq<char> {
    "zenoh_db_"@ + uuid
}

/// Returns the name of a database with the UUID `uuid`.
pub fn db_name_for(uuid: &str) -> (res: String)
    ensures
        res@ == "zenoh_db_"@ + uuid@,
{
    let mut res = "zenoh_db_".to_owned();
    res.push_str(uuid);
    res
}

/// Makes up a name for a database, with a UUID that is drawn at random.
pub fn generate_db_name() -> (res: String)
    ensures
        exists|uuid: String| #[trigger] is_drawn(uuid) && res@ == "zenoh_db_"@ + uuid@,
        exists|uuid: Seq<char>| is_simple_uuid(uuid) && res@ == #[trigger] db_name(uuid),
        is_generated_db_name(res@),
{
    let uuid = random_uuid();
    let res = db_name_for(uuid.as_str());
    proof {
        reveal_strlit("zenoh_db_");
        assert(is_drawn(uuid));
        assert(res@ == db_name(uuid@));
        assert(res@.take(9) == "zenoh_db_"@);
        assert(res@.skip(9) == uuid@);
    }
    res
}

/// Whether a database exists, from the number of buckets that the server lists under its
/// identifier. A failed request counts as none.
pub fn is_db_existing(listing: Result<usize, influxdb2::RequestError>) -> (res: Result<bool, Error>)
    ensures
        res == Ok::<bool, Error>(listing matches Ok(count) && count > 0),
{
    match listing {
        Ok(count) => Ok(count > 0),
        Err(_) => Ok(false),
    }
}

/// The request for a new database of an organisation.
pub fn bucket_request(org_id: &str, db: &str) -> (res: influxdb2::models::PostBucketRequest)
    ensures
        bucket_request_of(res) == seq![org_id@, db@],
{
    post_bucket_request(org_id.to_owned(), db.to_owned())
}

/// Whether a database was made, from what the server answered to the request for it.
pub fn create_db(answer: Result<(), influxdb2::RequestError>) -> (res: Result<bool, Error>)
    ensures
        res == Ok::<bool, Error>(answer is Ok),
{
    match z_create_bucket(answer) {
        Ok(_) => Ok(true),
        Err(_) => Ok(false),
    }
}

/// What became of the request for a new bucket: it was made where the server says so, and otherwise
/// the error is handed on.
pub fn z_create_bucket(answer: Result<(), influxdb2::RequestError>) -> (res: Result<
    (),
    influxdb2::RequestError,
>)
    ensures
        match answer {
            Ok(_) => res is Ok,
            Err(cause) => res matches Err(e) && e == cause,
        },
{
    match answer {
        Ok(_) => Ok(()),
        Err(e) => Err(e),
    }
}

/// Databases with different UUIDs have different names.
pub proof fn law_names_keep_uuids_apart(one: Seq<char>, other: Seq<char>)
    requires
        db_name(one) == db_name(other),
    ensures
        one == other,
{
    assert(db_name(one).skip("zenoh_db_"@.len() as int) == one);
    assert(db_name(other).skip("zenoh_db_"@.len() as int) == other);
}

/// Only a draw of a random UUID gives one that was drawn, and what it gives is one without hyphens.
pub(crate) proof fn law_drawn_uuids_are_random(uuid: String)
    ensures
        is_drawn(uuid) == call_ensures(random_uuid, (), uuid),
        is_drawn(uuid) ==> is_simple_uuid(uuid@),
{
}

/// A made-up name is `zenoh_db_` and 32 lower-case hexadecimal digits, and every such name with the
/// marks of a random UUID can be made up.
pub proof fn law_made_up_names_hold_a_uuid(name: Seq<char>, uuid: Seq<char>)
    ensures
        is_generated_db_name(name) ==> name.len() == 41 && name == "zenoh_db_"@ + name.skip(9)
            && forall|i: int|
            9 <= i < 41 ==> ('0' <= #[trigger] name[i] && name[i] <= '9') || ('a' <= name[i]
                && name[i] <= 'f'),
        is_simple_uuid(uuid) ==> is_generated_db_name("zenoh_db_"@ + uuid),
{
    reveal_strlit("zenoh_db_");
    if is_generated_db_name(name) {
        assert(name == name.take(9) + name.skip(9));
        assert forall|i: int| 9 <= i < 41 implies ('0' <= #[trigger] name[i] && name[i] <= '9') || (
        'a' <= name[i] && name[i] <= 'f') by {
            assert(name[i] == name.skip(9)[i - 9]);
            assert(is_hex_digit(name.skip(9)[i - 9]));
        }
    }
    if is_simple_uuid(uuid) {
        let made = "zenoh_db_"@ + uuid;
        assert(made.take(9) == "zenoh_db_"@);
        assert(made.skip(9) == uuid);
    }
}

}
