//! The points that values are stored as.

use crate::text::{
    decimal, decimal_text, decimal_value, law_decimals_stand_for_their_number,
};
use crate::timestamp::{
    in_era, is_in_era, parsed_timestamp, reread, timestamp_from_str, timestamp_text,
    timestamp_to_string, Timestamp,
};
use base64::Engine;
use influxdb2::models::data_point::{DataPointBuilder, DataPointError};
use influxdb2::models::DataPoint;
use vstd::pervasive::unreached;
use vstd::prelude::*;
use vstd::utf8::{decode_utf8, decode_utf8_encode_utf8, encode_utf8, valid_utf8};
use zenoh::buffers::SplitBuffer;

verus! {

/// The measurement of the value without a key, which is the one whose key is the prefix that a
/// storage strips.
pub const NONE_KEY: &'static str = "@@none_key@@";

/// The tag that says whether a point holds a value or marks a deletion.
pub const TAG_KIND: &'static str = "kind";

/// The tag that holds the timestamp of a point.
pub const TAG_ZTIMESTAMP: &'static str = "ztimestamp";

/// The field that holds the number of the encoding of a value.
pub const FIELD_ENCODING_PREFIX: &'static str = "encoding_prefix";

/// The field that holds the rest of the encoding of a value.
pub const FIELD_ENCODING_SUFFIX: &'static str = "encoding_suffix";

/// The field that says whether a value is stored in base64.
pub const FIELD_BASE64: &'static str = "base64";

/// The field that holds a value.
pub const FIELD_VALUE: &'static str = "value";

/// The kind of a point that holds a value.
pub const KIND_PUT: &'static str = "PUT";

/// The kind of a point that marks a deletion.
pub const KIND_DELETE: &'static str = "DELETE";

/// The number of the encoding of plain text.
pub const TEXT_PLAIN: u8 = 3;

/// A value, with the encoding that says how its bytes are to be read.
pub struct SampleValue {
    /// The bytes.
    pub payload: Vec<u8>,
    /// The number of the encoding.
    pub encoding_prefix: u8,
    /// The rest of the encoding.
    pub encoding_suffix: String,
}

/// A value, over mathematical sequences.
pub struct SampleView {
    pub payload: Seq<u8>,
    pub encoding_prefix: u8,
    pub encoding_suffix: Seq<char>,
}

impl View for SampleValue {
    type V = SampleView;

    open spec fn view(&self) -> SampleView {
        SampleView {
            payload: self.payload@,
            encoding_prefix: self.encoding_prefix,
            encoding_suffix: self.encoding_suffix@,
        }
    }
}

/// A value that was read, with its timestamp.
pub struct StoredData {
    pub value: SampleValue,
    pub timestamp: Timestamp,
}

impl View for StoredData {
    type V = (SampleView, Timestamp);

    open spec fn view(&self) -> (SampleView, Timestamp) {
        (self.value@, self.timestamp)
    }
}

/// A point that was read.
pub struct ZenohPoint {
    pub kind: String,
    pub ztimestamp: String,
    pub encoding_prefix: String,
    pub encoding_suffix: String,
    pub base64: bool,
    pub value: String,
}

/// A point that was read, over mathematical strings.
pub struct ZenohPointView {
    pub kind: Seq<char>,
    pub ztimestamp: Seq<char>,
    pub encoding_prefix: Seq<char>,
    pub encoding_suffix: Seq<char>,
    pub base64: bool,
    pub value: Seq<char>,
}

impl View for ZenohPoint {
    type V = ZenohPointView;

    open spec fn view(&self) -> ZenohPointView {
        ZenohPointView {
            kind: self.kind@,
            ztimestamp: self.ztimestamp@,
            encoding_prefix: self.encoding_prefix@,
            encoding_suffix: self.encoding_suffix@,
            base64: self.base64,
            value: self.value@,
        }
    }
}

/// The value of a field of a point.
pub enum Field {
    Text(String),
    Flag(bool),
}

/// The value of a field of a point, over mathematical strings.
pub enum FieldView {
    Text(Seq<char>),
    Flag(bool),
}

impl View for Field {
    type V = FieldView;

    open spec fn view(&self) -> FieldView {
        match self {
            Field::Text(text) => FieldView::Text(text@),
            Field::Flag(flag) => FieldView::Flag(*flag),
        }
    }
}

/// What a point holds: its measurement, its tags and its fields.
pub struct PointView {
    pub measurement: Seq<char>,
    pub tags: Map<Seq<char>, Seq<char>>,
    pub fields: Map<Seq<char>, FieldView>,
}

/// A point of the `influxdb2` crate.
#[verifier::external_type_specification]
#[verifier::external_body]
pub struct ExDataPoint(DataPoint);

/// A point of the `influxdb2` crate that is being built.
#[verifier::external_type_specification]
#[verifier::external_body]
pub struct ExDataPointBuilder(DataPointBuilder);

/// The error of building a point of the `influxdb2` crate.
#[verifier::external_type_specification]
#[verifier::external_body]
pub struct ExDataPointError(DataPointError);

/// What a `DataPoint` holds.
pub uninterp spec fn point_contents(point: DataPoint) -> PointView;

/// What a `DataPointBuilder` holds.
pub uninterp spec fn builder_contents(builder: DataPointBuilder) -> PointView;

/// `DataPoint::builder` begins a point of a measurement, without tags and fields.
#[verifier::external_body]
fn new_builder(measurement: &str) -> (res: DataPointBuilder)
    ensures
        builder_contents(res) == (PointView {
            measurement: measurement@,
            tags: Map::empty(),
            fields: Map::empty(),
        }),
{
    DataPoint::builder(measurement)
}

/// `DataPointBuilder::tag` sets a tag, replacing one of the same name.
#[verifier::external_body]
fn set_tag(builder: DataPointBuilder, name: &str, value: &str) -> (res: DataPointBuilder)
    ensures
        builder_contents(res) == (PointView {
            tags: builder_contents(builder).tags.insert(name@, value@),
            ..builder_contents(builder)
        }),
{
    builder.tag(name, value)
}

/// `DataPointBuilder::field` sets a field, replacing one of the same name.
#[verifier::external_body]
fn set_field(builder: DataPointBuilder, name: &str, value: Field) -> (res: DataPointBuilder)
    ensures
        builder_contents(res) == (PointView {
            fields: builder_contents(builder).fields.insert(name@, value@),
            ..builder_contents(builder)
        }),
{
    match value {
        Field::Text(text) => builder.field(name, text),
        Field::Flag(flag) => builder.field(name, flag),
    }
}

/// `DataPointBuilder::build` makes the point, and fails where it has no field.
#[verifier::external_body]
fn build_point(builder: DataPointBuilder) -> (res: Result<DataPoint, DataPointError>)
    ensures
        match res {
            Ok(point) => {
                &&& !(builder_contents(builder).fields =~= Map::<Seq<char>, FieldView>::empty())
                &&& point_contents(point) == builder_contents(builder)
            },
            Err(_) => builder_contents(builder).fields =~= Map::<Seq<char>, FieldView>::empty(),
        },
{
    builder.build()
}

/// `String::from_utf8` reads bytes as UTF-8 text, and hands them back where they are none.
#[verifier::external_body]
fn text_from_utf8(bytes: Vec<u8>) -> (res: Result<String, Vec<u8>>)
    ensures
        match res {
            Ok(text) => valid_utf8(bytes@) && text@ == decode_utf8(bytes@),
            Err(rest) => !valid_utf8(bytes@) && rest@ == bytes@,
        },
{
    String::from_utf8(bytes).map_err(|e| e.into_bytes())
}

/// The base64 digit of value `v`.
pub open spec fn base64_digit(v: int) -> char {
    if v < 26 {
        (65 + v) as char
    } else if v < 52 {
        (97 + v - 26) as char
    } else if v < 62 {
        (48 + v - 52) as char
    } else if v == 62 {
        '+'
    } else {
        '/'
    }
}

/// The base64 text of some bytes: four digits for every three bytes, in the standard alphabet, and
/// `=` for the digits that the last bytes do not reach.
pub open spec fn base64_text(bytes: Seq<u8>) -> Seq<char>
    decreases bytes.len(),
{
    if bytes.len() == 0 {
        Seq::empty()
    } else if bytes.len() == 1 {
        let a = bytes[0] as int;
        seq![base64_digit(a / 4), base64_digit(a % 4 * 16), '=', '=']
    } else if bytes.len() == 2 {
        let (a, b) = (bytes[0] as int, bytes[1] as int);
        seq![
            base64_digit(a / 4),
            base64_digit(a % 4 * 16 + b / 16),
            base64_digit(b % 16 * 4),
            '=',
        ]
    } else {
        let (a, b, c) = (bytes[0] as int, bytes[1] as int, bytes[2] as int);
        seq![
            base64_digit(a / 4),
            base64_digit(a % 4 * 16 + b / 16),
            base64_digit(b % 16 * 4 + c / 64),
            base64_digit(c % 64),
        ] + base64_text(bytes.skip(3))
    }
}

/// The value of a base64 digit.
pub open spec fn base64_value(digit: char) -> int {
    if 'A' <= digit && digit <= 'Z' {
        digit as int - 65
    } else if 'a' <= digit && digit <= 'z' {
        digit as int - 97 + 26
    } else if '0' <= digit && digit <= '9' {
        digit as int - 48 + 52
    } else if digit == '+' {
        62
    } else {
        63
    }
}

/// The bytes of a base64 text.
pub open spec fn base64_bytes(text: Seq<char>) -> Seq<u8>
    decreases text.len(),
{
    if text.len() < 4 {
        Seq::empty()
    } else {
        let (a, b) = (base64_value(text[0]), base64_value(text[1]));
        let first = (a * 4 + b / 16) as u8;
        if text[2] == '=' {
            seq![first]
        } else {
            let c = base64_value(text[2]);
            let second = (b % 16 * 16 + c / 4) as u8;
            if text[3] == '=' {
                seq![first, second]
            } else {
                let third = (c % 4 * 64 + base64_value(text[3])) as u8;
                seq![first, second, third] + base64_bytes(text.skip(4))
            }
        }
    }
}

/// Whether the base64 text of `len` bytes is not longer than a string can be.
pub open spec fn base64_fits(len: nat) -> bool {
    (len + 2) / 3 * 4 <= isize::MAX
}

/// `Engine::encode` of the standard engine renders bytes in base64, with the standard alphabet and
/// with padding. It panics where the text would be too long.
#[verifier::external_body]
fn base64_encode(bytes: &Vec<u8>) -> (res: String)
    requires
        base64_fits(bytes@.len()),
    ensures
        res@ == base64_text(bytes@),
{
    base64::engine::general_purpose::STANDARD.encode(bytes)
}

/// `Value::from` makes a value of plain text from a string: its bytes are those of the string.
#[verifier::external_body]
fn value_from_text(text: String) -> (res: SampleValue)
    ensures
        res@ == (SampleView {
            payload: encode_utf8(text@),
            encoding_prefix: TEXT_PLAIN,
            encoding_suffix: Seq::empty(),
        }),
{
    let value = zenoh::value::Value::from(text);
    SampleValue {
        payload: value.payload.contiguous().into_owned(),
        encoding_prefix: u8::from(*value.encoding.prefix()),
        encoding_suffix: value.encoding.suffix().to_string(),
    }
}

/// The measurement that the values of a key are kept in.
pub open spec fn measurement(key: Option<Seq<char>>) -> Seq<char> {
    match key {
        Some(key) => key,
        None => NONE_KEY@,
    }
}

/// The key as a mathematical string.
pub open spec fn key_view(key: Option<&str>) -> Option<Seq<char>> {
    match key {
        Some(key) => Some(key@),
        None => None,
    }
}

/// Whether a value is stored in base64, and the text it is stored as: its bytes themselves where
/// they are UTF-8 text, and otherwise their base64 text.
pub open spec fn stored_text(payload: Seq<u8>) -> (bool, Seq<char>) {
    if valid_utf8(payload) {
        (false, decode_utf8(payload))
    } else {
        (true, base64_text(payload))
    }
}

/// What a point holds whose tags and fields are given.
pub open spec fn contents(measurement: Seq<char>, point: ZenohPointView) -> PointView {
    PointView {
        measurement,
        tags: map![TAG_KIND@ => point.kind, TAG_ZTIMESTAMP@ => point.ztimestamp],
        fields: map![
            FIELD_ENCODING_PREFIX@ => FieldView::Text(point.encoding_prefix),
            FIELD_ENCODING_SUFFIX@ => FieldView::Text(point.encoding_suffix),
            FIELD_BASE64@ => FieldView::Flag(point.base64),
            FIELD_VALUE@ => FieldView::Text(point.value),
        ],
    }
}

/// The text of a field, which is empty where the field is none.
pub open spec fn field_text(field: FieldView) -> Seq<char> {
    match field {
        FieldView::Text(text) => text,
        FieldView::Flag(_) => Seq::empty(),
    }
}

/// The point that is read where these contents were written: each part is read by its name.
pub open spec fn point_of(contents: PointView) -> ZenohPointView {
    ZenohPointView {
        kind: contents.tags[TAG_KIND@],
        ztimestamp: contents.tags[TAG_ZTIMESTAMP@],
        encoding_prefix: field_text(contents.fields[FIELD_ENCODING_PREFIX@]),
        encoding_suffix: field_text(contents.fields[FIELD_ENCODING_SUFFIX@]),
        base64: contents.fields[FIELD_BASE64@] == FieldView::Flag(true),
        value: field_text(contents.fields[FIELD_VALUE@]),
    }
}

/// The point that a value is stored as.
pub open spec fn put_point(value: SampleView, timestamp: Timestamp) -> ZenohPointView {
    ZenohPointView {
        kind: KIND_PUT@,
        ztimestamp: timestamp_text(timestamp.time, timestamp.id),
        encoding_prefix: decimal(value.encoding_prefix as nat),
        encoding_suffix: value.encoding_suffix,
        base64: stored_text(value.payload).0,
        value: stored_text(value.payload).1,
    }
}

/// The point that marks a deletion.
pub open spec fn deletion_point(timestamp: Timestamp) -> ZenohPointView {
    ZenohPointView {
        kind: KIND_DELETE@,
        ztimestamp: timestamp_text(timestamp.time, timestamp.id),
        encoding_prefix: Seq::empty(),
        encoding_suffix: Seq::empty(),
        base64: false,
        value: Seq::empty(),
    }
}

/// What is read from a point: its value as plain text, and its timestamp. Nothing is read where the
/// timestamp is malformed.
pub open spec fn stored_data(point: ZenohPointView) -> Option<(SampleView, Timestamp)> {
    match parsed_timestamp(point.ztimestamp) {
        Some((time, id)) => Some(
            (
                SampleView {
                    payload: encode_utf8(point.value),
                    encoding_prefix: TEXT_PLAIN,
                    encoding_suffix: Seq::empty(),
                },
                Timestamp { time, id },
            ),
        ),
        None => None,
    }
}

/// Whether `data` is what is read from `point`: the bytes of its value as plain text, and its
/// timestamp.
pub open spec fn reads_as(point: ZenohPoint, data: StoredData) -> bool {
    &&& data.value.payload@ == encode_utf8(point.value@)
    &&& data.value.encoding_prefix == 3
    &&& data.value.encoding_suffix@ == Seq::<char>::empty()
    &&& parsed_timestamp(point.ztimestamp@) == Some((data.timestamp.time, data.timestamp.id))
}

/// Whether the timestamp of a point can be read.
pub open spec fn readable(point: ZenohPointView) -> bool {
    in_era(point.ztimestamp) && parsed_timestamp(point.ztimestamp) is Some
}

/// Returns the measurement that the values of a key are kept in.
pub fn measurement_of(key: Option<&str>) -> (res: String)
    ensures
        res@ == measurement(key_view(key)),
        key matches Some(k) ==> res@ == k@,
        key is None ==> res@ == "@@none_key@@"@,
{
    match key {
        Some(key) => key.to_owned(),
        None => NONE_KEY.to_owned(),
    }
}

/// Renders a point for the server.
fn build_data_point(measurement: &str, point: ZenohPoint) -> (res: DataPoint)
    ensures
        point_contents(res) == contents(measurement@, point@),
{
    let builder = new_builder(measurement);
    let builder = set_tag(builder, TAG_KIND, point.kind.as_str());
    let builder = set_tag(builder, TAG_ZTIMESTAMP, point.ztimestamp.as_str());
    let builder = set_field(builder, FIELD_ENCODING_PREFIX, Field::Text(point.encoding_prefix));
    let builder = set_field(builder, FIELD_ENCODING_SUFFIX, Field::Text(point.encoding_suffix));
    let builder = set_field(builder, FIELD_BASE64, Field::Flag(point.base64));
    let builder = set_field(builder, FIELD_VALUE, Field::Text(point.value));
    assert(builder_contents(builder).fields.contains_key(FIELD_VALUE@));
    assert(builder_contents(builder).tags == contents(measurement@, point@).tags);
    assert(builder_contents(builder).fields == contents(measurement@, point@).fields);
    match build_point(builder) {
        Ok(point) => point,
        Err(_) => unreached(),
    }
}

/// Renders a value as the text it is stored as, and says whether that is in base64.
pub fn encode_payload(payload: Vec<u8>) -> (res: (bool, String))
    requires
        valid_utf8(payload@) || base64_fits(payload@.len()),
    ensures
        (res.0, res.1@) == stored_text(payload@),
        res.0 == !valid_utf8(payload@),
        valid_utf8(payload@) ==> res.1@ == decode_utf8(payload@),
        !valid_utf8(payload@) ==> res.1@ == base64_text(payload@),
{
    match text_from_utf8(payload) {
        Ok(text) => (false, text),
        Err(bytes) => (true, base64_encode(&bytes)),
    }
}

/// Makes the point that a value is stored as. The bytes of the value can be told from it.
///
/// A value whose bytes are UTF-8 text is read back from it with the same bytes, as plain text, and
/// with a timestamp of the same nanosecond.
pub fn build_put_point(measurement: &str, value: SampleValue, timestamp: Timestamp) -> (res:
    DataPoint)
    requires
        timestamp.valid(),
        valid_utf8(value.payload@) || base64_fits(value.payload@.len()),
    ensures
        point_contents(res) == contents(measurement@, put_point(value@, timestamp)),
        point_contents(res).measurement == measurement@,
        point_contents(res).tags == map![
            "kind"@ => "PUT"@,
            "ztimestamp"@ => timestamp_text(timestamp.time, timestamp.id),
        ],
        point_contents(res).fields == map![
            "encoding_prefix"@ => FieldView::Text(decimal(value.encoding_prefix as nat)),
            "encoding_suffix"@ => FieldView::Text(value.encoding_suffix@),
            "base64"@ => FieldView::Flag(!valid_utf8(value.payload@)),
            "value"@ => FieldView::Text(
                if valid_utf8(value.payload@) {
                    decode_utf8(value.payload@)
                } else {
                    base64_text(value.payload@)
                },
            ),
        ],
        readable(point_of(point_contents(res))),
        stored_bytes(
            point_of(point_contents(res)).base64,
            point_of(point_contents(res)).value,
        ) == value.payload@,
        valid_utf8(value.payload@) ==> stored_data(point_of(point_contents(res))) == Some(
            (
                SampleView {
                    payload: value.payload@,
                    encoding_prefix: TEXT_PLAIN,
                    encoding_suffix: Seq::empty(),
                },
                Timestamp { time: reread(timestamp.time as int) as u64, id: timestamp.id },
            ),
        ),
{
    let ghost view = value@;
    proof {
        if valid_utf8(view.payload) {
            decode_utf8_encode_utf8(view.payload);
        }
        law_points_are_read_as_they_were_written(measurement@, put_point(view, timestamp));
        law_storing_loses_nothing(view.payload);
    }
    let (base64, text) = encode_payload(value.payload);
    let point = ZenohPoint {
        kind: KIND_PUT.to_owned(),
        ztimestamp: timestamp_to_string(&timestamp),
        encoding_prefix: decimal_text(value.encoding_prefix as u64),
        encoding_suffix: value.encoding_suffix,
        base64,
        value: text,
    };
    assert(point@ == put_point(view, timestamp));
    build_data_point(measurement, point)
}

/// Makes the point that marks a deletion. Its timestamp is read back from it in the same nanosecond.
pub fn build_deletion_point(measurement: &str, timestamp: Timestamp) -> (res: DataPoint)
    requires
        timestamp.valid(),
    ensures
        point_contents(res) == contents(measurement@, deletion_point(timestamp)),
        point_contents(res).measurement == measurement@,
        point_contents(res).tags == map![
            "kind"@ => "DELETE"@,
            "ztimestamp"@ => timestamp_text(timestamp.time, timestamp.id),
        ],
        point_contents(res).fields == map![
            "encoding_prefix"@ => FieldView::Text(Seq::empty()),
            "encoding_suffix"@ => FieldView::Text(Seq::empty()),
            "base64"@ => FieldView::Flag(false),
            "value"@ => FieldView::Text(Seq::empty()),
        ],
        readable(point_of(point_contents(res))),
        parsed_timestamp(point_of(point_contents(res)).ztimestamp) == Some(
            (reread(timestamp.time as int) as u64, timestamp.id),
        ),
{
    proof {
        law_points_are_read_as_they_were_written(measurement@, deletion_point(timestamp));
    }
    let point = ZenohPoint {
        kind: KIND_DELETE.to_owned(),
        ztimestamp: timestamp_to_string(&timestamp),
        encoding_prefix: String::new(),
        encoding_suffix: String::new(),
        base64: false,
        value: String::new(),
    };
    assert(point@ == deletion_point(timestamp));
    build_data_point(measurement, point)
}

/// Whether the timestamp of a point can be read.
fn is_readable(point: &ZenohPoint) -> (res: bool)
    ensures
        res == readable(point@),
{
    is_in_era(point.ztimestamp.as_str()) && timestamp_from_str(point.ztimestamp.as_str()).is_some()
}

/// Reads values from points, in order.
pub fn read_points(points: &Vec<ZenohPoint>) -> (res: Vec<StoredData>)
    requires
        forall|i: int| 0 <= i < points@.len() ==> readable(#[trigger] points@[i]@),
    ensures
        res@.len() == points@.len(),
        forall|i: int|
            0 <= i < points@.len() ==> stored_data(#[trigger] points@[i]@) == Some(res@[i]@),
        forall|i: int| 0 <= i < points@.len() ==> reads_as(points@[i], #[trigger] res@[i]),
{
    let mut res: Vec<StoredData> = Vec::new();
    let mut i: usize = 0;
    while i < points.len()
        invariant
            forall|k: int| 0 <= k < points@.len() ==> readable(#[trigger] points@[k]@),
            i <= points@.len(),
            res@.len() == i,
            forall|k: int| 0 <= k < i ==> stored_data(#[trigger] points@[k]@) == Some(res@[k]@),
            forall|k: int| 0 <= k < i ==> reads_as(points@[k], #[trigger] res@[k]),
        decreases points@.len() - i,
    {
        assert(readable(points@[i as int]@));
        let timestamp = match timestamp_from_str(points[i].ztimestamp.as_str()) {
            Some(timestamp) => timestamp,
            None => unreached(),
        };
        let value = value_from_text(points[i].value.clone());
        res.push(StoredData { value, timestamp });
        i += 1;
    }
    res
}

/// Reads values from points, in order, if all their timestamps can be read.
pub fn try_read_points(points: &Vec<ZenohPoint>) -> (res: Option<Vec<StoredData>>)
    ensures
        match res {
            Some(values) => {
                &&& values@.len() == points@.len()
                &&& forall|i: int|
                    0 <= i < points@.len() ==> {
                        &&& readable(#[trigger] points@[i]@)
                        &&& stored_data(points@[i]@) == Some(values@[i]@)
                    }
                &&& forall|i: int| 0 <= i < points@.len() ==> reads_as(points@[i], #[trigger] values@[i])
            },
            None => exists|i: int| 0 <= i < points@.len() && !readable(#[trigger] points@[i]@),
        },
{
    let mut i: usize = 0;
    while i < points.len()
        invariant
            i <= points@.len(),
            forall|k: int| 0 <= k < i ==> readable(#[trigger] points@[k]@),
        decreases points@.len() - i,
    {
        if !is_readable(&points[i]) {
            assert(!readable(points@[i as int]@));
            return None;
        }
        i += 1;
    }
    Some(read_points(points))
}

/// Every part of a point is read as it was written: no part takes the place of another.
pub proof fn law_points_are_read_as_they_were_written(
    measurement: Seq<char>,
    point: ZenohPointView,
)
    ensures
        point_of(contents(measurement, point)) == point,
        contents(measurement, point).measurement == measurement,
{
    reveal_strlit("kind");
    reveal_strlit("ztimestamp");
    reveal_strlit("encoding_prefix");
    reveal_strlit("encoding_suffix");
    reveal_strlit("base64");
    reveal_strlit("value");
    assert("kind"@.len() == 4);
    assert("ztimestamp"@.len() == 10);
    assert("encoding_prefix"@.len() == 15 && "encoding_suffix"@.len() == 15);
    assert("encoding_prefix"@[9] != "encoding_suffix"@[9]);
    assert("base64"@.len() == 6);
    assert("value"@.len() == 5);
}

/// Two keys share a measurement only where they are the same, or where one of them is spelled like
/// the measurement of the value without a key.
pub proof fn law_measurements_keep_keys_apart(one: Option<Seq<char>>, other: Option<Seq<char>>)
    requires
        one != Some(NONE_KEY@),
        other != Some(NONE_KEY@),
        measurement(one) == measurement(other),
    ensures
        one == other,
{
}

/// A mark of a deletion is told from a value by its kind.
pub proof fn law_deletions_are_told_from_values(
    value: SampleView,
    timestamp: Timestamp,
    deletion: Timestamp,
)
    ensures
        put_point(value, timestamp).kind != deletion_point(deletion).kind,
{
    reveal_strlit("PUT");
    reveal_strlit("DELETE");
    assert("PUT"@.len() != "DELETE"@.len());
}

/// A base64 digit has the value that it was made for, and is no padding.
proof fn lemma_base64_digit(v: int)
    requires
        0 <= v < 64,
    ensures
        base64_value(base64_digit(v)) == v,
        base64_digit(v) != '=',
{
}

/// A base64 text gives its bytes back.
pub proof fn law_base64_text_gives_its_bytes_back(bytes: Seq<u8>)
    ensures
        base64_bytes(base64_text(bytes)) == bytes,
    decreases bytes.len(),
{
    let text = base64_text(bytes);
    if bytes.len() > 0 {
        let a = bytes[0] as int;
        lemma_base64_digit(a / 4);
        if bytes.len() == 1 {
            lemma_base64_digit(a % 4 * 16);
        } else {
            let b = bytes[1] as int;
            lemma_base64_digit(a % 4 * 16 + b / 16);
            if bytes.len() == 2 {
                lemma_base64_digit(b % 16 * 4);
            } else {
                let c = bytes[2] as int;
                lemma_base64_digit(b % 16 * 4 + c / 64);
                lemma_base64_digit(c % 64);
                law_base64_text_gives_its_bytes_back(bytes.skip(3));
                assert(text.skip(4) == base64_text(bytes.skip(3)));
            }
        }
    }
}

/// The bytes that a stored text stands for, where `base64` says whether it is in base64.
pub open spec fn stored_bytes(base64: bool, text: Seq<char>) -> Seq<u8> {
    if base64 {
        base64_bytes(text)
    } else {
        encode_utf8(text)
    }
}

/// Nothing is lost in storing a value: it is stored in base64 exactly where its bytes are no UTF-8
/// text, and the stored text gives its bytes back either way.
pub proof fn law_storing_loses_nothing(payload: Seq<u8>)
    ensures
        stored_text(payload).0 == !valid_utf8(payload),
        stored_bytes(stored_text(payload).0, stored_text(payload).1) == payload,
{
    if valid_utf8(payload) {
        decode_utf8_encode_utf8(payload);
    } else {
        law_base64_text_gives_its_bytes_back(payload);
    }
}

/// A key is its own measurement, and the value without a key has one that is not empty.
pub proof fn law_keys_are_their_own_measurement(key: Seq<char>)
    ensures
        measurement(Some(key)) == key,
        measurement(None) == "@@none_key@@"@,
        measurement(None).len() == 12,
{
    reveal_strlit("@@none_key@@");
}

/// Every value is stored as a put, and every deletion as a deletion, whatever their values, their
/// encodings and their timestamps are; and each keeps its own timestamp.
pub proof fn law_points_tell_what_they_are_for(value: SampleView, timestamp: Timestamp)
    ensures
        put_point(value, timestamp).kind == "PUT"@,
        deletion_point(timestamp).kind == "DELETE"@,
        put_point(value, timestamp).ztimestamp == timestamp_text(timestamp.time, timestamp.id),
        deletion_point(timestamp).ztimestamp == timestamp_text(timestamp.time, timestamp.id),
{
}

/// The encoding of a value can be told from the point that it is stored as.
pub proof fn law_stored_values_show_their_encoding(value: SampleView, timestamp: Timestamp)
    ensures
        decimal_value(put_point(value, timestamp).encoding_prefix) == value.encoding_prefix,
        put_point(value, timestamp).encoding_suffix == value.encoding_suffix,
{
    law_decimals_stand_for_their_number(value.encoding_prefix as nat);
}

/// A point can be read exactly where its timestamp is in the era and well-formed; its value is then
/// read as the bytes of its text, and nothing else of it matters.
pub proof fn law_points_are_read_by_value_and_timestamp(
    point: ZenohPointView,
    time: u64,
    id: u128,
)
    ensures
        readable(point) <==> in_era(point.ztimestamp) && parsed_timestamp(point.ztimestamp) is Some,
        parsed_timestamp(point.ztimestamp) == Some((time, id)) ==> stored_data(point) == Some(
            (
                SampleView {
                    payload: encode_utf8(point.value),
                    encoding_prefix: 3,
                    encoding_suffix: Seq::empty(),
                },
                Timestamp { time, id },
            ),
        ),
        parsed_timestamp(point.ztimestamp) is None ==> stored_data(point) is None,
{
}

/// UTF-8 text is stored as it is, and everything else in base64.
pub proof fn law_text_is_stored_as_it_is(payload: Seq<u8>)
    ensures
        valid_utf8(payload) ==> stored_text(payload) == (false, decode_utf8(payload)),
        !valid_utf8(payload) ==> stored_text(payload) == (true, base64_text(payload)),
{
}

/// Values, points and fields are viewed with all their parts.
pub proof fn law_points_are_viewed_whole(
    value: SampleValue,
    data: StoredData,
    point: ZenohPoint,
    text: String,
    flag: bool,
)
    ensures
        value@.payload == value.payload@,
        value@.encoding_prefix == value.encoding_prefix,
        value@.encoding_suffix == value.encoding_suffix@,
        data@ == (data.value@, data.timestamp),
        point@.kind == point.kind@,
        point@.ztimestamp == point.ztimestamp@,
        point@.encoding_prefix == point.encoding_prefix@,
        point@.encoding_suffix == point.encoding_suffix@,
        point@.base64 == point.base64,
        point@.value == point.value@,
        Field::Text(text)@ == FieldView::Text(text@),
        Field::Flag(flag)@ == FieldView::Flag(flag),
{
}

/// What is read from a point is the bytes of its text, as plain text, with the timestamp of the
/// point.
pub proof fn law_values_are_read_as_plain_text(point: ZenohPoint, data: StoredData)
    ensures
        reads_as(point, data) <==> data.value.payload@ == encode_utf8(point.value@)
            && data.value.encoding_prefix == 3 && data.value.encoding_suffix@.len() == 0
            && parsed_timestamp(point.ztimestamp@) == Some(
            (data.timestamp.time, data.timestamp.id),
        ),
{
    if data.value.encoding_suffix@.len() == 0 {
        assert(data.value.encoding_suffix@ == Seq::<char>::empty());
    }
}

}
