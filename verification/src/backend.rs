//! Trusted wrappers around the backend codec crates.
//!
//! Each wrapper makes exactly one call into an outside crate. What a codec
//! produces for an arbitrary serializable value is decided by that crate and
//! by the value's own `serde` implementation, so the wrappers state only what
//! the backend's documentation plainly promises; the dispatch layer in
//! [`crate::codec`] is verified against these contracts.

use vstd::prelude::*;

verus! {

#[verifier::external_type_specification]
#[verifier::external_body]
pub struct ExSerdeJsonError(serde_json::Error);

#[verifier::external_type_specification]
#[verifier::external_body]
pub struct ExSerdeYamlError(serde_yaml::Error);

#[verifier::external_type_specification]
#[verifier::external_body]
pub struct ExQuickXmlSeError(quick_xml::SeError);

#[verifier::external_type_specification]
#[verifier::external_body]
pub struct ExQuickXmlDeError(quick_xml::DeError);

#[verifier::external_type_specification]
#[verifier::external_body]
pub struct ExTomlSerError(toml::ser::Error);

#[verifier::external_type_specification]
#[verifier::external_body]
pub struct ExTomlDeError(toml::de::Error);

#[verifier::external_type_specification]
#[verifier::external_body]
pub struct ExCsvError(csv::Error);

#[verifier::external_type_specification]
#[verifier::external_body]
pub struct ExIoError(std::io::Error);

#[verifier::external_type_specification]
#[verifier::external_body]
pub struct ExFromUtf8Error(std::string::FromUtf8Error);

/// The state of one in-memory CSV encoding: a `csv::Writer` over a byte
/// buffer. `csv::Writer`'s own declaration carries a `std::io::Write` bound
/// that Verus refuses, so the writer is held opaquely in a private field.
#[verifier::external_body]
pub struct CsvEncoder {
    inner: csv::Writer<Vec<u8>>,
}

#[verifier::external_type_specification]
#[verifier::external_body]
#[verifier::reject_recursive_types(W)]
pub struct ExJsonLinesWriter<W>(serde_jsonlines::JsonLinesWriter<W>);

/// How many occurrences of `c` the text `s` holds.
pub open spec fn spec_count_char(s: Seq<char>, c: char) -> nat
    decreases s.len(),
{
    if s.len() == 0 {
        0
    } else {
        spec_count_char(s.drop_last(), c) + if s.last() == c {
            1nat
        } else {
            0nat
        }
    }
}

/// How many records a JSON-Lines input frames: one per line read, where a
/// line ends at a `'\n'` or at the end of a nonempty remainder.
pub open spec fn spec_jsonl_record_count(s: Seq<char>) -> nat {
    spec_count_char(s, '\n') + if s.len() > 0 && s.last() != '\n' {
        1nat
    } else {
        0nat
    }
}

/// The text a `serde_jsonlines::JsonLinesWriter` has buffered so far.
pub uninterp spec fn jsonl_writer_content(writer: serde_jsonlines::JsonLinesWriter<Vec<u8>>) -> Seq<
    char,
>;

/// How many records a [`CsvEncoder`] has been given so far.
pub uninterp spec fn csv_encoder_record_count(writer: CsvEncoder) -> nat;

/// Whether a [`CsvEncoder`] holds exactly the records it was successfully
/// given: a fresh encoder is clean, a successful append keeps it clean, and
/// a failed append may leave a partially written record behind, after which
/// nothing more is stated of the buffered output.
pub uninterp spec fn csv_encoder_clean(writer: CsvEncoder) -> bool;

/// How many records the CSV reader frames in `input` past its header row:
/// the number of elements that [`csv_read_all`] yields for `input`. A
/// deterministic function of the input text alone.
pub uninterp spec fn csv_record_count(input: Seq<char>) -> nat;

/// Relies on `serde_json::to_string_pretty`: encodes `value` as one
/// pretty-printed JSON document.
#[verifier::external_body]
pub(crate) fn json_encode<T: serde::Serialize>(value: &T) -> Result<String, serde_json::Error> {
    serde_json::to_string_pretty(value)
}

/// Relies on `serde_json::from_str`: decodes one JSON document from `input`.
#[verifier::external_body]
pub(crate) fn json_decode<T: serde::de::DeserializeOwned>(input: &str) -> Result<T, serde_json::Error> {
    serde_json::from_str(input)
}

/// Relies on `serde_yaml::to_string`: encodes `value` as one YAML document.
#[verifier::external_body]
pub(crate) fn yaml_encode<T: serde::Serialize>(value: &T) -> Result<String, serde_yaml::Error> {
    serde_yaml::to_string(value)
}

/// Relies on `serde_yaml::from_str`: decodes one YAML document from `input`.
#[verifier::external_body]
pub(crate) fn yaml_decode<T: serde::de::DeserializeOwned>(input: &str) -> Result<T, serde_yaml::Error> {
    serde_yaml::from_str(input)
}

/// Relies on `quick_xml::se::to_string`: encodes `value` as one XML
/// document whose root tag is deduced from the value's type.
#[verifier::external_body]
pub(crate) fn xml_encode<T: serde::Serialize>(value: &T) -> Result<String, quick_xml::SeError> {
    quick_xml::se::to_string(value)
}

/// Relies on `quick_xml::de::from_str`: decodes one XML document from
/// `input`.
#[verifier::external_body]
pub(crate) fn xml_decode<T: serde::de::DeserializeOwned>(input: &str) -> Result<T, quick_xml::DeError> {
    quick_xml::de::from_str(input)
}

/// Relies on `toml::to_string`: encodes `value` as one TOML document.
#[verifier::external_body]
pub(crate) fn toml_encode<T: serde::Serialize>(value: &T) -> Result<String, toml::ser::Error> {
    toml::to_string(value)
}

/// Relies on `toml::from_str`: decodes one TOML document from `input`.
#[verifier::external_body]
pub(crate) fn toml_decode<T: serde::de::DeserializeOwned>(input: &str) -> Result<T, toml::de::Error> {
    toml::from_str(input)
}

/// Relies on `serde_jsonlines::JsonLinesWriter::new`: a writer over an empty
/// in-memory buffer, which has buffered nothing.
#[verifier::external_body]
pub(crate) fn jsonl_writer_new() -> (r: serde_jsonlines::JsonLinesWriter<Vec<u8>>)
    ensures
        jsonl_writer_content(r) == Seq::<char>::empty(),
{
    serde_jsonlines::JsonLinesWriter::new(Vec::new())
}

/// Relies on `serde_jsonlines::JsonLinesWriter::write`: on success it has
/// appended the value's compact JSON — in which every control character,
/// the newline included, is escaped — followed by one `'\n'`. On failure
/// the buffer may hold a partial record, of which nothing is stated.
#[verifier::external_body]
pub(crate) fn jsonl_writer_write<T: serde::Serialize>(
    writer: &mut serde_jsonlines::JsonLinesWriter<Vec<u8>>,
    value: &T,
) -> (r: Result<(), std::io::Error>)
    ensures
        r is Ok ==> exists|line: Seq<char>|
            (forall|j: int| 0 <= j < line.len() ==> line[j] != '\n') && jsonl_writer_content(
                *final(writer),
            ) == jsonl_writer_content(*old(writer)) + line + seq!['\n'],
{
    writer.write(value)
}

/// Relies on `serde_jsonlines::JsonLinesWriter::into_inner`: hands back
/// exactly the buffered text, decoded lossily (the buffer is JSON text,
/// hence UTF-8 and decoded without loss).
#[verifier::external_body]
pub(crate) fn jsonl_writer_into_string(writer: serde_jsonlines::JsonLinesWriter<Vec<u8>>) -> (r:
    String)
    ensures
        r@ == jsonl_writer_content(writer),
{
    String::from_utf8_lossy(&writer.into_inner()).into_owned()
}

/// Relies on `serde_jsonlines::JsonLinesReader::read`: decodes the first
/// line of `input` as one JSON value, and returns `Ok(None)` exactly when
/// `input` is empty (end of file before any line).
#[verifier::external_body]
pub(crate) fn jsonl_read_first<T: serde::de::DeserializeOwned>(
    input: &str,
) -> (r: Result<Option<T>, std::io::Error>)
    ensures
        (r matches Ok(first) && first is None) <==> input@.len() == 0,
{
    serde_jsonlines::JsonLinesReader::new(input.as_bytes()).read()
}

/// Relies on `serde_jsonlines::JsonLinesReader::read_all` and its iterator:
/// one element per line of `input`, in order, each line independently
/// fallible; a final unterminated remainder counts as one line.
#[verifier::external_body]
pub(crate) fn jsonl_read_all<T: serde::de::DeserializeOwned>(
    input: &str,
) -> (r: Vec<Result<T, std::io::Error>>)
    ensures
        r@.len() == spec_jsonl_record_count(input@),
{
    serde_jsonlines::JsonLinesReader::new(input.as_bytes()).read_all().collect()
}

/// Relies on `csv::Writer::from_writer`: a CSV writer over an empty
/// in-memory buffer, which has been given no record yet and will write a
/// header row from the first record's field names.
#[verifier::external_body]
pub(crate) fn csv_writer_new() -> (r: CsvEncoder)
    ensures
        csv_encoder_record_count(r) == 0,
        csv_encoder_clean(r),
{
    CsvEncoder { inner: csv::Writer::from_writer(Vec::new()) }
}

/// Relies on `csv::Writer::serialize`: on success it has appended exactly
/// one CSV record for `value`, preceded by a header row if none has been
/// written yet. On failure the buffered output may hold a partial record,
/// of which nothing is stated.
#[verifier::external_body]
pub(crate) fn csv_writer_serialize<T: serde::Serialize>(
    writer: &mut CsvEncoder,
    value: &T,
) -> (r: Result<(), csv::Error>)
    requires
        csv_encoder_clean(*old(writer)),
    ensures
        r is Ok ==> csv_encoder_record_count(*final(writer)) == csv_encoder_record_count(
            *old(writer),
        ) + 1 && csv_encoder_clean(*final(writer)),
{
    writer.inner.serialize(value)
}

/// Relies on `csv::Writer::into_inner`: flushes and hands back the buffered
/// bytes. Flushing into an in-memory buffer cannot fail, so the unwrap
/// never fires; decoding the bytes can fail for records that held non-UTF-8
/// byte fields. A clean encoder given no record has buffered nothing;
/// every record writes at least its terminator, so one or more records
/// make the output nonempty, and a decoding failure takes at least one
/// record's bytes.
#[verifier::external_body]
pub(crate) fn csv_writer_into_string(
    writer: CsvEncoder,
) -> (r: Result<String, std::string::FromUtf8Error>)
    requires
        csv_encoder_clean(writer),
    ensures
        r matches Ok(s) ==> (s@.len() == 0 <==> csv_encoder_record_count(writer) == 0),
        r is Err ==> csv_encoder_record_count(writer) > 0,
{
    let buffer = writer.inner.into_inner().expect("flushing into a buffer cannot fail");
    String::from_utf8(buffer)
}

/// Relies on `csv::Reader::from_reader` and `into_deserialize`: decodes the
/// first record of `input` past its header row, and returns `None` exactly
/// when the reader frames no record there.
#[verifier::external_body]
pub(crate) fn csv_read_first<T: serde::de::DeserializeOwned>(
    input: &str,
) -> (r: Option<Result<T, csv::Error>>)
    ensures
        r is None <==> csv_record_count(input@) == 0,
        input@.len() == 0 ==> r is None,
{
    csv::Reader::from_reader(input.as_bytes()).into_deserialize().next()
}

/// Relies on `csv::Reader::from_reader` and `into_deserialize`: one element
/// per record framed past the header row, in order, each record
/// independently fallible. Empty input, and input holding a header row
/// alone, frame no record.
#[verifier::external_body]
pub(crate) fn csv_read_all<T: serde::de::DeserializeOwned>(
    input: &str,
) -> (r: Vec<Result<T, csv::Error>>)
    ensures
        r@.len() == csv_record_count(input@),
        input@.len() == 0 ==> r@.len() == 0,
{
    csv::Reader::from_reader(input.as_bytes()).into_deserialize().collect()
}

} // verus!
