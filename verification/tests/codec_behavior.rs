use anyformat::errors::DeserializeManyError;
use anyformat::errors::DeserializeOneError;
use anyformat::errors::SerializeManyError;
use anyformat::errors::SerializeOneError;
use anyformat::Format;
use serde::ser::SerializeStruct;

#[derive(Debug, Clone, PartialEq, Eq)]
struct Row {
    id: u64,
    name: String,
}

fn row(id: u64, name: &str) -> Row {
    Row { id, name: name.to_owned() }
}

impl serde::Serialize for Row {
    fn serialize<S: serde::Serializer>(&self, serializer: S) -> Result<S::Ok, S::Error> {
        let mut state = serializer.serialize_struct("Row", 2)?;
        state.serialize_field("id", &self.id)?;
        state.serialize_field("name", &self.name)?;
        state.end()
    }
}

struct RowVisitor;

impl<'de> serde::de::Visitor<'de> for RowVisitor {
    type Value = Row;

    fn expecting(&self, formatter: &mut std::fmt::Formatter) -> std::fmt::Result {
        formatter.write_str("struct Row")
    }

    fn visit_seq<A: serde::de::SeqAccess<'de>>(self, mut seq: A) -> Result<Row, A::Error> {
        let id = seq
            .next_element::<u64>()?
            .ok_or_else(|| serde::de::Error::invalid_length(0, &self))?;
        let name = seq
            .next_element::<String>()?
            .ok_or_else(|| serde::de::Error::invalid_length(1, &self))?;
        Ok(Row { id, name })
    }

    fn visit_map<A: serde::de::MapAccess<'de>>(self, mut map: A) -> Result<Row, A::Error> {
        let mut id: Option<u64> = None;
        let mut name: Option<String> = None;
        while let Some(key) = map.next_key::<String>()? {
            match key.as_str() {
                "id" => id = Some(map.next_value()?),
                "name" => name = Some(map.next_value()?),
                _ => {
                    map.next_value::<serde::de::IgnoredAny>()?;
                }
            }
        }
        let id = id.ok_or_else(|| serde::de::Error::missing_field("id"))?;
        let name = name.ok_or_else(|| serde::de::Error::missing_field("name"))?;
        Ok(Row { id, name })
    }
}

impl<'de> serde::Deserialize<'de> for Row {
    fn deserialize<D: serde::Deserializer<'de>>(deserializer: D) -> Result<Row, D::Error> {
        deserializer.deserialize_struct("Row", &["id", "name"], RowVisitor)
    }
}

/// A value whose CSV encoding is not valid UTF-8.
struct RawBytes;

impl serde::Serialize for RawBytes {
    fn serialize<S: serde::Serializer>(&self, serializer: S) -> Result<S::Ok, S::Error> {
        serializer.serialize_bytes(&[0xff, 0xfe])
    }
}

#[test]
fn one_value_round_trips_in_every_format() {
    let value = row(7, "Grace");
    let formats = [
        Format::Json,
        Format::Jsonl,
        Format::Yaml,
        Format::Xml,
        Format::Toml,
        Format::Csv,
    ];
    for format in formats {
        let text = format.serialize_one(&value).unwrap();
        let back: Row = format.deserialize_one(&text).unwrap();
        assert_eq!(back, value, "round trip failed for {format:?}");
    }
}

#[test]
fn json_encoding_is_real_json() {
    let text = Format::Json.serialize_one(&row(1, "Ada")).unwrap();
    assert!(text.contains("\"id\": 1"));
    assert!(text.contains("\"name\": \"Ada\""));
    let n: u64 = Format::Json.deserialize_one("5").unwrap();
    assert_eq!(n, 5);
}

#[test]
fn jsonl_encoding_is_one_record_per_line() {
    let text = Format::Jsonl
        .serialize_many(&vec![row(1, "Ada"), row(2, "Bob")])
        .unwrap();
    assert_eq!(text, "{\"id\":1,\"name\":\"Ada\"}\n{\"id\":2,\"name\":\"Bob\"}\n");
}

#[test]
fn many_values_round_trip_in_streamable_formats() {
    let values = vec![row(1, "Ada"), row(2, "Bob"), row(3, "Eve")];
    for format in [Format::Jsonl, Format::Csv] {
        let text = format.serialize_many(&values).unwrap();
        let items = format.deserialize_many::<Row>(&text).unwrap();
        let back: Vec<Row> = items.into_iter().map(|item| item.unwrap()).collect();
        assert_eq!(back, values, "streaming round trip failed for {format:?}");
    }
}

#[test]
fn many_value_operations_refuse_single_value_formats() {
    let values = vec![row(1, "Ada")];
    for format in [Format::Json, Format::Yaml, Format::Xml, Format::Toml] {
        match format.serialize_many(&values) {
            Err(SerializeManyError::UnsupportedFormat(u)) => assert_eq!(u.format, format),
            other => panic!("expected UnsupportedFormat for {format:?}, got {other:?}"),
        }
        match format.deserialize_many::<Row>("") {
            Err(DeserializeManyError::UnsupportedFormat(u)) => assert_eq!(u.format, format),
            other => panic!("expected UnsupportedFormat for {format:?}, got {other:?}"),
        }
    }
}

#[test]
fn empty_stream_is_no_records_not_an_error() {
    let items = Format::Csv.deserialize_many::<Row>("id,name\n").unwrap();
    assert!(items.is_empty());
    let items = Format::Jsonl.deserialize_many::<Row>("").unwrap();
    assert!(items.is_empty());
    assert!(matches!(
        Format::Csv.deserialize_one::<Row>("id,name\n"),
        Err(DeserializeOneError::ItemNotFound(_))
    ));
    assert!(matches!(
        Format::Csv.deserialize_one::<Row>(""),
        Err(DeserializeOneError::ItemNotFound(_))
    ));
    assert!(matches!(
        Format::Jsonl.deserialize_one::<Row>(""),
        Err(DeserializeOneError::ItemNotFound(_))
    ));
}

#[test]
fn csv_single_and_many_read_the_given_records() {
    let input = "id,name\n1,Alice\n2,Bob\n";
    let first: Row = Format::Csv.deserialize_one(input).unwrap();
    assert_eq!(first, row(1, "Alice"));
    let items = Format::Csv.deserialize_many::<Row>(input).unwrap();
    let rows: Vec<Row> = items.into_iter().map(|item| item.unwrap()).collect();
    assert_eq!(rows, vec![row(1, "Alice"), row(2, "Bob")]);
}

#[test]
fn one_bad_record_does_not_abort_the_stream() {
    let input = "id,name\n1,Alice\nx,Bob\n3,Eve\n";
    let items = Format::Csv.deserialize_many::<Row>(input).unwrap();
    assert_eq!(items.len(), 3);
    assert_eq!(items[0].as_ref().unwrap(), &row(1, "Alice"));
    assert!(matches!(items[1], Err(DeserializeOneError::Csv(_))));
    assert_eq!(items[2].as_ref().unwrap(), &row(3, "Eve"));

    let input = "{\"id\":1,\"name\":\"Ada\"}\nnot json\n{\"id\":3,\"name\":\"Eve\"}\n";
    let items = Format::Jsonl.deserialize_many::<Row>(input).unwrap();
    assert_eq!(items.len(), 3);
    assert_eq!(items[0].as_ref().unwrap(), &row(1, "Ada"));
    assert!(matches!(items[1], Err(DeserializeOneError::SerdeJsonlines(_))));
    assert_eq!(items[2].as_ref().unwrap(), &row(3, "Eve"));
}

#[test]
fn malformed_input_surfaces_the_backend_error() {
    assert!(matches!(
        Format::Json.deserialize_one::<Row>("{"),
        Err(DeserializeOneError::SerdeJson(_))
    ));
    assert!(matches!(
        Format::Jsonl.deserialize_one::<Row>("{oops}\n"),
        Err(DeserializeOneError::SerdeJsonlines(_))
    ));
    assert!(matches!(
        Format::Yaml.deserialize_one::<Row>("{x"),
        Err(DeserializeOneError::SerdeYaml(_))
    ));
    assert!(matches!(
        Format::Xml.deserialize_one::<Row>("<Row>"),
        Err(DeserializeOneError::QuickXml(_))
    ));
    assert!(matches!(
        Format::Toml.deserialize_one::<Row>("="),
        Err(DeserializeOneError::Toml(_))
    ));
    assert!(matches!(
        Format::Csv.deserialize_one::<Row>("id,name\nx,Alice\n"),
        Err(DeserializeOneError::Csv(_))
    ));
}

#[test]
fn unserializable_value_surfaces_the_backend_error() {
    assert!(matches!(
        Format::Toml.serialize_one(&5u64),
        Err(SerializeOneError::Toml(_))
    ));
    assert!(matches!(
        Format::Csv.serialize_one(&RawBytes),
        Err(SerializeOneError::FromUtf8(_))
    ));
}

#[test]
fn csv_encoding_writes_headers_once() {
    let text = Format::Csv.serialize_one(&row(1, "Alice")).unwrap();
    assert_eq!(text, "id,name\n1,Alice\n");
    let text = Format::Csv
        .serialize_many(&vec![row(1, "Ada"), row(2, "Bob")])
        .unwrap();
    assert_eq!(text, "id,name\n1,Ada\n2,Bob\n");
}

#[test]
fn json_pretty_prints_one_document() {
    let text = Format::Json.serialize_one(&row(1, "Ada")).unwrap();
    assert_eq!(text, "{\n  \"id\": 1,\n  \"name\": \"Ada\"\n}");
}

#[test]
fn jsonl_single_value_reads_the_first_line_only() {
    let input = "{\"id\":1,\"name\":\"Ada\"}\n{\"id\":2,\"name\":\"Bob\"}\n";
    let first: Row = Format::Jsonl.deserialize_one(input).unwrap();
    assert_eq!(first, row(1, "Ada"));
}

#[test]
fn partitioning_keeps_all_values_or_all_failures_in_order() {
    let records: Vec<Result<u64, String>> = vec![Ok(1), Ok(2), Ok(3)];
    assert_eq!(anyformat::codec::partition_records(records), Ok(vec![1, 2, 3]));
    let records: Vec<Result<u64, String>> =
        vec![Ok(1), Err("first".to_owned()), Ok(3), Err("second".to_owned())];
    assert_eq!(
        anyformat::codec::partition_records(records),
        Err(vec!["first".to_owned(), "second".to_owned()])
    );
    let records: Vec<Result<u64, String>> = Vec::new();
    assert_eq!(anyformat::codec::partition_records(records), Ok(Vec::new()));
}

#[test]
fn jsonl_single_value_is_one_terminated_line() {
    let text = Format::Jsonl.serialize_one(&row(1, "Ada")).unwrap();
    assert_eq!(text, "{\"id\":1,\"name\":\"Ada\"}\n");
}
