//! Single-value and many-value codec dispatch.
//!
//! Each operation routes a value (or a sequence of values) to the backend
//! crate that implements the requested format and wraps every backend
//! failure in the matching variant of the error taxonomy. Many-value
//! operations are legal only for streamable formats; a single-value-only
//! format is refused up front with [`UnsupportedFormatError`], before any
//! backend work.

use crate::backend;
use crate::backend::csv_encoder_clean;
use crate::backend::csv_encoder_record_count;
use crate::backend::csv_record_count;
use crate::backend::jsonl_writer_content;
use crate::backend::spec_count_char;
use crate::backend::spec_jsonl_record_count;
use crate::errors::DeserializeManyError;
use crate::errors::DeserializeOneError;
use crate::errors::ItemNotFoundError;
use crate::errors::SerializeManyError;
use crate::errors::SerializeOneError;
use crate::errors::UnsupportedFormatError;
use crate::format::Format;
use vstd::prelude::*;

verus! {

/// How one decoded JSON-Lines record is wrapped into the error taxonomy.
spec fn wrap_jsonl_item<T>(x: Result<T, std::io::Error>) -> Result<T, DeserializeOneError> {
    match x {
        Ok(v) => Ok(v),
        Err(e) => Err(DeserializeOneError::SerdeJsonlines(e)),
    }
}

/// How one decoded CSV record is wrapped into the error taxonomy.
spec fn wrap_csv_item<T>(x: Result<T, csv::Error>) -> Result<T, DeserializeOneError> {
    match x {
        Ok(v) => Ok(v),
        Err(e) => Err(DeserializeOneError::Csv(e)),
    }
}

/// Counting a character's occurrences distributes over concatenation.
proof fn lemma_count_char_concat(a: Seq<char>, b: Seq<char>, c: char)
    ensures
        spec_count_char(a + b, c) == spec_count_char(a, c) + spec_count_char(b, c),
    decreases b.len(),
{
    if b.len() == 0 {
        assert(a + b =~= a);
    } else {
        assert((a + b).drop_last() =~= a + b.drop_last());
        lemma_count_char_concat(a, b.drop_last(), c);
    }
}

/// A text in which a character does not occur counts zero occurrences.
proof fn lemma_count_char_absent(s: Seq<char>, c: char)
    requires
        forall|j: int| 0 <= j < s.len() ==> s[j] != c,
    ensures
        spec_count_char(s, c) == 0,
    decreases s.len(),
{
    if s.len() > 0 {
        lemma_count_char_absent(s.drop_last(), c);
    }
}

/// Appending one newline-free line and a `'\n'` to a buffer adds exactly
/// one newline and ends the buffer with it.
proof fn lemma_append_record_line(buffer: Seq<char>, line: Seq<char>)
    requires
        forall|j: int| 0 <= j < line.len() ==> line[j] != '\n',
    ensures
        spec_count_char(buffer + line + seq!['\n'], '\n') == spec_count_char(buffer, '\n') + 1,
        (buffer + line + seq!['\n']).len() > 0,
        (buffer + line + seq!['\n']).last() == '\n',
{
    lemma_count_char_absent(line, '\n');
    lemma_count_char_concat(buffer, line, '\n');
    lemma_count_char_concat(buffer + line, seq!['\n'], '\n');
    assert(seq!['\n'].drop_last() =~= Seq::<char>::empty());
    lemma_count_char_absent(Seq::<char>::empty(), '\n');
    assert(spec_count_char(seq!['\n'], '\n') == 1);
}

/// The values of the records that decoded, in order.
pub open spec fn spec_ok_values<T, E>(s: Seq<Result<T, E>>) -> Seq<T>
    decreases s.len(),
{
    if s.len() == 0 {
        Seq::<T>::empty()
    } else {
        let rest = spec_ok_values(s.drop_last());
        match s.last() {
            Ok(v) => rest.push(v),
            Err(_) => rest,
        }
    }
}

/// The failures of the records that did not decode, in order.
pub open spec fn spec_err_values<T, E>(s: Seq<Result<T, E>>) -> Seq<E>
    decreases s.len(),
{
    if s.len() == 0 {
        Seq::<E>::empty()
    } else {
        let rest = spec_err_values(s.drop_last());
        match s.last() {
            Ok(_) => rest,
            Err(e) => rest.push(e),
        }
    }
}

/// Splits a sequence of independently fallible records into all of its
/// values, or all of its failures: `Ok` with every value, in order, when no
/// record failed, else `Err` with every failure, in order.
pub fn partition_records<T, E>(records: Vec<Result<T, E>>) -> (r: Result<Vec<T>, Vec<E>>)
    ensures
        spec_err_values(records@).len() == 0 ==> (r matches Ok(values) && values@
            == spec_ok_values(records@)),
        spec_err_values(records@).len() > 0 ==> (r matches Err(failures) && failures@
            == spec_err_values(records@)),
{
    let ghost orig = records@;
    let mut rest = records;
    let mut values: Vec<T> = Vec::new();
    let mut failures: Vec<E> = Vec::new();
    while rest.len() > 0
        invariant
            rest@.len() <= orig.len(),
            rest@ =~= orig.subrange(orig.len() - rest@.len(), orig.len() as int),
            values@ == spec_ok_values(orig.subrange(0, orig.len() - rest@.len())),
            failures@ == spec_err_values(orig.subrange(0, orig.len() - rest@.len())),
        decreases rest@.len(),
    {
        let ghost k: int = orig.len() - rest@.len();
        let x = rest.remove(0);
        proof {
            assert(x == orig[k as int]);
            assert(rest@ =~= orig.subrange(k as int + 1, orig.len() as int));
            assert(orig.subrange(0, k as int + 1).drop_last() =~= orig.subrange(0, k as int));
            assert(orig.subrange(0, k as int + 1).last() == orig[k as int]);
        }
        match x {
            Ok(v) => values.push(v),
            Err(e) => failures.push(e),
        }
    }
    proof {
        assert(orig.subrange(0, orig.len() as int) =~= orig);
    }
    if failures.len() == 0 {
        Ok(values)
    } else {
        Err(failures)
    }
}

impl Format {
    /// Encodes one value as a single document in this format. A failure is
    /// always the backend's own error, wrapped in the variant that names
    /// this format's backend. A successful JSON-Lines document is exactly
    /// one newline-terminated line; a successful CSV document is nonempty
    /// (a header row and one record).
    pub fn serialize_one<T: serde::Serialize>(self, input: &T) -> (r: Result<
        String,
        SerializeOneError,
    >)
        ensures
            r is Err ==> match self {
                Format::Json => r->Err_0 is SerdeJson,
                Format::Jsonl => r->Err_0 is SerdeJsonlines,
                Format::Yaml => r->Err_0 is SerdeYaml,
                Format::Xml => r->Err_0 is QuickXml,
                Format::Toml => r->Err_0 is Toml,
                Format::Csv => r->Err_0 is Csv || r->Err_0 is FromUtf8,
            },
            self == Format::Jsonl ==> (r matches Ok(s) ==> spec_count_char(s@, '\n') == 1
                && s@.len() > 0 && s@.last() == '\n'),
            self == Format::Csv ==> (r matches Ok(s) ==> s@.len() > 0),
    {
        match self {
            Format::Json => match backend::json_encode(input) {
                Ok(s) => Ok(s),
                Err(e) => Err(SerializeOneError::SerdeJson(e)),
            },
            Format::Jsonl => {
                let mut writer = backend::jsonl_writer_new();
                match backend::jsonl_writer_write(&mut writer, input) {
                    Ok(_) => {
                        proof {
                            let line = choose|line: Seq<char>|
                                (forall|j: int| 0 <= j < line.len() ==> line[j] != '\n')
                                    && jsonl_writer_content(writer) == Seq::<char>::empty() + line
                                    + seq!['\n'];
                            lemma_append_record_line(Seq::<char>::empty(), line);
                            lemma_count_char_absent(Seq::<char>::empty(), '\n');
                        }
                        Ok(backend::jsonl_writer_into_string(writer))
                    },
                    Err(e) => Err(SerializeOneError::SerdeJsonlines(e)),
                }
            },
            Format::Yaml => match backend::yaml_encode(input) {
                Ok(s) => Ok(s),
                Err(e) => Err(SerializeOneError::SerdeYaml(e)),
            },
            Format::Xml => match backend::xml_encode(input) {
                Ok(s) => Ok(s),
                Err(e) => Err(SerializeOneError::QuickXml(e)),
            },
            Format::Toml => match backend::toml_encode(input) {
                Ok(s) => Ok(s),
                Err(e) => Err(SerializeOneError::Toml(e)),
            },
            Format::Csv => {
                let mut writer = backend::csv_writer_new();
                match backend::csv_writer_serialize(&mut writer, input) {
                    Ok(_) => match backend::csv_writer_into_string(writer) {
                        Ok(s) => Ok(s),
                        Err(e) => Err(SerializeOneError::FromUtf8(e)),
                    },
                    Err(e) => Err(SerializeOneError::Csv(e)),
                }
            },
        }
    }

    /// Decodes one value from a single document in this format. For the
    /// record-oriented formats, [`ItemNotFoundError`] answers exactly the
    /// inputs that frame no record — for JSON-Lines the empty input, for
    /// CSV an input with nothing past its header row — never a malformed
    /// one, so a caller can tell "malformed" apart from "empty". Any other
    /// failure is the backend's own error, wrapped in the variant that
    /// names this format's backend.
    pub fn deserialize_one<T: serde::de::DeserializeOwned>(self, input: &str) -> (r: Result<
        T,
        DeserializeOneError,
    >)
        ensures
            r is Err ==> match self {
                Format::Json => r->Err_0 is SerdeJson,
                Format::Jsonl => r->Err_0 is SerdeJsonlines || r->Err_0 is ItemNotFound,
                Format::Yaml => r->Err_0 is SerdeYaml,
                Format::Xml => r->Err_0 is QuickXml,
                Format::Toml => r->Err_0 is Toml,
                Format::Csv => r->Err_0 is Csv || r->Err_0 is ItemNotFound,
            },
            self == Format::Jsonl ==> ((r is Err && r->Err_0 is ItemNotFound) <==> input@.len()
                == 0),
            self == Format::Csv ==> ((r is Err && r->Err_0 is ItemNotFound) <==> csv_record_count(
                input@,
            ) == 0),
            self.spec_is_streamable() && input@.len() == 0 ==> r is Err && r->Err_0 is ItemNotFound,
    {
        match self {
            Format::Json => match backend::json_decode::<T>(input) {
                Ok(v) => Ok(v),
                Err(e) => Err(DeserializeOneError::SerdeJson(e)),
            },
            Format::Jsonl => match backend::jsonl_read_first::<T>(input) {
                Ok(Some(v)) => Ok(v),
                Ok(None) => Err(DeserializeOneError::ItemNotFound(ItemNotFoundError)),
                Err(e) => Err(DeserializeOneError::SerdeJsonlines(e)),
            },
            Format::Yaml => match backend::yaml_decode::<T>(input) {
                Ok(v) => Ok(v),
                Err(e) => Err(DeserializeOneError::SerdeYaml(e)),
            },
            Format::Xml => match backend::xml_decode::<T>(input) {
                Ok(v) => Ok(v),
                Err(e) => Err(DeserializeOneError::QuickXml(e)),
            },
            Format::Toml => match backend::toml_decode::<T>(input) {
                Ok(v) => Ok(v),
                Err(e) => Err(DeserializeOneError::Toml(e)),
            },
            Format::Csv => match backend::csv_read_first::<T>(input) {
                Some(Ok(v)) => Ok(v),
                Some(Err(e)) => Err(DeserializeOneError::Csv(e)),
                None => Err(DeserializeOneError::ItemNotFound(ItemNotFoundError)),
            },
        }
    }

    /// Encodes a sequence of values, one independent record each, in the
    /// sequence's order, as one string in this format. For a
    /// single-value-only format the operation fails immediately with
    /// [`UnsupportedFormatError`] carrying this format, and only then: it
    /// never silently falls back to buffering the sequence into one
    /// document. A failure of a streamable backend is wrapped in the
    /// variant that names it and is never swallowed: a successful
    /// JSON-Lines result holds exactly one newline-terminated line per
    /// item, and a successful result is empty exactly for an empty
    /// sequence.
    pub fn serialize_many<T: serde::Serialize>(self, items: &Vec<T>) -> (r: Result<
        String,
        SerializeManyError,
    >)
        ensures
            !self.spec_is_streamable() <==> (r matches Err(SerializeManyError::UnsupportedFormat(u))
                && u.format == self),
            r is Err ==> match self {
                Format::Jsonl => r->Err_0 is SerdeJsonlines,
                Format::Csv => r->Err_0 is Csv || r->Err_0 is FromUtf8,
                _ => r->Err_0 is UnsupportedFormat,
            },
            self == Format::Jsonl ==> (r matches Ok(s) ==> spec_count_char(s@, '\n')
                == items@.len() && (s@.len() > 0 ==> s@.last() == '\n')),
            self.spec_is_streamable() ==> (r matches Ok(s) ==> (s@.len() == 0 <==> items@.len()
                == 0)),
    {
        match self {
            Format::Jsonl => {
                let mut writer = backend::jsonl_writer_new();
                proof {
                    lemma_count_char_absent(Seq::<char>::empty(), '\n');
                }
                let mut i: usize = 0;
                while i < items.len()
                    invariant
                        self == Format::Jsonl,
                        i <= items@.len(),
                        spec_count_char(jsonl_writer_content(writer), '\n') == i,
                        jsonl_writer_content(writer).len() == 0 <==> i == 0,
                        i > 0 ==> jsonl_writer_content(writer).last() == '\n',
                    decreases items@.len() - i,
                {
                    let ghost buffer = jsonl_writer_content(writer);
                    match backend::jsonl_writer_write(&mut writer, &items[i]) {
                        Ok(_) => {
                            proof {
                                let line = choose|line: Seq<char>|
                                    (forall|j: int| 0 <= j < line.len() ==> line[j] != '\n')
                                        && jsonl_writer_content(writer) == buffer + line
                                        + seq!['\n'];
                                lemma_append_record_line(buffer, line);
                            }
                        },
                        Err(e) => {
                            return Err(SerializeManyError::SerdeJsonlines(e));
                        },
                    }
                    i = i + 1;
                }
                Ok(backend::jsonl_writer_into_string(writer))
            },
            Format::Csv => {
                let mut writer = backend::csv_writer_new();
                let mut i: usize = 0;
                while i < items.len()
                    invariant
                        self == Format::Csv,
                        i <= items@.len(),
                        csv_encoder_record_count(writer) == i,
                        csv_encoder_clean(writer),
                    decreases items@.len() - i,
                {
                    match backend::csv_writer_serialize(&mut writer, &items[i]) {
                        Ok(_) => {},
                        Err(e) => {
                            return Err(SerializeManyError::Csv(e));
                        },
                    }
                    i = i + 1;
                }
                match backend::csv_writer_into_string(writer) {
                    Ok(s) => Ok(s),
                    Err(e) => Err(SerializeManyError::FromUtf8(e)),
                }
            },
            _ => Err(
                SerializeManyError::UnsupportedFormat(UnsupportedFormatError { format: self }),
            ),
        }
    }

    /// Decodes every record that `input` frames — one element per record,
    /// in the order present in the input, none dropped — each record
    /// independently fallible: one malformed record is one `Err` element
    /// and does not abort the rest. For a single-value-only format the
    /// operation fails immediately with [`UnsupportedFormatError`] carrying
    /// this format; an empty input for a streamable format yields an empty
    /// sequence, not an error.
    pub fn deserialize_many<T: serde::de::DeserializeOwned>(self, input: &str) -> (r: Result<
        Vec<Result<T, DeserializeOneError>>,
        DeserializeManyError,
    >)
        ensures
            !self.spec_is_streamable() <==> (r matches Err(
                DeserializeManyError::UnsupportedFormat(u),
            ) && u.format == self),
            self.spec_is_streamable() <==> r is Ok,
            r matches Ok(items) ==> forall|k: int|
                0 <= k < items@.len() && (#[trigger] items@[k]) is Err ==> match self {
                    Format::Jsonl => items@[k]->Err_0 is SerdeJsonlines,
                    Format::Csv => items@[k]->Err_0 is Csv,
                    _ => false,
                },
            self == Format::Jsonl ==> (r matches Ok(items) ==> items@.len()
                == spec_jsonl_record_count(input@)),
            self == Format::Csv ==> (r matches Ok(items) ==> items@.len() == csv_record_count(
                input@,
            )),
            self.spec_is_streamable() && input@.len() == 0 ==> (r matches Ok(items)
                && items@.len() == 0),
    {
        match self {
            Format::Jsonl => {
                let mut raw = backend::jsonl_read_all::<T>(input);
                let ghost orig = raw@;
                let mut rev: Vec<Result<T, DeserializeOneError>> = Vec::new();
                while raw.len() > 0
                    invariant
                        orig.len() == spec_jsonl_record_count(input@),
                        raw@.len() + rev@.len() == orig.len(),
                        raw@ =~= orig.subrange(0, raw@.len() as int),
                        forall|k: int|
                            0 <= k < rev@.len() ==> rev@[k] == wrap_jsonl_item(
                                orig[orig.len() - 1 - k],
                            ),
                    decreases raw@.len(),
                {
                    let x = raw.pop().unwrap();
                    proof {
                        assert(x == orig[raw@.len() as int]);
                    }
                    match x {
                        Ok(v) => rev.push(Ok(v)),
                        Err(e) => rev.push(Err(DeserializeOneError::SerdeJsonlines(e))),
                    }
                }
                let mut items: Vec<Result<T, DeserializeOneError>> = Vec::new();
                while rev.len() > 0
                    invariant
                        orig.len() == spec_jsonl_record_count(input@),
                        rev@.len() + items@.len() == orig.len(),
                        forall|k: int|
                            0 <= k < rev@.len() ==> rev@[k] == wrap_jsonl_item(
                                orig[orig.len() - 1 - k],
                            ),
                        forall|k: int|
                            0 <= k < items@.len() ==> items@[k] == wrap_jsonl_item(orig[k]),
                    decreases rev@.len(),
                {
                    let x = rev.pop().unwrap();
                    items.push(x);
                }
                proof {
                    if input@.len() == 0 {
                        lemma_count_char_absent(input@, '\n');
                    }
                }
                Ok(items)
            },
            Format::Csv => {
                let mut raw = backend::csv_read_all::<T>(input);
                let ghost orig = raw@;
                let mut rev: Vec<Result<T, DeserializeOneError>> = Vec::new();
                while raw.len() > 0
                    invariant
                        orig.len() == csv_record_count(input@),
                        input@.len() == 0 ==> orig.len() == 0,
                        raw@.len() + rev@.len() == orig.len(),
                        raw@ =~= orig.subrange(0, raw@.len() as int),
                        forall|k: int|
                            0 <= k < rev@.len() ==> rev@[k] == wrap_csv_item(
                                orig[orig.len() - 1 - k],
                            ),
                    decreases raw@.len(),
                {
                    let x = raw.pop().unwrap();
                    proof {
                        assert(x == orig[raw@.len() as int]);
                    }
                    match x {
                        Ok(v) => rev.push(Ok(v)),
                        Err(e) => rev.push(Err(DeserializeOneError::Csv(e))),
                    }
                }
                let mut items: Vec<Result<T, DeserializeOneError>> = Vec::new();
                while rev.len() > 0
                    invariant
                        orig.len() == csv_record_count(input@),
                        input@.len() == 0 ==> orig.len() == 0,
                        rev@.len() + items@.len() == orig.len(),
                        forall|k: int|
                            0 <= k < rev@.len() ==> rev@[k] == wrap_csv_item(
                                orig[orig.len() - 1 - k],
                            ),
                        forall|k: int|
                            0 <= k < items@.len() ==> items@[k] == wrap_csv_item(orig[k]),
                    decreases rev@.len(),
                {
                    let x = rev.pop().unwrap();
                    items.push(x);
                }
                Ok(items)
            },
            _ => Err(
                DeserializeManyError::UnsupportedFormat(UnsupportedFormatError { format: self }),
            ),
        }
    }
}

} // verus!
