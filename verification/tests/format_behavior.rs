use anyformat::errors::TryFromPathError;
use anyformat::Format;

#[test]
fn recognizes_every_canonical_extension() {
    assert_eq!(Format::try_from_file_extension("json"), Ok(Format::Json));
    assert_eq!(Format::try_from_file_extension("jsonl"), Ok(Format::Jsonl));
    assert_eq!(Format::try_from_file_extension("yaml"), Ok(Format::Yaml));
    assert_eq!(Format::try_from_file_extension("yml"), Ok(Format::Yaml));
    assert_eq!(Format::try_from_file_extension("xml"), Ok(Format::Xml));
    assert_eq!(Format::try_from_file_extension("toml"), Ok(Format::Toml));
    assert_eq!(Format::try_from_file_extension("csv"), Ok(Format::Csv));
}

#[test]
fn extension_round_trips_through_inference() {
    let formats = [
        Format::Json,
        Format::Jsonl,
        Format::Yaml,
        Format::Xml,
        Format::Toml,
        Format::Csv,
    ];
    for format in formats {
        assert_eq!(
            Format::try_from_file_extension(format.to_file_extension()),
            Ok(format)
        );
    }
}

#[test]
fn unmapped_extension_is_unrecognized_and_carried() {
    for ext in ["txt", "", "JSON", "Yaml", "jso", "jsonll", "tsv"] {
        let err = Format::try_from_file_extension(ext).unwrap_err();
        assert_eq!(err.extension, ext);
    }
}

#[test]
fn path_without_extension_is_a_distinct_failure() {
    for path in ["data", "dir/data", ".gitignore", "dir.d/file", "..", "a/.."] {
        match Format::try_from_path(path) {
            Err(TryFromPathError::PathHasNoExtension(e)) => assert_eq!(e.path, path),
            other => panic!("expected PathHasNoExtension for {path:?}, got {other:?}"),
        }
    }
}

#[test]
fn path_with_unrecognized_extension_keeps_the_extension() {
    match Format::try_from_path("archive.tar.gz") {
        Err(TryFromPathError::UnrecognizedExtension(e)) => assert_eq!(e.extension, "gz"),
        other => panic!("expected UnrecognizedExtension, got {other:?}"),
    }
    match Format::try_from_path("x..") {
        Err(TryFromPathError::UnrecognizedExtension(e)) => assert_eq!(e.extension, ""),
        other => panic!("expected UnrecognizedExtension, got {other:?}"),
    }
}

#[test]
fn path_resolution_finds_the_format() {
    assert_eq!(Format::try_from_path("data.json"), Ok(Format::Json));
    assert_eq!(Format::try_from_path("dir/data.yml"), Ok(Format::Yaml));
    assert_eq!(Format::try_from_path("/a/b/c.toml"), Ok(Format::Toml));
    assert_eq!(Format::try_from_path("records.csv"), Ok(Format::Csv));
    assert_eq!(Format::try_from_path("a.tar.jsonl"), Ok(Format::Jsonl));
    assert_eq!(Format::try_from_path(".config.xml"), Ok(Format::Xml));
}

#[test]
fn file_name_concatenates_stem_dot_extension() {
    assert_eq!(Format::Json.to_file_name("data"), "data.json");
    assert_eq!(Format::Csv.to_file_name("rows"), "rows.csv");
    assert_eq!(Format::Yaml.to_file_name(""), ".yaml");
}

#[test]
fn only_record_oriented_formats_are_streamable() {
    assert!(Format::Jsonl.is_streamable());
    assert!(Format::Csv.is_streamable());
    assert!(!Format::Json.is_streamable());
    assert!(!Format::Yaml.is_streamable());
    assert!(!Format::Xml.is_streamable());
    assert!(!Format::Toml.is_streamable());
}

#[test]
fn built_file_names_resolve_back_to_their_format() {
    let formats = [
        Format::Json,
        Format::Jsonl,
        Format::Yaml,
        Format::Xml,
        Format::Toml,
        Format::Csv,
    ];
    for format in formats {
        let name = format.to_file_name("data");
        assert_eq!(Format::try_from_path(&name), Ok(format));
        let nested = format!("outdir/{name}");
        assert_eq!(Format::try_from_path(&nested), Ok(format));
    }
}

#[test]
fn trailing_current_directory_components_are_ignored() {
    assert_eq!(Format::try_from_path("data.json/."), Ok(Format::Json));
    assert_eq!(Format::try_from_path("dir/data.yml/.//"), Ok(Format::Yaml));
    assert_eq!(Format::try_from_path("./a.toml"), Ok(Format::Toml));
    match Format::try_from_path("archive.tar.gz/.") {
        Err(TryFromPathError::UnrecognizedExtension(e)) => assert_eq!(e.extension, "gz"),
        other => panic!("expected UnrecognizedExtension, got {other:?}"),
    }
    for path in [".", "a/.", "a/.//."] {
        match Format::try_from_path(path) {
            Err(TryFromPathError::PathHasNoExtension(e)) => assert_eq!(e.path, path),
            other => panic!("expected PathHasNoExtension for {path:?}, got {other:?}"),
        }
    }
}
