//! The closed set of supported data formats and the mapping between formats
//! and file extensions.
//!
//! Extension inference is deliberately strict: an extension is matched
//! case-sensitively against a small literal set, and file contents are never
//! sniffed, so the inferred format is a deterministic function of the path
//! alone.

use crate::errors::PathHasNoExtensionError;
use crate::errors::TryFromPathError;
use crate::errors::UnrecognizedExtensionError;
use vstd::prelude::*;

verus! {

/// One supported data encoding.
///
/// The set of variants equals the set of extensions that
/// [`Format::try_from_file_extension`] recognizes; each variant is backed by
/// one codec crate.
#[derive(Clone, Copy, Debug, PartialEq, Eq, Structural, Hash, PartialOrd, Ord)]
pub enum Format {
    Json,
    Jsonl,
    Yaml,
    Xml,
    Toml,
    Csv,
}

/// Compares two string slices character by character.
fn str_eq(a: &str, b: &str) -> (r: bool)
    ensures
        r == (a@ == b@),
{
    let a_len = a.unicode_len();
    let b_len = b.unicode_len();
    if a_len != b_len {
        return false;
    }
    let mut i: usize = 0;
    while i < a_len
        invariant
            a_len == a@.len(),
            b_len == b@.len(),
            a_len == b_len,
            i <= a_len,
            forall|j: int| 0 <= j < i ==> a@[j] == b@[j],
        decreases a_len - i,
    {
        if a.get_char(i) != b.get_char(i) {
            return false;
        }
        i = i + 1;
    }
    proof {
        assert(a@ =~= b@);
    }
    true
}

/// Whether the last character of `s` belongs to the path's tail: a `'/'`,
/// or a `'.'` that forms a whole current-directory component (the character
/// before it, if any, is a `'/'`).
pub open spec fn spec_path_tail_char(s: Seq<char>) -> bool {
    s.len() > 0 && (s.last() == '/' || (s.last() == '.' && (s.len() == 1 || s[s.len() - 2]
        == '/')))
}

/// What remains of a path after trailing separators and trailing
/// current-directory (`"."`) components are removed, as when a path's file
/// name is taken.
pub open spec fn spec_strip_path_tail(s: Seq<char>) -> Seq<char>
    decreases s.len(),
{
    if spec_path_tail_char(s) {
        spec_strip_path_tail(s.drop_last())
    } else {
        s
    }
}

/// The suffix of `s` that follows the last occurrence of `c`, or `s` itself
/// when `c` does not occur.
pub open spec fn spec_suffix_after_last(s: Seq<char>, c: char) -> Seq<char>
    decreases s.len(),
{
    if s.len() == 0 {
        s
    } else if s.last() == c {
        Seq::<char>::empty()
    } else {
        spec_suffix_after_last(s.drop_last(), c).push(s.last())
    }
}

/// When the position before `k` holds `c` (or `k` is zero and `c` does not
/// occur at all) and nothing at or after `k` is `c`, the suffix after the
/// last `c` is exactly the characters from `k` on.
proof fn lemma_suffix_after_last(s: Seq<char>, c: char, k: int)
    requires
        0 <= k <= s.len(),
        forall|j: int| k <= j < s.len() ==> s[j] != c,
        k > 0 ==> s[k - 1] == c,
    ensures
        spec_suffix_after_last(s, c) =~= s.subrange(k, s.len() as int),
    decreases s.len(),
{
    if s.len() == 0 {
    } else if s.last() == c {
        assert(k == s.len());
    } else {
        assert(k < s.len());
        lemma_suffix_after_last(s.drop_last(), c, k);
        assert(spec_suffix_after_last(s.drop_last(), c).push(s.last()) =~= s.subrange(
            k,
            s.len() as int,
        ));
    }
}

/// Appending characters that are all different from `c` extends the suffix
/// after the last `c` by exactly those characters.
proof fn lemma_suffix_concat(a: Seq<char>, b: Seq<char>, c: char)
    requires
        forall|j: int| 0 <= j < b.len() ==> b[j] != c,
    ensures
        spec_suffix_after_last(a + b, c) == spec_suffix_after_last(a, c) + b,
    decreases b.len(),
{
    if b.len() == 0 {
        assert(a + b =~= a);
        assert(spec_suffix_after_last(a, c) + b =~= spec_suffix_after_last(a, c));
    } else {
        assert((a + b).drop_last() =~= a + b.drop_last());
        lemma_suffix_concat(a, b.drop_last(), c);
        assert(spec_suffix_after_last(a, c) + b =~= (spec_suffix_after_last(a, c)
            + b.drop_last()).push(b.last()));
    }
}

impl Format {
    /// The canonical file extension of this format.
    pub open spec fn spec_extension(self) -> Seq<char> {
        match self {
            Format::Json => "json"@,
            Format::Jsonl => "jsonl"@,
            Format::Yaml => "yaml"@,
            Format::Xml => "xml"@,
            Format::Toml => "toml"@,
            Format::Csv => "csv"@,
        }
    }

    /// The format that an extension string resolves to, if any. Multiple
    /// extensions may map to one format (`"yaml"` and `"yml"` both name
    /// [`Format::Yaml`]); one extension maps to at most one format.
    pub open spec fn spec_format_of_extension(ext: Seq<char>) -> Option<Format> {
        if ext == "json"@ {
            Some(Format::Json)
        } else if ext == "jsonl"@ {
            Some(Format::Jsonl)
        } else if ext == "yaml"@ || ext == "yml"@ {
            Some(Format::Yaml)
        } else if ext == "xml"@ {
            Some(Format::Xml)
        } else if ext == "toml"@ {
            Some(Format::Toml)
        } else if ext == "csv"@ {
            Some(Format::Csv)
        } else {
            None
        }
    }

    /// The canonical file extension, e.g. `"json"` for [`Format::Json`].
    pub fn to_file_extension(&self) -> (r: &'static str)
        ensures
            r@ == self.spec_extension(),
    {
        match self {
            Format::Json => "json",
            Format::Jsonl => "jsonl",
            Format::Yaml => "yaml",
            Format::Xml => "xml",
            Format::Toml => "toml",
            Format::Csv => "csv",
        }
    }

    /// The file name `stem` + `"."` + canonical extension.
    pub open spec fn spec_file_name(self, stem: Seq<char>) -> Seq<char> {
        stem + "."@ + self.spec_extension()
    }

    /// Concatenates `stem`, a dot and the canonical extension. Pure string
    /// construction, no filesystem access.
    pub fn to_file_name(&self, stem: &str) -> (r: String)
        ensures
            r@ == self.spec_file_name(stem@),
    {
        let mut name = stem.to_owned();
        name.append(".");
        name.append(self.to_file_extension());
        name
    }

    /// Resolves a format from a file extension: a case-sensitive exact match
    /// against the literal extension set. Unmatched input fails with
    /// [`UnrecognizedExtensionError`] carrying the offending extension.
    pub fn try_from_file_extension(extension: &str) -> (r: Result<
        Format,
        UnrecognizedExtensionError,
    >)
        ensures
            match Format::spec_format_of_extension(extension@) {
                Some(f) => r == Ok::<Format, UnrecognizedExtensionError>(f),
                None => r matches Err(e) && e.extension@ == extension@,
            },
    {
        if str_eq(extension, "json") {
            Ok(Format::Json)
        } else if str_eq(extension, "jsonl") {
            Ok(Format::Jsonl)
        } else if str_eq(extension, "yaml") || str_eq(extension, "yml") {
            Ok(Format::Yaml)
        } else if str_eq(extension, "xml") {
            Ok(Format::Xml)
        } else if str_eq(extension, "toml") {
            Ok(Format::Toml)
        } else if str_eq(extension, "csv") {
            Ok(Format::Csv)
        } else {
            Err(UnrecognizedExtensionError { extension: extension.to_owned() })
        }
    }

    /// The file-name part of a path: what follows the last `'/'`, after
    /// trailing separators and trailing `"."` components are removed.
    pub open spec fn spec_path_file_name(path: Seq<char>) -> Seq<char> {
        spec_suffix_after_last(spec_strip_path_tail(path), '/')
    }

    /// The extension of a path: the suffix of its file name after the last
    /// `'.'`, provided some `'.'` stands past the name's first character.
    /// A file name without a dot, a name whose only dot is its leading
    /// character, and the parent-directory name `".."` have no extension.
    pub open spec fn spec_path_extension(path: Seq<char>) -> Option<Seq<char>> {
        let name = Format::spec_path_file_name(path);
        if name == ".."@ {
            None
        } else if exists|i: int| 1 <= i < name.len() && name[i] == '.' {
            Some(spec_suffix_after_last(name, '.'))
        } else {
            None
        }
    }

    /// Resolves a format from a path's extension. A path with no extension
    /// fails with [`PathHasNoExtensionError`]; an extension outside the
    /// recognized set fails with [`UnrecognizedExtensionError`]. The two
    /// failure kinds are never conflated.
    pub fn try_from_path(path: &str) -> (r: Result<Format, TryFromPathError>)
        ensures
            match Format::spec_path_extension(path@) {
                None => (r matches Err(TryFromPathError::PathHasNoExtension(e)) && e.path@
                    == path@),
                Some(ext) => match Format::spec_format_of_extension(ext) {
                    Some(f) => r == Ok::<Format, TryFromPathError>(f),
                    None => (r matches Err(TryFromPathError::UnrecognizedExtension(e))
                        && e.extension@ == ext),
                },
            },
    {
        let len = path.unicode_len();
        let mut end: usize = len;
        proof {
            assert(path@.subrange(0, len as int) =~= path@);
        }
        while end > 0 && (path.get_char(end - 1) == '/' || (path.get_char(end - 1) == '.' && (end
            == 1 || path.get_char(end - 2) == '/')))
            invariant
                end <= len,
                len == path@.len(),
                spec_strip_path_tail(path@) == spec_strip_path_tail(
                    path@.subrange(0, end as int),
                ),
            decreases end,
        {
            proof {
                let s = path@.subrange(0, end as int);
                assert(s.last() == path@[end - 1]);
                assert(end >= 2 ==> s[end - 2] == path@[end - 2]);
                assert(spec_path_tail_char(s));
                assert(s.drop_last() =~= path@.subrange(0, end - 1));
            }
            end = end - 1;
        }
        let ghost trimmed = path@.subrange(0, end as int);
        proof {
            assert(end > 0 ==> trimmed.last() == path@[end - 1]);
            assert(end >= 2 ==> trimmed[end - 2] == path@[end - 2]);
            assert(!spec_path_tail_char(trimmed));
            assert(spec_strip_path_tail(path@) == trimmed);
        }
        let mut start: usize = end;
        while start > 0 && path.get_char(start - 1) != '/'
            invariant
                start <= end,
                end <= len,
                len == path@.len(),
                forall|j: int| start <= j < end ==> path@[j] != '/',
            decreases start,
        {
            start = start - 1;
        }
        let ghost name = path@.subrange(start as int, end as int);
        proof {
            lemma_suffix_after_last(trimmed, '/', start as int);
            assert(trimmed.subrange(start as int, end as int) =~= name);
            assert(Format::spec_path_file_name(path@) == name);
        }
        let is_parent_dir = end - start == 2 && path.get_char(start) == '.' && path.get_char(
            start + 1,
        ) == '.';
        proof {
            reveal_strlit("..");
            assert(".."@.len() == 2);
            if is_parent_dir {
                assert(name =~= ".."@);
            } else if name.len() == 2 {
                assert(name[0] == path@[start as int] && name[1] == path@[start as int + 1]);
            }
        }
        let mut dot: usize = end;
        while dot > start && path.get_char(dot - 1) != '.'
            invariant
                start <= dot <= end,
                end <= len,
                len == path@.len(),
                forall|j: int| dot <= j < end ==> path@[j] != '.',
            decreases dot,
        {
            dot = dot - 1;
        }
        if is_parent_dir || dot <= start + 1 {
            proof {
                if !is_parent_dir {
                    assert(forall|i: int|
                        1 <= i < name.len() ==> name[i] == path@[start as int + i]);
                    assert(forall|i: int| 1 <= i < name.len() ==> name[i] != '.');
                }
            }
            return Err(
                TryFromPathError::PathHasNoExtension(
                    PathHasNoExtensionError { path: path.to_owned() },
                ),
            );
        }
        let ext = path.substring_char(dot, end);
        proof {
            assert(name[dot - start - 1] == '.' && 1 <= dot - start - 1 < name.len());
            lemma_suffix_after_last(name, '.', dot - start as int);
            assert(name.subrange(dot - start as int, name.len() as int) =~= ext@);
        }
        match Format::try_from_file_extension(ext) {
            Ok(f) => Ok(f),
            Err(e) => Err(TryFromPathError::UnrecognizedExtension(e)),
        }
    }

    /// Whether this format's encoding naturally supports incremental,
    /// record-oriented emission and consumption. JSON-Lines and CSV are
    /// streamable; a JSON, YAML, XML or TOML document holds one value.
    pub open spec fn spec_is_streamable(self) -> bool {
        match self {
            Format::Jsonl => true,
            Format::Csv => true,
            _ => false,
        }
    }

    /// Whether many-value operations are legal for this format.
    pub fn is_streamable(&self) -> (r: bool)
        ensures
            r == self.spec_is_streamable(),
    {
        matches!(self, Format::Jsonl | Format::Csv)
    }
}

/// A file name built from a format resolves back to that format's canonical
/// extension: the extension of `stem` + `"."` + canonical extension is the
/// canonical extension, provided the stem's own file-name part (what follows
/// its last `'/'`) is nonempty. Together with
/// [`lemma_extension_round_trip`], inferring a format from a path built by
/// [`Format::to_file_name`] yields the format the name was built for.
pub proof fn lemma_file_name_round_trip(f: Format, stem: Seq<char>)
    requires
        spec_suffix_after_last(stem, '/').len() > 0,
    ensures
        Format::spec_path_extension(f.spec_file_name(stem)) == Some(f.spec_extension()),
{
    reveal_strlit(".");
    reveal_strlit("..");
    reveal_strlit("json");
    reveal_strlit("jsonl");
    reveal_strlit("yaml");
    reveal_strlit("yml");
    reveal_strlit("xml");
    reveal_strlit("toml");
    reveal_strlit("csv");
    let ext = f.spec_extension();
    let dot_ext = "."@ + ext;
    assert("."@.len() == 1 && "."@[0] == '.');
    assert(".."@.len() == 2);
    assert(3 <= ext.len() <= 5) by {
        match f {
            Format::Json => assert("json"@.len() == 4),
            Format::Jsonl => assert("jsonl"@.len() == 5),
            Format::Yaml => assert("yaml"@.len() == 4),
            Format::Xml => assert("xml"@.len() == 3),
            Format::Toml => assert("toml"@.len() == 4),
            Format::Csv => assert("csv"@.len() == 3),
        }
    }
    assert(forall|j: int| 0 <= j < ext.len() ==> ext[j] != '/' && ext[j] != '.') by {
        match f {
            Format::Json => assert(forall|j: int|
                0 <= j < "json"@.len() ==> "json"@[j] != '/' && "json"@[j] != '.'),
            Format::Jsonl => assert(forall|j: int|
                0 <= j < "jsonl"@.len() ==> "jsonl"@[j] != '/' && "jsonl"@[j] != '.'),
            Format::Yaml => assert(forall|j: int|
                0 <= j < "yaml"@.len() ==> "yaml"@[j] != '/' && "yaml"@[j] != '.'),
            Format::Xml => assert(forall|j: int|
                0 <= j < "xml"@.len() ==> "xml"@[j] != '/' && "xml"@[j] != '.'),
            Format::Toml => assert(forall|j: int|
                0 <= j < "toml"@.len() ==> "toml"@[j] != '/' && "toml"@[j] != '.'),
            Format::Csv => assert(forall|j: int|
                0 <= j < "csv"@.len() ==> "csv"@[j] != '/' && "csv"@[j] != '.'),
        }
    }
    let full = f.spec_file_name(stem);
    assert(full =~= stem + dot_ext);
    // The full name ends inside the extension, so nothing is stripped.
    assert(full.len() > 0 && full.last() != '/' && full.last() != '.');
    assert(!spec_path_tail_char(full));
    assert(spec_strip_path_tail(full) == full);
    // Neither the dot nor the extension holds a separator, so the file-name
    // part is the stem's own file-name part followed by the dot and the
    // extension.
    assert(forall|j: int| 0 <= j < dot_ext.len() ==> dot_ext[j] != '/');
    lemma_suffix_concat(stem, dot_ext, '/');
    let name = Format::spec_path_file_name(full);
    let stem_name = spec_suffix_after_last(stem, '/');
    assert(name == stem_name + dot_ext);
    assert(name.len() >= 1 + 1 + 3);
    assert(name != ".."@);
    // The appended dot stands past the name's first character.
    assert(name[stem_name.len() as int] == '.');
    assert(1 <= stem_name.len() < name.len());
    // The extension holds no dot, so the suffix after the last dot is the
    // extension itself.
    lemma_suffix_concat(stem_name + "."@, ext, '.');
    assert(stem_name + dot_ext =~= (stem_name + "."@) + ext);
    assert((stem_name + "."@).last() == '.');
    assert(spec_suffix_after_last(stem_name + "."@, '.') =~= Seq::<char>::empty());
    assert(spec_suffix_after_last(name, '.') =~= ext);
}

/// Resolving the canonical extension of a format yields that format again:
/// the extension table round-trips.
pub proof fn lemma_extension_round_trip(f: Format)
    ensures
        Format::spec_format_of_extension(f.spec_extension()) == Some(f),
{
    reveal_strlit("json");
    reveal_strlit("jsonl");
    reveal_strlit("yaml");
    reveal_strlit("yml");
    reveal_strlit("xml");
    reveal_strlit("toml");
    reveal_strlit("csv");
    assert("json"@.len() == 4);
    assert("jsonl"@.len() == 5);
    assert("yaml"@.len() == 4);
    assert("yml"@.len() == 3);
    assert("xml"@.len() == 3);
    assert("toml"@.len() == 4);
    assert("csv"@.len() == 3);
    assert("yaml"@[0] == 'y' && "json"@[0] == 'j' && "toml"@[0] == 't');
    assert("xml"@[0] == 'x' && "yml"@[0] == 'y' && "csv"@[0] == 'c');
    match f {
        Format::Json => assert(Format::spec_format_of_extension("json"@) == Some(Format::Json)),
        Format::Jsonl => assert(Format::spec_format_of_extension("jsonl"@) == Some(Format::Jsonl)),
        Format::Yaml => assert(Format::spec_format_of_extension("yaml"@) == Some(Format::Yaml)),
        Format::Xml => assert(Format::spec_format_of_extension("xml"@) == Some(Format::Xml)),
        Format::Toml => assert(Format::spec_format_of_extension("toml"@) == Some(Format::Toml)),
        Format::Csv => assert(Format::spec_format_of_extension("csv"@) == Some(Format::Csv)),
    }
}

} // verus!
