//! The application's saved preferences.

use crate::paths;
use crate::paths::FsPath;
use crate::text::same_text;
use vstd::prelude::*;
use vstd::string::*;

verus! {

/// What the application remembers between runs: the folder that the user chose for projects, if
/// they chose one.
#[derive(Debug, PartialEq, Eq)]
pub struct Preferences {
    pub projects_dir: Option<FsPath>,
}

impl View for Preferences {
    type V = Option<Seq<u8>>;

    open spec fn view(&self) -> Option<Seq<u8>> {
        match self.projects_dir {
            Some(dir) => Some(dir@),
            None => None,
        }
    }
}

impl Default for Preferences {
    fn default() -> (res: Preferences)
        ensures
            res@ == None::<Seq<u8>>,
    {
        Preferences { projects_dir: None }
    }
}

/// A hexadecimal digit, in lower case.
pub open spec fn hex_digit(d: int) -> char {
    if d < 10 {
        ('0' as int + d) as char
    } else {
        ('a' as int + (d - 10)) as char
    }
}

/// A character as it stands between the quotes of a JSON string.
pub open spec fn json_char(c: char) -> Seq<char> {
    if c == '"' {
        seq!['\\', '"']
    } else if c == '\\' {
        seq!['\\', '\\']
    } else if c as int == 8 {
        seq!['\\', 'b']
    } else if c as int == 9 {
        seq!['\\', 't']
    } else if c as int == 10 {
        seq!['\\', 'n']
    } else if c as int == 12 {
        seq!['\\', 'f']
    } else if c as int == 13 {
        seq!['\\', 'r']
    } else if (c as int) < 32 {
        seq!['\\', 'u', '0', '0', hex_digit(c as int / 16), hex_digit(c as int % 16)]
    } else {
        seq![c]
    }
}

/// A text as it stands between the quotes of a JSON string.
pub open spec fn json_chars(text: Seq<char>) -> Seq<char>
    decreases text.len(),
{
    if text.len() == 0 {
        Seq::empty()
    } else {
        json_char(text[0]) + json_chars(text.drop_first())
    }
}

/// A text as a JSON string.
pub open spec fn json_string(text: Seq<char>) -> Seq<char> {
    seq!['"'] + json_chars(text) + seq!['"']
}

/// An optional text as JSON.
pub open spec fn json_optional(text: Option<Seq<char>>) -> Seq<char> {
    match text {
        Some(t) => json_string(t),
        None => "null"@,
    }
}

/// An object with one field as JSON, spread over three lines.
pub open spec fn json_object(key: Seq<char>, value: Option<Seq<char>>) -> Seq<char> {
    "{\n  "@ + json_string(key) + ": "@ + json_optional(value) + "\n}"@
}

/// Writes an object with one field through `serde_json::to_string_pretty`. Taken on trust: an
/// object whose key is a string and whose value is a string or nothing is always written, with
/// the layout and the escapes that [`json_object`] spells out.
#[verifier::external_body]
fn pretty_object(key: &str, value: Option<&str>) -> (res: String)
    ensures
        res@ == json_object(
            key@,
            match value {
                Some(v) => Some(v@),
                None => None,
            },
        ),
{
    let object = std::collections::BTreeMap::from([(key, value)]);
    serde_json::to_string_pretty(&object).expect("strings always serialize")
}

/// Whether preferences can be written: a folder whose path is not valid UTF-8 has no place in a
/// text.
pub open spec fn saveable(prefs: Option<Seq<u8>>) -> bool {
    prefs matches Some(dir) ==> vstd::utf8::valid_utf8(dir)
}

/// The value that stands in the text for preferences.
pub open spec fn written_value(prefs: Option<Seq<u8>>) -> Option<Seq<char>> {
    match prefs {
        Some(dir) => Some(vstd::utf8::decode_utf8(dir)),
        None => None,
    }
}

/// The text of the preferences file.
pub open spec fn preferences_text(prefs: Option<Seq<u8>>) -> Seq<char>
    recommends
        saveable(prefs),
{
    json_object("projects_dir"@, written_value(prefs))
}

/// The error for preferences that cannot be written.
pub open spec fn unsaveable_error() -> Seq<char> {
    "path contains invalid UTF-8 characters"@
}

/// Writes the text of the preferences file. It fails exactly where the folder's path is not valid
/// UTF-8.
pub fn preferences_json(prefs: &Preferences) -> (res: Result<String, String>)
    ensures
        match res {
            Ok(text) => saveable(prefs@) && text@ == preferences_text(prefs@),
            Err(reason) => !saveable(prefs@) && reason@ == unsaveable_error(),
        },
{
    match &prefs.projects_dir {
        Some(dir) => match dir.to_str() {
            Some(text) => Ok(pretty_object("projects_dir", Some(text.as_str()))),
            None => Err("path contains invalid UTF-8 characters".to_owned()),
        },
        None => Ok(pretty_object("projects_dir", None)),
    }
}

/// The view of an optional list of fields.
pub open spec fn optional_fields(fields: Option<Vec<(String, Option<String>)>>) -> Option<
    Seq<(Seq<char>, Option<Seq<char>>)>,
> {
    match fields {
        Some(list) => Some(
            list@.map_values(
                |field: (String, Option<String>)|
                    (
                        field.0@,
                        match field.1 {
                            Some(value) => Some(value@),
                            None => None,
                        },
                    ),
            ),
        ),
        None => None,
    }
}

/// Reads an object whose values are strings or `null` through `serde_json::from_str`. Taken on
/// trust: an object with one field that is laid out and escaped as [`json_object`] spells out
/// reads as that field. What any other text reads as is left open.
#[verifier::external_body]
fn parse_object(text: &str) -> (res: Option<Vec<(String, Option<String>)>>)
    ensures
        forall|key: Seq<char>, value: Option<Seq<char>>|
            text@ == #[trigger] json_object(key, value) ==> optional_fields(res) == Some(
                seq![(key, value)],
            ),
{
    let object: Result<std::collections::BTreeMap<String, Option<String>>, serde_json::Error> =
        serde_json::from_str(text);
    object.ok().map(|fields| fields.into_iter().collect())
}

/// Whether a text is one that the application writes for these preferences.
pub open spec fn is_text_of(text: Seq<char>, prefs: Option<Seq<u8>>) -> bool {
    saveable(prefs) && preferences_text(prefs) == text
}

/// Reads a text that the application wrote itself: the preferences that it was written for, or
/// nothing where it is no such text.
pub fn written_preferences(text: &str) -> (res: Option<Preferences>)
    ensures
        match res {
            Some(prefs) => is_text_of(text@, prefs@),
            None => forall|prefs: Option<Seq<u8>>| !is_text_of(text@, prefs),
        },
{
    let parsed = parse_object(text);
    let ghost shown = optional_fields(parsed);
    assert forall|p: Option<Seq<u8>>| is_text_of(text@, p) implies shown == Some(
        seq![("projects_dir"@, written_value(p))],
    ) by {
        assert(text@ == json_object("projects_dir"@, written_value(p)));
    }
    if let Some(fields) = parsed {
        assert(shown->0.len() == fields@.len());
        if fields.len() == 1 {
            let (_, value) = &fields[0];
            let prefs = Preferences {
                projects_dir: match value {
                    Some(dir) => Some(FsPath::from_text(dir.as_str())),
                    None => None,
                },
            };
            proof {
                if let Some(dir) = value {
                    vstd::utf8::encode_utf8_valid_utf8(dir@);
                    vstd::utf8::encode_utf8_decode_utf8(dir@);
                }
                assert(written_value(prefs@) == shown->0[0].1);
                assert forall|p: Option<Seq<u8>>| is_text_of(text@, p) implies p == prefs@ by {
                    assert(written_value(p) == shown->0[0].1);
                    if let Some(dir) = p {
                        vstd::utf8::decode_utf8_encode_utf8(dir);
                    }
                }
            }
            if let Ok(again) = preferences_json(&prefs) {
                if same_text(again.as_str(), text) {
                    return Some(prefs);
                }
            }
        }
    }
    None
}

/// A preferences file: its text, and what that says when it is read leniently, as one that may
/// hold more or be laid out otherwise than the application writes it. Nothing where it cannot be
/// understood.
#[derive(Debug, PartialEq, Eq)]
pub struct PreferencesFile {
    pub text: String,
    pub parsed: Option<Preferences>,
}

/// What a [`PreferencesFile`] says.
pub struct FileView {
    pub text: Seq<char>,
    pub parsed: Option<Option<Seq<u8>>>,
}

impl View for PreferencesFile {
    type V = FileView;

    open spec fn view(&self) -> FileView {
        FileView {
            text: self.text@,
            parsed: match self.parsed {
                Some(prefs) => Some(prefs@),
                None => None,
            },
        }
    }
}

/// The view of an optional file.
pub open spec fn optional_file(file: Option<PreferencesFile>) -> Option<FileView> {
    match file {
        Some(f) => Some(f@),
        None => None,
    }
}

/// The preferences to go by, given the preferences file. One that the application wrote says what
/// was written; any other says what it was read as; one that is missing or cannot be understood
/// says nothing.
pub open spec fn loaded(file: Option<FileView>) -> Option<Seq<u8>> {
    match file {
        Some(f) => if exists|prefs: Option<Seq<u8>>| is_text_of(f.text, prefs) {
            choose|prefs: Option<Seq<u8>>| is_text_of(f.text, prefs)
        } else {
            match f.parsed {
                Some(prefs) => prefs,
                None => None,
            }
        },
        None => None,
    }
}

/// Decides which preferences to go by, given the preferences file, if it could be read.
pub fn load_preferences(file: Option<PreferencesFile>) -> (res: Preferences)
    ensures
        res@ == loaded(optional_file(file)),
{
    match file {
        Some(f) => match written_preferences(f.text.as_str()) {
            Some(prefs) => {
                proof {
                    let chosen = choose|p: Option<Seq<u8>>| is_text_of(f.text@, p);
                    law_preferences_text_is_injective(prefs@, chosen);
                }
                prefs
            },
            None => match f.parsed {
                Some(prefs) => prefs,
                None => Preferences::default(),
            },
        },
        None => Preferences::default(),
    }
}

/// No character's escape begins another's.
proof fn lemma_json_char_is_prefix_free(c: char, d: char, rest: Seq<char>, other_rest: Seq<char>)
    requires
        json_char(c) + rest == json_char(d) + other_rest,
    ensures
        c == d,
        rest == other_rest,
{
    let whole = json_char(c) + rest;
    assert(whole[0] == json_char(c)[0] && whole[0] == json_char(d)[0]);
    if json_char(c).len() > 1 && json_char(d).len() > 1 {
        assert(whole[1] == json_char(c)[1] && whole[1] == json_char(d)[1]);
        if json_char(c).len() == 6 && json_char(d).len() == 6 {
            assert(whole[4] == json_char(c)[4] && whole[4] == json_char(d)[4]);
            assert(whole[5] == json_char(c)[5] && whole[5] == json_char(d)[5]);
        }
    }
    assert(c == d);
    let n = json_char(c).len() as int;
    assert(whole.skip(n) =~= rest);
    assert(whole.skip(n) =~= other_rest);
}

proof fn lemma_json_chars_are_injective(text: Seq<char>, other: Seq<char>)
    requires
        json_chars(text) == json_chars(other),
    ensures
        text == other,
    decreases text.len(),
{
    if text.len() == 0 || other.len() == 0 {
        if text.len() > 0 {
            assert(json_chars(text)[0] == json_char(text[0])[0]);
        }
        if other.len() > 0 {
            assert(json_chars(other)[0] == json_char(other[0])[0]);
        }
        assert(text =~= other);
    } else {
        lemma_json_char_is_prefix_free(
            text[0],
            other[0],
            json_chars(text.drop_first()),
            json_chars(other.drop_first()),
        );
        lemma_json_chars_are_injective(text.drop_first(), other.drop_first());
        assert(text =~= seq![text[0]] + text.drop_first());
        assert(other =~= seq![other[0]] + other.drop_first());
    }
}

/// An object with one field tells its value.
proof fn lemma_json_object_is_injective(
    key: Seq<char>,
    value: Option<Seq<char>>,
    other: Option<Seq<char>>,
)
    requires
        json_object(key, value) == json_object(key, other),
    ensures
        value == other,
{
    let head = "{\n  "@ + json_string(key) + ": "@;
    let n = head.len() as int;
    let tail = "\n}"@;
    let whole = json_object(key, value);
    let m = whole.len() - tail.len();
    assert(whole.subrange(n, m) =~= json_optional(value));
    assert(whole.subrange(n, m) =~= json_optional(other));
    reveal_strlit("null");
    if value is Some && other is Some {
        let text = json_string(value->0);
        let other_text = json_string(other->0);
        assert(text.subrange(1, text.len() - 1) =~= json_chars(value->0));
        assert(other_text.subrange(1, other_text.len() - 1) =~= json_chars(other->0));
        lemma_json_chars_are_injective(value->0, other->0);
    } else if value is Some {
        assert(json_optional(value)[0] == '"');
    } else if other is Some {
        assert(json_optional(other)[0] == '"');
    }
}

/// The preferences file tells the preferences: different ones are never written alike.
pub proof fn law_preferences_text_is_injective(
    prefs: Option<Seq<u8>>,
    other: Option<Seq<u8>>,
)
    requires
        saveable(prefs),
        saveable(other),
        preferences_text(prefs) == preferences_text(other),
    ensures
        prefs == other,
{
    lemma_json_object_is_injective("projects_dir"@, written_value(prefs), written_value(other));
    if prefs is Some {
        vstd::utf8::decode_utf8_encode_utf8(prefs->0);
        vstd::utf8::decode_utf8_encode_utf8(other->0);
    }
}

/// What was saved is read back: a file that holds what was written for some preferences is gone
/// by as those preferences, whatever else was made of it.
pub proof fn law_saved_preferences_are_loaded(
    prefs: Option<Seq<u8>>,
    parsed: Option<Option<Seq<u8>>>,
)
    requires
        saveable(prefs),
    ensures
        loaded(Some(FileView { text: preferences_text(prefs), parsed })) == prefs,
{
    let text = preferences_text(prefs);
    assert(is_text_of(text, prefs));
    let chosen = choose|p: Option<Seq<u8>>| is_text_of(text, p);
    law_preferences_text_is_injective(prefs, chosen);
}

/// A folder that was chosen as text can always be saved.
pub proof fn law_chosen_text_is_saveable(folder: Seq<char>)
    ensures
        saveable(Some(paths::bytes_of(folder))),
{
    vstd::utf8::encode_utf8_valid_utf8(folder);
}

/// A text is escaped character by character.
pub proof fn law_escaping_goes_by_characters(a: Seq<char>, b: Seq<char>)
    ensures
        json_chars(a + b) == json_chars(a) + json_chars(b),
    decreases a.len(),
{
    if a.len() == 0 {
        assert(a + b =~= b);
        assert(json_chars(a) + json_chars(b) =~= json_chars(b));
    } else {
        law_escaping_goes_by_characters(a.drop_first(), b);
        assert((a + b).drop_first() =~= a.drop_first() + b);
        assert(json_chars(a + b) =~= json_char(a[0]) + json_chars(a.drop_first()) + json_chars(b));
    }
}

/// Only quotes, backslashes and control characters are escaped: the common control characters by a
/// letter, the others by their number. Anything else is written as it stands.
pub proof fn law_only_special_characters_are_escaped(c: char)
    ensures
        c as int >= 32 && c != '"' && c != '\\' ==> json_chars(seq![c]) == seq![c],
        c == '"' || c == '\\' ==> json_chars(seq![c]) == seq!['\\', c],
        c as int == 8 ==> json_chars(seq![c]) == "\\b"@,
        c as int == 9 ==> json_chars(seq![c]) == "\\t"@,
        c as int == 10 ==> json_chars(seq![c]) == "\\n"@,
        c as int == 12 ==> json_chars(seq![c]) == "\\f"@,
        c as int == 13 ==> json_chars(seq![c]) == "\\r"@,
        (c as int) < 8 || c as int == 11 || 14 <= c as int <= 31 ==> json_chars(seq![c])
            == "\\u00"@ + seq![
            "01"@[c as int / 16],
            "0123456789abcdef"@[c as int % 16],
        ],
{
    reveal_strlit("\\b");
    reveal_strlit("\\t");
    reveal_strlit("\\n");
    reveal_strlit("\\f");
    reveal_strlit("\\r");
    reveal_strlit("\\u00");
    reveal_strlit("01");
    reveal_strlit("0123456789abcdef");
    assert(seq![c].drop_first() =~= Seq::<char>::empty());
    reveal_with_fuel(json_chars, 2);
    assert(json_chars(seq![c]) =~= json_char(c));
    if c as int == 8 {
        assert(json_chars(seq![c]) =~= "\\b"@);
    } else if c as int == 9 {
        assert(json_chars(seq![c]) =~= "\\t"@);
    } else if c as int == 10 {
        assert(json_chars(seq![c]) =~= "\\n"@);
    } else if c as int == 12 {
        assert(json_chars(seq![c]) =~= "\\f"@);
    } else if c as int == 13 {
        assert(json_chars(seq![c]) =~= "\\r"@);
    } else if (c as int) < 32 {
        assert(json_chars(seq![c]) =~= "\\u00"@ + seq![
            "01"@[c as int / 16],
            "0123456789abcdef"@[c as int % 16],
        ]);
    }
}

/// The file is an object with the one field `projects_dir`, spread over three lines: the chosen
/// folder, escaped and in quotes, or `null`.
pub proof fn law_preferences_are_one_field(folder: Seq<char>)
    ensures
        preferences_text(None) == "{\n  \"projects_dir\": null\n}"@,
        preferences_text(Some(vstd::utf8::encode_utf8(folder)))
            == "{\n  \"projects_dir\": \""@ + json_chars(folder) + "\"\n}"@,
{
    vstd::utf8::encode_utf8_decode_utf8(folder);
    reveal_strlit("{\n  \"projects_dir\": null\n}");
    reveal_strlit("{\n  \"projects_dir\": \"");
    reveal_strlit("\"\n}");
    reveal_strlit("{\n  ");
    reveal_strlit("projects_dir");
    reveal_strlit(": ");
    reveal_strlit("null");
    reveal_strlit("\n}");
    reveal_with_fuel(json_chars, 13);
    let key = "projects_dir"@;
    assert(json_chars(key) =~= key) by {
        lemma_plain_text_is_not_escaped(key);
    }
    assert(preferences_text(None) =~= "{\n  \"projects_dir\": null\n}"@);
    assert(preferences_text(Some(vstd::utf8::encode_utf8(folder)))
        =~= "{\n  \"projects_dir\": \""@ + json_chars(folder) + "\"\n}"@);
}

proof fn lemma_plain_text_is_not_escaped(s: Seq<char>)
    requires
        forall|i: int| 0 <= i < s.len() ==> (#[trigger] s[i]) as int >= 32 && s[i] != '"' && s[i] != '\\',
    ensures
        json_chars(s) == s,
    decreases s.len(),
{
    if s.len() > 0 {
        assert forall|i: int| 0 <= i < s.drop_first().len() implies (#[trigger] s.drop_first()[i])
            as int >= 32 && s.drop_first()[i] != '"' && s.drop_first()[i] != '\\' by {
            assert(s.drop_first()[i] == s[i + 1]);
        }
        lemma_plain_text_is_not_escaped(s.drop_first());
    }
    assert(json_chars(s) =~= s);
}

/// Preferences can be written exactly where the folder, if there is one, is text.
pub proof fn law_text_is_what_can_be_written(dir: Seq<u8>)
    ensures
        saveable(None),
        saveable(Some(dir)) <==> vstd::utf8::valid_utf8(dir),
        unsaveable_error() == "path contains invalid UTF-8 characters"@,
{
}

/// A file that the application did not write is gone by as it was read, and counts as saying
/// nothing where it could not be understood or is not there.
pub proof fn law_other_files_are_gone_by_as_read(s: Seq<char>, parsed: Option<Option<Seq<u8>>>)
    requires
        s != preferences_text(None),
        forall|folder: Seq<char>|
            s != #[trigger] preferences_text(Some(vstd::utf8::encode_utf8(folder))),
    ensures
        loaded(Some(FileView { text: s, parsed })) == (match parsed {
            Some(prefs) => prefs,
            None => None,
        }),
        loaded(None) is None,
{
    assert forall|prefs: Option<Seq<u8>>| !is_text_of(s, prefs) by {
        if let Some(dir) = prefs {
            if vstd::utf8::valid_utf8(dir) {
                vstd::utf8::decode_utf8_encode_utf8(dir);
                assert(s != preferences_text(
                    Some(vstd::utf8::encode_utf8(vstd::utf8::decode_utf8(dir))),
                ));
            }
        }
    }
}

} // verus!
