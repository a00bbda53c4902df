//! File system paths as macOS and other Unix systems know them: bytes, with slashes between the
//! components.

use vstd::prelude::*;
use vstd::string::*;

verus! {

/// The byte between the components of a path.
pub const SEPARATOR: u8 = 47;

/// A path. Its view is its bytes, which need not be valid UTF-8.
#[derive(Debug, PartialEq, Eq)]
pub struct FsPath {
    pub bytes: Vec<u8>,
}

impl View for FsPath {
    type V = Seq<u8>;

    open spec fn view(&self) -> Seq<u8> {
        self.bytes@
    }
}

/// The bytes of a text.
pub open spec fn bytes_of(text: Seq<char>) -> Seq<u8> {
    vstd::utf8::encode_utf8(text)
}

/// Whether a path starts at the root of the file system.
pub open spec fn absolute(path: Seq<u8>) -> bool {
    path.len() > 0 && path[0] == SEPARATOR
}

/// A directory as it stands in front of what is inside it: with one separator at its end, unless
/// it is empty or ends in one already.
pub open spec fn opened(dir: Seq<u8>) -> Seq<u8> {
    if dir.len() == 0 || dir.last() == SEPARATOR {
        dir
    } else {
        dir.push(SEPARATOR)
    }
}

/// A path read from a directory: an absolute one stands for itself, any other is inside the
/// directory.
pub open spec fn join(dir: Seq<u8>, part: Seq<u8>) -> Seq<u8> {
    if absolute(part) {
        part
    } else {
        opened(dir) + part
    }
}

/// The path called `name` inside a directory.
pub open spec fn child(dir: Seq<u8>, name: &str) -> Seq<u8> {
    join(dir, bytes_of(name@))
}

/// Whether a path lies inside a directory.
pub open spec fn inside(path: Seq<u8>, dir: Seq<u8>) -> bool {
    opened(dir).is_prefix_of(path) && opened(dir).len() < path.len()
}

/// How `{:?}` shows the path that a text spells.
pub uninterp spec fn path_debug(path: Seq<char>) -> Seq<char>;

/// Shows the path that a text spells through the `Debug` of `std::path::Path`. Taken on trust:
/// the result depends on the text alone.
#[verifier::external_body]
pub(crate) fn debug_path(path: &str) -> (res: String)
    ensures
        res@ == path_debug(path@),
{
    format!("{:?}", std::path::Path::new(path))
}

/// How `{:?}` shows a path. One that is no text is shown as whoever handles it as a path of the
/// system says.
pub open spec fn shown_of(path: Seq<u8>, otherwise: Seq<char>) -> Seq<char> {
    if vstd::utf8::valid_utf8(path) {
        path_debug(vstd::utf8::decode_utf8(path))
    } else {
        otherwise
    }
}

fn same_bytes(a: &[u8], b: &[u8]) -> (res: bool)
    ensures
        res == (a@ == b@),
{
    if a.len() != b.len() {
        return false;
    }
    let mut i: usize = 0;
    while i < a.len()
        invariant
            i <= a@.len(),
            a@.len() == b@.len(),
            forall|j: int| 0 <= j < i ==> a@[j] == b@[j],
        decreases a@.len() - i,
    {
        if a[i] != b[i] {
            return false;
        }
        i = i + 1;
    }
    assert(a@ =~= b@);
    true
}

impl FsPath {
    /// The path that a text spells.
    pub fn from_text(text: &str) -> (res: FsPath)
        ensures
            res@ == bytes_of(text@),
    {
        FsPath { bytes: vstd::slice::slice_to_vec(text.as_bytes()) }
    }

    /// The text that a path spells, with replacement characters where it is not valid UTF-8.
    pub fn to_text(&self) -> (res: String)
        ensures
            res@ == crate::text::spelled(self@),
    {
        crate::text::text_from_bytes(self.bytes.as_slice())
    }

    /// The text that a path spells, if it is valid UTF-8.
    pub fn to_str(&self) -> (res: Option<String>)
        ensures
            res is Some <==> vstd::utf8::valid_utf8(self@),
            res matches Some(text) ==> text@ == vstd::utf8::decode_utf8(self@),
    {
        let text = self.to_text();
        let same = same_bytes(text.as_str().as_bytes(), self.bytes.as_slice());
        proof {
            vstd::utf8::encode_utf8_valid_utf8(text@);
            if vstd::utf8::valid_utf8(self@) {
                vstd::utf8::decode_utf8_encode_utf8(self@);
            }
        }
        if same {
            Some(text)
        } else {
            None
        }
    }

    /// Shows the path as `{:?}` does. One that is no text cannot be shown from here, so that is
    /// said by the caller.
    pub fn shown(&self, otherwise: &str) -> (res: String)
        ensures
            res@ == shown_of(self@, otherwise@),
    {
        match self.to_str() {
            Some(text) => debug_path(text.as_str()),
            None => otherwise.to_owned(),
        }
    }

    /// The same path once more.
    pub fn duplicate(&self) -> (res: FsPath)
        ensures
            res@ == self@,
    {
        FsPath { bytes: vstd::slice::slice_to_vec(self.bytes.as_slice()) }
    }

    /// The path that `part` names when it is read from here.
    pub fn join(&self, part: &str) -> (res: FsPath)
        ensures
            res@ == child(self@, part),
    {
        let tail = part.as_bytes();
        if tail.len() > 0 && tail[0] == SEPARATOR {
            return FsPath::from_text(part);
        }
        let mut res = self.duplicate();
        let len = res.bytes.len();
        if len > 0 && res.bytes[len - 1] != SEPARATOR {
            res.bytes.push(SEPARATOR);
        }
        res.bytes.extend_from_slice(tail);
        assert(res@ =~= opened(self@) + bytes_of(part@));
        res
    }
}

/// A text survives being made a path and read back.
pub proof fn law_text_survives_as_path(text: Seq<char>)
    ensures
        crate::text::spelled(bytes_of(text)) == text,
{
    vstd::utf8::encode_utf8_valid_utf8(text);
    vstd::utf8::encode_utf8_decode_utf8(text);
}

/// What is named by a relative, non-empty part lies inside the directory it is read from.
pub proof fn law_join_stays_inside(dir: Seq<u8>, part: Seq<u8>)
    requires
        part.len() > 0,
        !absolute(part),
    ensures
        inside(join(dir, part), dir),
{
    assert(join(dir, part).take(opened(dir).len() as int) =~= opened(dir));
}

proof fn lemma_relative_name(name: Seq<char>)
    requires
        name.len() > 0,
        name[0] != '/',
    ensures
        bytes_of(name).len() > 0,
        !absolute(bytes_of(name)),
{
    let c: u32 = name[0] as u32;
    vstd::utf8::char_is_scalar(name[0]);
    vstd::utf8::char_u32_cast(name[0], c);
    assert(vstd::utf8::has_width_1_encoding(c) && c != 47 ==> vstd::utf8::leading_byte_width_1(c)
        != 47) by (bit_vector);
    assert(vstd::utf8::leading_byte_width_2(c) != 47) by (bit_vector);
    assert(vstd::utf8::leading_byte_width_3(c) != 47) by (bit_vector);
    assert(vstd::utf8::leading_byte_width_4(c) != 47) by (bit_vector);
    assert(bytes_of(name)[0] == vstd::utf8::encode_scalar(c)[0]);
}

/// What a name stands for lies inside the directory it is read from, unless the name is empty or
/// begins with a slash.
pub proof fn law_child_stays_inside(dir: Seq<u8>, name: &str)
    requires
        name@.len() > 0,
        name@[0] != '/',
    ensures
        inside(child(dir, name), dir),
{
    lemma_relative_name(name@);
    law_join_stays_inside(dir, bytes_of(name@));
}

/// Different names give different paths inside one directory.
pub proof fn law_join_is_injective(dir: Seq<u8>, part: Seq<u8>, other: Seq<u8>)
    requires
        !absolute(part),
        !absolute(other),
        join(dir, part) == join(dir, other),
    ensures
        part == other,
{
    let n = opened(dir).len() as int;
    assert(join(dir, part).skip(n) =~= part);
    assert(join(dir, other).skip(n) =~= other);
}

/// Joining puts exactly one slash between a directory and what is inside it: none is added where
/// the directory is empty or ends in one, and an absolute part stands alone.
pub proof fn law_join_puts_one_slash(dir: Seq<u8>, part: Seq<u8>)
    ensures
        part.len() > 0 && part[0] == 47 ==> join(dir, part) == part,
        !(part.len() > 0 && part[0] == 47) ==> {
            &&& dir.len() == 0 ==> join(dir, part) == part
            &&& dir.len() > 0 && dir.last() == 47 ==> join(dir, part) == dir + part
            &&& dir.len() > 0 && dir.last() != 47 ==> join(dir, part) == dir + seq![47u8] + part
        },
{
    if dir.len() > 0 && dir.last() != 47 && !(part.len() > 0 && part[0] == 47) {
        assert(join(dir, part) =~= dir + seq![47u8] + part);
    }
}

/// A slash in front of a text is one byte in front of the text's bytes.
proof fn lemma_leading_slash(name: Seq<char>, slashed: Seq<char>)
    requires
        slashed == seq!['/'] + name,
    ensures
        vstd::utf8::encode_utf8(slashed) == seq![47u8] + vstd::utf8::encode_utf8(name),
{
    assert(slashed.drop_first() =~= name);
    let c: u32 = slashed[0] as u32;
    assert(c == 47);
    assert(vstd::utf8::leading_byte_width_1(47u32) == 47u8) by (bit_vector);
    assert(vstd::utf8::encode_scalar(c) =~= seq![47u8]);
}

/// A name is read from a directory by writing it behind the directory, with a slash between them
/// unless the directory is empty or ends in one.
pub proof fn law_child_is_written_behind(dir: Seq<u8>, name: &str, slashed: &str)
    requires
        name@.len() > 0,
        name@[0] != '/',
        slashed@ == seq!['/'] + name@,
    ensures
        dir.len() > 0 && dir.last() != 47 ==> child(dir, name) == dir + vstd::utf8::encode_utf8(
            slashed@,
        ),
        dir.len() == 0 || dir.last() == 47 ==> child(dir, name) == dir + vstd::utf8::encode_utf8(
            name@,
        ),
{
    lemma_relative_name(name@);
    lemma_leading_slash(name@, slashed@);
    let part = vstd::utf8::encode_utf8(name@);
    law_join_puts_one_slash(dir, part);
    assert(dir + seq![47u8] + part =~= dir + (seq![47u8] + part));
    assert(Seq::<u8>::empty() + part =~= part);
    if dir.len() == 0 {
        assert(dir =~= Seq::<u8>::empty());
    }
}

/// To lie inside a directory is to go on behind its bytes, and behind a slash.
pub proof fn law_inside_goes_on_behind(path: Seq<u8>, dir: Seq<u8>)
    ensures
        inside(path, dir) <==> {
            &&& path.len() > dir.len()
            &&& path.take(dir.len() as int) == dir
            &&& dir.len() > 0 && dir.last() != 47 ==> path[dir.len() as int] == 47 && path.len()
                > dir.len() + 1
        },
{
    let n = opened(dir).len() as int;
    if inside(path, dir) {
        assert(path.take(dir.len() as int) =~= dir) by {
            assert forall|i: int| 0 <= i < dir.len() implies path[i] == dir[i] by {
                assert(path.take(n)[i] == opened(dir)[i]);
            }
        }
        if dir.len() > 0 && dir.last() != 47 {
            assert(path.take(n)[dir.len() as int] == opened(dir)[dir.len() as int]);
        }
    } else if path.len() > dir.len() && path.take(dir.len() as int) == dir && (dir.len() > 0
        && dir.last() != 47 ==> path[dir.len() as int] == 47 && path.len() > dir.len() + 1) {
        assert forall|i: int| 0 <= i < dir.len() implies path[i] == dir[i] by {
            assert(path.take(dir.len() as int)[i] == dir[i]);
        }
        assert(path.take(n) =~= opened(dir));
    }
}

/// A path that is text is shown as that text's path is, whatever it is said to be shown as.
pub proof fn law_text_path_is_shown_as_itself(s: Seq<char>, path: Seq<u8>, otherwise: Seq<char>)
    ensures
        shown_of(vstd::utf8::encode_utf8(s), otherwise) == path_debug(s),
        !vstd::utf8::valid_utf8(path) ==> shown_of(path, otherwise) == otherwise,
        bytes_of(s) == vstd::utf8::encode_utf8(s),
{
    vstd::utf8::encode_utf8_valid_utf8(s);
    vstd::utf8::encode_utf8_decode_utf8(s);
}

/// Any name is read from a directory as its bytes are.
pub proof fn law_child_goes_by_bytes(dir: Seq<u8>, name: &str)
    ensures
        child(dir, name) == join(dir, vstd::utf8::encode_utf8(name@)),
        name@.len() == 0 && dir.len() > 0 && dir.last() != 47 ==> child(dir, name) == dir.push(47),
        name@.len() > 0 && name@[0] == '/' ==> child(dir, name) == vstd::utf8::encode_utf8(name@),
{
    if name@.len() == 0 {
        assert(opened(dir) + vstd::utf8::encode_utf8(name@) =~= opened(dir));
    } else if name@[0] == '/' {
        assert(name@ =~= seq!['/'] + name@.drop_first());
        lemma_leading_slash(name@.drop_first(), name@);
    }
}

} // verus!
