//! The session identifier that the registry hands out in a location header.
//!
//! The header holds the address of the new session. Separators at its end
//! are dropped, and what follows the last remaining separator is the
//! identifier. A header value is made of ASCII characters; a text that holds
//! any other character is no header value and names no session.

use vstd::prelude::*;
use vstd::string::is_ascii_spec_bytes;
use vstd::utf8::is_ascii_chars;

verus! {

/// The character that separates the segments of a path.
pub const SEPARATOR: char = '/';

/// The text without the run of `mark` at its end.
pub open spec fn without_trailing(text: Seq<char>, mark: char) -> Seq<char>
    decreases text.len(),
{
    if text.len() > 0 && text.last() == mark {
        without_trailing(text.drop_last(), mark)
    } else {
        text
    }
}

/// The position of the last `mark` in the text, or -1 where it holds none.
pub open spec fn last_position(text: Seq<char>, mark: char) -> int
    decreases text.len(),
{
    if text.len() == 0 {
        -1
    } else if text.last() == mark {
        text.len() - 1
    } else {
        last_position(text.drop_last(), mark)
    }
}

/// The session identifier that a location names: the last segment of the
/// location without its trailing separators. A location without a separator
/// before its last segment names none, and neither does a text that is not
/// ASCII.
pub open spec fn session_id_of(location: Seq<char>) -> Option<Seq<char>> {
    let path = without_trailing(location, SEPARATOR);
    let cut = last_position(path, SEPARATOR);
    if is_ascii_chars(location) && cut >= 0 {
        Some(path.subrange(cut + 1, path.len() as int))
    } else {
        None
    }
}

/// What `without_trailing` gives is the longest prefix that does not end in
/// `mark`.
pub proof fn lemma_without_trailing(text: Seq<char>, mark: char)
    ensures
        without_trailing(text, mark).len() <= text.len(),
        without_trailing(text, mark) == text.take(without_trailing(text, mark).len() as int),
        without_trailing(text, mark).len() > 0 ==> without_trailing(text, mark).last() != mark,
        forall|i: int| without_trailing(text, mark).len() <= i < text.len() ==> text[i] == mark,
    decreases text.len(),
{
    if text.len() > 0 && text.last() == mark {
        let front = text.drop_last();
        lemma_without_trailing(front, mark);
        let kept = without_trailing(front, mark);
        assert(kept =~= text.take(kept.len() as int));
        assert forall|i: int| kept.len() <= i < text.len() implies text[i] == mark by {
            if i < front.len() {
                assert(front[i] == text[i]);
            }
        }
    } else {
        assert(text =~= text.take(text.len() as int));
    }
}

/// What `last_position` gives is the place of a `mark` after which no other
/// `mark` stands, or -1 where the text holds none.
pub proof fn lemma_last_position(text: Seq<char>, mark: char)
    ensures
        -1 <= last_position(text, mark) < text.len(),
        last_position(text, mark) >= 0 ==> text[last_position(text, mark)] == mark,
        forall|i: int| last_position(text, mark) < i < text.len() ==> text[i] != mark,
    decreases text.len(),
{
    if text.len() > 0 && text.last() != mark {
        let front = text.drop_last();
        lemma_last_position(front, mark);
        assert forall|i: int| last_position(text, mark) < i < text.len() implies text[i]
            != mark by {
            if i < front.len() {
                assert(front[i] == text[i]);
            }
        }
    }
}

/// The place of a `mark` after which no other `mark` stands is what
/// `last_position` gives.
pub proof fn lemma_last_position_is(text: Seq<char>, mark: char, place: int)
    requires
        -1 <= place < text.len(),
        place >= 0 ==> text[place] == mark,
        forall|i: int| place < i < text.len() ==> text[i] != mark,
    ensures
        last_position(text, mark) == place,
{
    lemma_last_position(text, mark);
}

/// A prefix that leaves only `mark` behind and does not end in `mark` is what
/// `without_trailing` gives.
pub proof fn lemma_without_trailing_is(text: Seq<char>, mark: char, kept: int)
    requires
        0 <= kept <= text.len(),
        kept > 0 ==> text[kept - 1] != mark,
        forall|i: int| kept <= i < text.len() ==> text[i] == mark,
    ensures
        without_trailing(text, mark) == text.take(kept),
{
    lemma_without_trailing(text, mark);
    let found = without_trailing(text, mark).len() as int;
    if found < kept {
        assert(text[kept - 1] == mark);
    }
    if found > kept {
        assert(without_trailing(text, mark).last() == text[found - 1]);
    }
}

/// A run of separators.
pub open spec fn separators(count: nat) -> Seq<char> {
    Seq::new(count, |i: int| SEPARATOR)
}

/// A location that is made of any text, a separator, an identifier that is
/// not empty and holds no separator, and any number of separators names that
/// identifier.
pub proof fn lemma_address_names_its_last_segment(before: Seq<char>, id: Seq<char>, trailing: nat)
    requires
        is_ascii_chars(before),
        is_ascii_chars(id),
        id.len() > 0,
        !id.contains(SEPARATOR),
    ensures
        session_id_of(before + seq![SEPARATOR] + id + separators(trailing)) == Some(id),
{
    let location = before + seq![SEPARATOR] + id + separators(trailing);
    let kept = before.len() + 1 + id.len();
    let path = location.take(kept as int);
    assert(path =~= before + seq![SEPARATOR] + id);
    assert(location[kept - 1] == id[id.len() - 1]);
    assert forall|i: int| 0 <= i < id.len() implies id[i] != SEPARATOR by {
        if id[i] == SEPARATOR {
            assert(id.contains(SEPARATOR));
        }
    }
    lemma_without_trailing_is(location, SEPARATOR, kept as int);
    assert forall|i: int| before.len() < i < path.len() implies path[i] != SEPARATOR by {
        assert(path[i] == id[i - before.len() - 1]);
    }
    lemma_last_position_is(path, SEPARATOR, before.len() as int);
    assert(path.subrange(before.len() as int + 1, path.len() as int) =~= id);
    assert(is_ascii_chars(location)) by {
        assert forall|i: int| 0 <= i < location.len() implies '\0' <= #[trigger] location[i]
            <= '\u{7f}' by {
            if i < before.len() {
                assert(location[i] == before[i]);
            } else if i == before.len() {
            } else if i < kept {
                assert(location[i] == id[i - before.len() - 1]);
            } else {
            }
        }
    }
}

/// The identifier that a location names is not empty and holds no
/// separator, and the location is made of a text, a separator, the
/// identifier and a run of separators.
pub proof fn lemma_session_id_is_last_segment(location: Seq<char>)
    requires
        session_id_of(location) is Some,
    ensures
        ({
            let id = session_id_of(location)->0;
            &&& id.len() > 0
            &&& !id.contains(SEPARATOR)
            &&& exists|before: Seq<char>, trailing: nat| #[trigger]
                (before + seq![SEPARATOR] + id + separators(trailing)) == location
        }),
{
    let path = without_trailing(location, SEPARATOR);
    let cut = last_position(path, SEPARATOR);
    let id = path.subrange(cut + 1, path.len() as int);
    lemma_without_trailing(location, SEPARATOR);
    lemma_last_position(path, SEPARATOR);
    assert(path.last() != SEPARATOR);
    if id.contains(SEPARATOR) {
        let i = choose|i: int| 0 <= i < id.len() && id[i] == SEPARATOR;
        assert(path[cut + 1 + i] == SEPARATOR);
    }
    let before = path.take(cut);
    let trailing = (location.len() - path.len()) as nat;
    assert(before + seq![SEPARATOR] + id + separators(trailing) =~= location) by {
        assert forall|i: int| 0 <= i < location.len() implies (before + seq![SEPARATOR] + id
            + separators(trailing))[i] == location[i] by {
            if i < path.len() {
                assert(path[i] == location[i]);
            }
        }
    }
}

/// The byte that spells the separator.
const SLASH: u8 = 47;

/// The bytes spell the text, as far as separators go: there are as many
/// bytes as characters, and a byte is that of the separator just where the
/// character is the separator.
spec fn spelled(bytes: Seq<u8>, text: Seq<char>) -> bool {
    &&& bytes.len() == text.len()
    &&& forall|i: int| 0 <= i < bytes.len() ==> (bytes[i] == SLASH <==> text[i] == SEPARATOR)
}

/// Reads the session identifier out of a location.
///
/// A location `p/id` followed by any number of separators, with `id` not
/// empty and free of separators, names `id`. Every other text names no
/// session.
pub fn session_id(location: &str) -> (id: Option<String>)
    ensures
        id.deep_view() == session_id_of(location@),
{
    if !location.is_ascii() {
        return None;
    }
    let bytes = location.as_bytes();
    proof {
        is_ascii_spec_bytes(location);
    }
    assert(spelled(bytes@, location@));
    let mut end: usize = bytes.len();
    while end > 0 && bytes[end - 1] == SLASH
        invariant
            end <= bytes@.len(),
            spelled(bytes@, location@),
            forall|i: int| end <= i < location@.len() ==> location@[i] == SEPARATOR,
        decreases end,
    {
        end -= 1;
    }
    let ghost path = location@.take(end as int);
    proof {
        lemma_without_trailing_is(location@, SEPARATOR, end as int);
    }
    let mut start: usize = end;
    while start > 0 && bytes[start - 1] != SLASH
        invariant
            start <= end <= bytes@.len(),
            spelled(bytes@, location@),
            path == location@.take(end as int),
            forall|i: int| start <= i < end ==> path[i] != SEPARATOR,
        decreases start,
    {
        start -= 1;
    }
    proof {
        lemma_last_position_is(path, SEPARATOR, start - 1);
    }
    if start == 0 {
        None
    } else {
        let segment = location.substring_ascii(start, end);
        assert(segment@ =~= path.subrange(start as int, path.len() as int));
        Some(String::from_str(segment))
    }
}

} // verus!
