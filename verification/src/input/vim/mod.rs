//! Vi-modal editing of the compose buffer.

pub mod dismiss;
pub mod dispatch;
pub mod edit;
pub mod keyconv;
pub mod machine;
pub mod motion;
pub mod textutil;

use vstd::prelude::*;
use vstd::string::*;
use crate::strutil;

verus! {

/// Actions specific to the compose overlay.
#[derive(Clone, Copy, Debug, PartialEq, Eq, Structural)]
pub enum KaijutsuAction {
    /// Submit the compose buffer (Enter in Normal mode).
    Submit,
    /// Dismiss the compose overlay and return to the conversation.
    DismissCompose,
}

/// Vim cursor shape: drives the cursor's width and color.
#[derive(Clone, Copy, Debug, PartialEq, Eq, Structural)]
pub enum CursorKind {
    /// Insert mode (or no vim): thin beam cursor.
    Beam,
    /// Normal mode: block cursor that overlays the glyph at the cursor.
    Block,
    /// Visual mode: the cursor is hidden; the selection shows instead.
    Hidden,
}

impl Default for CursorKind {
    fn default() -> (kind: Self)
        ensures
            kind == CursorKind::Beam,
    {
        CursorKind::Beam
    }
}

/// A text without the dashes, two by two, that it begins with.
pub open spec fn without_dashes(s: Seq<char>) -> Seq<char>
    decreases s.len(),
{
    if s.len() >= 2 && s[0] == '-' && s[1] == '-' {
        without_dashes(s.skip(2))
    } else {
        s
    }
}

/// The cursor shape of a mode banner. Normal mode has no banner; an unknown mode counts as
/// Normal.
pub open spec fn cursor_kind(mode: Option<Seq<char>>) -> CursorKind {
    match mode {
        None => CursorKind::Block,
        Some(s) => {
            let name = strutil::trimmed(without_dashes(strutil::trimmed(s)));
            if strutil::begins_with(name, "INSERT"@) || strutil::begins_with(name, "REPLACE"@) {
                CursorKind::Beam
            } else if strutil::begins_with(name, "VISUAL"@) || strutil::begins_with(
                name,
                "SELECT"@,
            ) {
                CursorKind::Hidden
            } else {
                CursorKind::Block
            }
        },
    }
}

fn strip_dashes(s: &str) -> (out: String)
    ensures
        out@ == without_dashes(s@),
{
    let chars = strutil::chars_of(s);
    let mut from: usize = 0;
    assert(chars@.skip(0) =~= chars@);
    while chars.len() - from >= 2 && chars[from] == '-' && chars[from + 1] == '-'
        invariant
            from <= chars.len(),
            without_dashes(chars@) == without_dashes(chars@.skip(from as int)),
        decreases chars.len() - from,
    {
        assert(chars@.skip(from as int).skip(2) =~= chars@.skip(from + 2));
        from = from + 2;
    }
    assert(chars@.skip(from as int) =~= chars@.subrange(from as int, chars@.len() as int));
    strutil::string_of(&chars, from, chars.len())
}

/// Classify a mode banner (such as `-- INSERT --`) into a cursor shape.
pub fn mode_kind(mode_str: Option<&str>) -> (kind: CursorKind)
    ensures
        kind == cursor_kind(match mode_str {
            Some(s) => Some(s@),
            None => None,
        }),
{
    match mode_str {
        None => CursorKind::Block,
        Some(s) => {
            let banner = strutil::trim(s);
            let bare = strip_dashes(banner.as_str());
            let name = strutil::trim(bare.as_str());
            if strutil::starts_with(name.as_str(), "INSERT") || strutil::starts_with(
                name.as_str(),
                "REPLACE",
            ) {
                CursorKind::Beam
            } else if strutil::starts_with(name.as_str(), "VISUAL") || strutil::starts_with(
                name.as_str(),
                "SELECT",
            ) {
                CursorKind::Hidden
            } else {
                CursorKind::Block
            }
        },
    }
}

/// The name of the mode decides on the cursor: a beam while text goes in, none while text is
/// selected, and a block otherwise, as without a banner. Two dashes and a blank before the name
/// make no difference.
pub proof fn law_the_mode_decides_on_the_cursor(name: Seq<char>)
    requires
        name.len() > 0,
        name[0] != '-',
        !strutil::white_space(name[0]),
        !strutil::white_space(name.last()),
    ensures
        cursor_kind(None) == CursorKind::Block,
        cursor_kind(Some(seq!['-', '-', ' '] + name)) == cursor_kind(Some(name)),
        ({
            let six = name.take(6);
            let seven = name.take(7);
            let kind = cursor_kind(Some(name));
            &&& name.len() >= 6 && six == seq!['I', 'N', 'S', 'E', 'R', 'T'] ==> kind
                == CursorKind::Beam
            &&& name.len() >= 7 && seven == seq!['R', 'E', 'P', 'L', 'A', 'C', 'E'] ==> kind
                == CursorKind::Beam
            &&& name.len() >= 6 && six == seq!['V', 'I', 'S', 'U', 'A', 'L'] ==> kind
                == CursorKind::Hidden
            &&& name.len() >= 6 && six == seq!['S', 'E', 'L', 'E', 'C', 'T'] ==> kind
                == CursorKind::Hidden
            &&& name[0] != 'I' && name[0] != 'R' && name[0] != 'V' && name[0] != 'S' ==> kind
                == CursorKind::Block
        }),
{
    reveal_strlit("INSERT");
    reveal_strlit("REPLACE");
    reveal_strlit("VISUAL");
    reveal_strlit("SELECT");
    assert("INSERT"@ =~= seq!['I', 'N', 'S', 'E', 'R', 'T']);
    assert("REPLACE"@ =~= seq!['R', 'E', 'P', 'L', 'A', 'C', 'E']);
    assert("VISUAL"@ =~= seq!['V', 'I', 'S', 'U', 'A', 'L']);
    assert("SELECT"@ =~= seq!['S', 'E', 'L', 'E', 'C', 'T']);
    if name.len() >= 6 {
        assert(name.take(6)[0] == name[0]);
    }
    if name.len() >= 7 {
        assert(name.take(7)[0] == name[0]);
    }
    assert(strutil::trimmed(name) == name);
    let whole = seq!['-', '-', ' '] + name;
    assert(whole.last() == name.last());
    assert(strutil::trimmed(whole) == whole);
    let bare = whole.skip(2);
    assert(bare =~= seq![' '] + name);
    assert(without_dashes(bare) == bare);
    assert(without_dashes(whole) == bare);
    assert(bare.drop_first() =~= name);
    assert(strutil::trimmed_start(bare) == strutil::trimmed_start(name));
    assert(strutil::trimmed(bare) == name);
}

} // verus!
