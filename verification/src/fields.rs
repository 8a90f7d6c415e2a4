//! What is typed into the editor's fields, and what becomes of it.

use vstd::prelude::*;
use vstd::string::*;

use crate::constants::VIEW_EDIT_SNAP_MIN_BITS;
use crate::scalar::Scalar;

verus! {

/// Whether a character is white space: the code points with Unicode's
/// `White_Space` property.
pub open spec fn whitespace(c: char) -> bool {
    let code = c as u32;
    ||| 0x9 <= code <= 0xd
    ||| code == 0x20
    ||| code == 0x85
    ||| code == 0xa0
    ||| code == 0x1680
    ||| 0x2000 <= code <= 0x200a
    ||| code == 0x2028
    ||| code == 0x2029
    ||| code == 0x202f
    ||| code == 0x205f
    ||| code == 0x3000
}

/// `char::is_whitespace`, which is true of exactly the characters with Unicode's
/// `White_Space` property, and is taken to answer for the code points that have
/// it.
pub assume_specification[ char::is_whitespace ](c: char) -> (answer: bool)
    ensures
        answer == whitespace(c),
;

/// The minus sign typographers write.
pub const MINUS_SIGN: char = '\u{2212}';

/// What is left of one typed character, `blank` being whether it is white space.
pub open spec fn kept_of(c: char, blank: bool) -> Seq<char> {
    if blank {
        seq![]
    } else if c == MINUS_SIGN {
        seq!['-']
    } else {
        seq![c]
    }
}

/// What is left of a typed character: nothing of white space, a hyphen of the
/// typographic minus, and anything else as it is.
pub fn kept_char(c: char, blank: bool) -> (kept: Option<char>)
    ensures
        match kept {
            Some(kept) => kept_of(c, blank) == seq![kept],
            None => kept_of(c, blank) == Seq::<char>::empty(),
        },
{
    if blank {
        None
    } else if c == MINUS_SIGN {
        Some('-')
    } else {
        Some(c)
    }
}

/// A typed text without its white space and with hyphens for its minus signs.
pub open spec fn cleaned_of(text: Seq<char>) -> Seq<char>
    decreases text.len(),
{
    if text.len() == 0 {
        seq![]
    } else {
        cleaned_of(text.drop_last()) + kept_of(text.last(), whitespace(text.last()))
    }
}

/// A typed text without its white space and with hyphens for its minus signs.
pub fn cleaned(text: &str) -> (clean: String)
    ensures
        clean@ == cleaned_of(text@),
{
    let mut clean = "".to_owned();
    proof {
        reveal_strlit("");
        reveal_strlit("-");
        assert(clean@ =~= cleaned_of(text@.take(0)));
    }
    let length: usize = text.unicode_len();
    let mut k: usize = 0;
    while k < length
        invariant
            k <= length,
            length == text@.len(),
            clean@ == cleaned_of(text@.take(k as int)),
            "-"@ == seq!['-'],
        decreases length - k,
    {
        let c = text.get_char(k);
        proof {
            assert(text@.take(k + 1).drop_last() =~= text@.take(k as int));
            assert(text@.take(k + 1).last() == c);
        }
        match kept_char(c, c.is_whitespace()) {
            None => {
                assert(clean@ =~= cleaned_of(text@.take(k + 1)));
            },
            Some(kept) => {
                if kept == c {
                    clean.append(text.substring_char(k, k + 1));
                    assert(text@.subrange(k as int, k + 1) =~= seq![c]);
                } else {
                    clean.append("-");
                }
            },
        }
        k = k + 1;
    }
    assert(text@.take(k as int) =~= text@);
    clean
}

/// A parsed number that a configuration can hold.
pub fn finite_only(value: Option<Scalar>) -> (number: Option<Scalar>)
    ensures
        number == (match value {
            Some(value) => if value.finite() {
                Some(value)
            } else {
                None
            },
            None => None,
        }),
{
    match value {
        Some(value) => if value.is_finite() {
            Some(value)
        } else {
            None
        },
        None => None,
    }
}

/// What a field makes of a text, given what its cleaned text parses to.
pub open spec fn number_in(parsed: Option<Scalar>) -> Option<Scalar> {
    match parsed {
        Some(value) => if value.finite() {
            Some(value)
        } else {
            None
        },
        None => None,
    }
}

/// Read a number that was typed, and refuse the ones that are not numbers.
///
/// "nan" and "inf" parse as numbers, and a configuration holding one is one that
/// is refused when it is read back - so the field refuses it at the keystroke
/// instead, keeping what was there. White space anywhere is ignored, and the
/// typographic minus is accepted as a hyphen. `parse` reads the text that is
/// left.
pub fn finite_number<F: FnOnce(&str) -> Option<Scalar>>(text: &str, parse: F) -> (number: Option<
    Scalar,
>)
    requires
        forall|clean: &str| #[trigger] parse.requires((clean,)),
    ensures
        exists|clean: &str, parsed: Option<Scalar>|
            clean@ == cleaned_of(text@) && #[trigger] parse.ensures((clean,), parsed) && number
                == number_in(parsed),
{
    let clean = cleaned(text);
    let parsed = parse(clean.as_str());
    finite_only(parsed)
}

/// White space typed anywhere in a text changes nothing about what is read of it.
pub proof fn law_white_space_is_ignored_wherever_it_is_typed(
    before: Seq<char>,
    blank: char,
    after: Seq<char>,
)
    requires
        whitespace(blank),
    ensures
        cleaned_of(before + seq![blank] + after) == cleaned_of(before + after),
    decreases after.len(),
{
    let typed = before + seq![blank] + after;
    if after.len() == 0 {
        assert(typed.drop_last() =~= before);
        assert(before + after =~= before);
        assert(typed.last() == blank);
        assert(cleaned_of(typed) =~= cleaned_of(before));
    } else {
        assert(typed.drop_last() =~= before + seq![blank] + after.drop_last());
        assert((before + after).drop_last() =~= before + after.drop_last());
        law_white_space_is_ignored_wherever_it_is_typed(before, blank, after.drop_last());
    }
}

/// Cleaning a text that is clean changes nothing, and a clean text holds neither
/// white space nor a typographic minus.
pub proof fn law_a_cleaned_text_is_clean(text: Seq<char>)
    ensures
        cleaned_of(cleaned_of(text)) == cleaned_of(text),
        forall|k: int|
            0 <= k < cleaned_of(text).len() ==> !whitespace(#[trigger] cleaned_of(text)[k])
                && cleaned_of(text)[k] != MINUS_SIGN,
    decreases text.len(),
{
    if text.len() > 0 {
        law_a_cleaned_text_is_clean(text.drop_last());
        let head = cleaned_of(text.drop_last());
        let tail = kept_of(text.last(), whitespace(text.last()));
        let clean = cleaned_of(text);
        if tail.len() == 0 {
            assert(clean =~= head);
        } else {
            assert(clean.drop_last() =~= head);
            assert(clean.last() == tail[0]);
            assert(kept_of(tail[0], whitespace(tail[0])) =~= tail);
            assert forall|k: int| 0 <= k < clean.len() implies !whitespace(#[trigger] clean[k])
                && clean[k] != MINUS_SIGN by {
                if k < head.len() {
                    assert(clean[k] == head[k]);
                }
            }
        }
    }
}

/// Whether drags snap at that increment.
pub open spec fn snaps(increment: Scalar) -> bool {
    Scalar { bits: VIEW_EDIT_SNAP_MIN_BITS }.at_most(increment)
}

/// What the snap dropdown shows, `written` being the increment written out.
pub fn snap_label(increment: Scalar, written: String) -> (label: String)
    ensures
        label@ == (if snaps(increment) {
            written@
        } else {
            "off"@
        }),
        snaps(increment) ==> label@ == written@,
        !snaps(increment) ==> label@ == "off"@,
{
    let least = Scalar { bits: VIEW_EDIT_SNAP_MIN_BITS };
    if least.le(increment) {
        written
    } else {
        "off".to_owned()
    }
}

/// The increment a frame of the panel writes, given the one that was shown and
/// the one that was chosen.
pub open spec fn snap_chosen(shown: Scalar, chosen: Scalar) -> Option<Scalar> {
    if chosen.equals(shown) {
        None
    } else if (Scalar { bits: 0 }).at_most(chosen) {
        Some(chosen)
    } else {
        Some(Scalar { bits: 0 })
    }
}

/// The increment to write, if it was changed: never one below zero.
pub fn snap_written(shown: Scalar, chosen: Scalar) -> (written: Option<Scalar>)
    ensures
        written == snap_chosen(shown, chosen),
{
    let nothing = Scalar { bits: 0 };
    if chosen.same(shown) {
        None
    } else if nothing.le(chosen) {
        Some(chosen)
    } else {
        Some(nothing)
    }
}

/// The room a callout has along one axis of the viewport.
pub open spec fn room_of(limit: Scalar) -> Scalar {
    if (Scalar { bits: 0 }).at_most(limit) {
        limit
    } else {
        Scalar { bits: 0 }
    }
}

/// Where a callout is put along one axis.
pub open spec fn placed_at(wanted: Scalar, limit: Scalar) -> Scalar {
    if wanted.below(Scalar { bits: 0 }) {
        Scalar { bits: 0 }
    } else if room_of(limit).below(wanted) {
        room_of(limit)
    } else {
        wanted
    }
}

/// Where a callout sits along one axis: where it is wanted, and never so far
/// that it lands under the side panel or off the window.
///
/// `wanted` is beside the point it measures, and `limit` the extent of the
/// viewport less the space a callout takes.
pub fn placed(wanted: Scalar, limit: Scalar) -> (at: Scalar)
    ensures
        at == placed_at(wanted, limit),
{
    let nothing = Scalar { bits: 0 };
    let room = if nothing.le(limit) {
        limit
    } else {
        nothing
    };
    if wanted.lt(nothing) {
        nothing
    } else if room.lt(wanted) {
        room
    } else {
        wanted
    }
}

/// Wherever a callout is wanted it sits inside the viewport, and in a viewport
/// narrower than the space it needs it sits at the edge.
pub proof fn law_a_callout_stays_in_the_viewport(wanted: Scalar, limit: Scalar)
    requires
        !wanted.nan(),
    ensures
        (Scalar { bits: 0 }).at_most(placed_at(wanted, limit)),
        placed_at(wanted, limit).at_most(room_of(limit)),
        limit.below(Scalar { bits: 0 }) ==> placed_at(wanted, limit).equals(Scalar { bits: 0 }),
{
}

} // verus!
