//! Text in UTF-16, cut to the size of a buffer.

use vstd::prelude::*;

use crate::text::code_point;

verus! {

/// A character in UTF-16: one unit, or a pair of surrogates.
pub open spec fn units_of(character: char) -> Seq<u16> {
    let code = character as int;
    if code < 0x1_0000 {
        seq![code as u16]
    } else {
        seq![
            (0xd800 + (code - 0x1_0000) / 0x400) as u16,
            (0xdc00 + (code - 0x1_0000) % 0x400) as u16,
        ]
    }
}

/// A text in UTF-16.
pub open spec fn utf16(text: Seq<char>) -> Seq<u16>
    decreases text.len(),
{
    if text.len() == 0 {
        seq![]
    } else {
        utf16(text.drop_last()) + units_of(text.last())
    }
}

/// As many units of zero.
pub open spec fn zeros(count: nat) -> Seq<u16> {
    Seq::new(count, |i: int| 0u16)
}

/// The first `kept` characters of a text fit into `size` units with a terminator behind them, and
/// the next one does not.
pub open spec fn fits(text: Seq<char>, kept: int, size: int) -> bool {
    &&& 0 <= kept <= text.len()
    &&& utf16(text.take(kept)).len() < size
    &&& kept < text.len() ==> utf16(text.take(kept + 1)).len() >= size
}

/// The units of a character: how many, and which.
fn encode(character: char) -> (result: (usize, u16, u16))
    ensures
        result.0 == units_of(character).len(),
        result.1 == units_of(character)[0],
        result.0 == 2 ==> result.2 == units_of(character)[1],
        result.0 == 1 || result.0 == 2,
{
    let code: u32 = code_point(character);
    if code < 0x1_0000 {
        (1, code as u16, 0)
    } else {
        let rest: u32 = code - 0x1_0000;
        (2, (0xd800 + rest / 0x400) as u16, (0xdc00 + rest % 0x400) as u16)
    }
}

/// Writes a text into a buffer as UTF-16, with a terminator, and fills the rest with zeros. The
/// text is cut where it does not fit, but never inside a character. A buffer without room is left
/// alone.
pub fn write_wide_truncated<const N: usize>(destination: &mut [u16; N], text: &str)
    ensures
        N == 0 ==> final(destination)@ == old(destination)@,
        N > 0 ==> exists|kept: int|
            {
                &&& #[trigger] fits(text@, kept, N as int)
                &&& final(destination)@ == utf16(text@.take(kept)) + zeros(
                    (N - utf16(text@.take(kept)).len()) as nat,
                )
                &&& forall|i: int|
                    utf16(text@.take(kept)).len() <= i < N ==> #[trigger] final(destination)@[i] == 0
            },
{
    if N == 0 {
        return;
    }
    let mut index: usize = 0;
    while index < N
        invariant
            index <= N,
            destination@.len() == N,
            forall|i: int| 0 <= i < index ==> destination@[i] == 0,
        decreases N - index,
    {
        destination[index] = 0;
        index = index + 1;
    }
    let characters = crate::text::characters(text);
    let mut length: usize = 0;
    let mut kept: usize = 0;
    assert(destination@ =~= utf16(text@.take(0)) + zeros(N as nat));
    while kept < characters.len()
        invariant
            N > 0,
            characters@ == text@,
            kept <= characters.len(),
            length < N,
            length == utf16(text@.take(kept as int)).len(),
            destination@ == utf16(text@.take(kept as int)) + zeros((N - length) as nat),
        ensures
            fits(text@, kept as int, N as int),
        decreases characters.len() - kept,
    {
        let character: char = characters[kept];
        let (count, first, second): (usize, u16, u16) = encode(character);
        let ghost before = utf16(text@.take(kept as int));
        let ghost units = units_of(character);
        assert(text@.take(kept + 1).drop_last() =~= text@.take(kept as int));
        assert(utf16(text@.take(kept + 1)) == before + units);
        if count >= N - length {
            break;
        }
        destination[length] = first;
        if count == 2 {
            destination[length + 1] = second;
        }
        length = length + count;
        kept = kept + 1;
        assert(destination@ =~= before + units + zeros((N - length) as nat));
    }
}

/// A longer beginning of a text has more units.
proof fn longer_prefix_has_more_units(text: Seq<char>, first: int, second: int)
    requires
        0 <= first < second <= text.len(),
    ensures
        utf16(text.take(first)).len() < utf16(text.take(second)).len(),
    decreases second - first,
{
    assert(text.take(second).drop_last() =~= text.take(second - 1));
    if first < second - 1 {
        longer_prefix_has_more_units(text, first, second - 1);
    }
}

/// How much of a text is kept is determined by the text and the size.
pub proof fn cut_is_unique(text: Seq<char>, first: int, second: int, size: int)
    requires
        fits(text, first, size),
        fits(text, second, size),
    ensures
        first == second,
{
    if first < second {
        if first + 1 < second {
            longer_prefix_has_more_units(text, first + 1, second);
        }
    } else if second < first {
        if second + 1 < first {
            longer_prefix_has_more_units(text, second + 1, first);
        }
    }
}

/// A text that fits with its terminator is kept whole.
pub proof fn text_that_fits_is_kept_whole(text: Seq<char>, size: int)
    requires
        utf16(text).len() < size,
    ensures
        fits(text, text.len() as int, size),
{
    assert(text.take(text.len() as int) =~= text);
}

/// No character ends in the first half of a surrogate pair.
proof fn units_end_whole(character: char)
    ensures
        !(0xd800 <= units_of(character).last() <= 0xdbff),
{
    assert(character as int <= 0x10_ffff);
    assert(!(0xd800 <= character as int <= 0xdfff));
}

/// What is kept of a text never ends in the middle of a character.
pub proof fn cut_never_splits_a_pair(text: Seq<char>, kept: int, size: int)
    requires
        fits(text, kept, size),
        kept > 0,
    ensures
        utf16(text.take(kept)).len() > 0,
        !(0xd800 <= utf16(text.take(kept)).last() <= 0xdbff),
{
    let prefix = text.take(kept);
    units_end_whole(prefix.last());
    assert(utf16(prefix).last() == units_of(prefix.last()).last());
}

/// One unit is the character itself. Two units are a high and a low surrogate that hold its number.
pub proof fn units_hold_the_character(character: char)
    ensures
        ({
            let units = units_of(character);
            let code = character as int;
            &&& code < 0x1_0000 ==> units.len() == 1 && units[0] == code
            &&& code >= 0x1_0000 ==> {
                &&& units.len() == 2
                &&& 0xd800 <= units[0] < 0xdc00
                &&& 0xdc00 <= units[1] < 0xe000
                &&& code == 0x1_0000 + (units[0] - 0xd800) * 0x400 + (units[1] - 0xdc00)
            }
        }),
{
    assert(character as int <= 0x10_ffff);
}

/// The units of a text are those of its characters, one after the other.
pub proof fn units_of_a_longer_text(text: Seq<char>, character: char)
    ensures
        utf16(Seq::<char>::empty()) == Seq::<u16>::empty(),
        utf16(text.push(character)) == utf16(text) + units_of(character),
{
    assert(text.push(character).drop_last() =~= text);
}

/// As much of a text is kept as leaves room for a terminator, and no less: the whole text if it
/// leaves room, and otherwise the longest beginning that does.
pub proof fn longest_beginning_is_kept(text: Seq<char>, kept: int, size: int)
    requires
        size > 0,
    ensures
        fits(text, kept, size) <==> {
            &&& 0 <= kept <= text.len()
            &&& utf16(text.take(kept)).len() + 1 <= size
            &&& forall|longer: int|
                kept < longer <= text.len() ==> utf16(#[trigger] text.take(longer)).len() + 1 > size
        },
{
    if fits(text, kept, size) {
        assert forall|longer: int| kept < longer <= text.len() implies utf16(
            #[trigger] text.take(longer),
        ).len() + 1 > size by {
            if kept + 1 < longer {
                longer_prefix_has_more_units(text, kept + 1, longer);
            }
        }
    }
}

} // verus!
