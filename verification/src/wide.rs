//! Conversion between Rust text and nul-terminated UTF-16 buffers.

use vstd::prelude::*;
use vstd::slice::slice_subrange;
use widestring::error::ContainsNul;
use widestring::{U16CString, U16Str};

use crate::error::NulByteInInput;

verus! {

/// The character substituted for code units that do not decode.
pub const REPLACEMENT_CHARACTER: char = '\u{FFFD}';

/// Code units reserved for the first half of a surrogate pair.
pub open spec fn is_high_surrogate(unit: u16) -> bool {
    0xD800 <= unit <= 0xDBFF
}

/// Code units reserved for the second half of a surrogate pair.
pub open spec fn is_low_surrogate(unit: u16) -> bool {
    0xDC00 <= unit <= 0xDFFF
}

/// The UTF-16 code units of one character: the character itself below
/// U+10000, a surrogate pair from there on.
pub open spec fn char_units(c: char) -> Seq<u16> {
    let v = c as int;
    if v < 0x10000 {
        seq![v as u16]
    } else {
        seq![(0xD800 + (v - 0x10000) / 0x400) as u16, (0xDC00 + (v - 0x10000) % 0x400) as u16]
    }
}

/// The character that a surrogate pair stands for.
pub open spec fn pair_char(high: u16, low: u16) -> char {
    (0x10000 + (high - 0xD800) * 0x400 + (low - 0xDC00)) as char
}

/// The UTF-16 encoding of a text, as the Unicode standard defines it:
/// the code units of its characters in their order.
pub open spec fn encode_utf16(text: Seq<char>) -> Seq<u16>
    decreases text.len(),
{
    if text.len() == 0 {
        Seq::empty()
    } else {
        char_units(text[0]) + encode_utf16(text.drop_first())
    }
}

/// The text that a sequence of UTF-16 code units decodes to, with
/// [`REPLACEMENT_CHARACTER`] in place of every surrogate that has no partner.
pub open spec fn decode_utf16_lossy(units: Seq<u16>) -> Seq<char>
    decreases units.len(),
{
    if units.len() == 0 {
        Seq::empty()
    } else if is_high_surrogate(units[0]) && units.len() >= 2 && is_low_surrogate(units[1]) {
        seq![pair_char(units[0], units[1])] + decode_utf16_lossy(units.skip(2))
    } else if is_high_surrogate(units[0]) || is_low_surrogate(units[0]) {
        seq![REPLACEMENT_CHARACTER] + decode_utf16_lossy(units.drop_first())
    } else {
        seq![units[0] as char] + decode_utf16_lossy(units.drop_first())
    }
}

/// A nul occurs somewhere before the final position.
pub open spec fn has_interior_nul(units: Seq<u16>) -> bool {
    exists|i: int| 0 <= i < units.len() - 1 && units[i] == 0
}

/// A nul character occurs somewhere before the final position of the text.
pub open spec fn has_embedded_nul(text: Seq<char>) -> bool {
    exists|i: int| 0 <= i < text.len() - 1 && text[i] == '\0'
}

/// The units followed by a terminating nul, unless they end in one already.
pub open spec fn with_terminator(units: Seq<u16>) -> Seq<u16> {
    if units.len() > 0 && units.last() == 0 {
        units
    } else {
        units.push(0)
    }
}

/// Nonempty, ends in a nul and holds no other.
pub open spec fn is_nul_terminated(units: Seq<u16>) -> bool {
    &&& units.len() > 0
    &&& units.last() == 0
    &&& !has_interior_nul(units)
}

/// The number of units before the first nul, or the length where there is none.
pub open spec fn nul_position(units: Seq<u16>) -> nat
    decreases units.len(),
{
    if units.len() == 0 || units[0] == 0 {
        0
    } else {
        1 + nul_position(units.drop_first())
    }
}

/// The units before the first nul.
pub open spec fn until_nul(units: Seq<u16>) -> Seq<u16> {
    units.take(nul_position(units) as int)
}

/// The text without its final character where that is a nul.
pub open spec fn without_final_nul(text: Seq<char>) -> Seq<char> {
    if text.len() > 0 && text.last() == '\0' {
        text.drop_last()
    } else {
        text
    }
}

/// What [`encode`] makes of a text: nothing where a nul is embedded in it,
/// else its UTF-16 code units, a final nul character left out.
pub open spec fn encoded(text: Seq<char>) -> Option<Seq<u16>> {
    if has_embedded_nul(text) {
        None
    } else {
        Some(encode_utf16(without_final_nul(text)))
    }
}

/// An optional text is encoded where it is there, and left out where it
/// is not.
pub open spec fn encodes_optional(wide: Option<WideString>, text: Option<Seq<char>>) -> bool {
    match text {
        None => wide is None,
        Some(t) => wide matches Some(w) && Some(w@) == encoded(t),
    }
}

/// The text of an optional string slice.
pub open spec fn optional_text(text: Option<&str>) -> Option<Seq<char>> {
    match text {
        None => None,
        Some(t) => Some(t@),
    }
}

/// What [`decode`] makes of a buffer: the text of the units before the
/// first nul.
pub open spec fn decoded(buffer: Seq<u16>) -> Seq<char> {
    decode_utf16_lossy(until_nul(buffer))
}

/// `widestring::error::ContainsNul`, the error with which
/// `widestring::U16CString::from_str` refuses a text. Nothing is claimed
/// of what it holds: it is only told apart from success.
#[verifier::external_type_specification]
#[verifier::external_body]
#[verifier::reject_recursive_types(C)]
pub struct ExContainsNul<C>(ContainsNul<C>);

/// `widestring::U16CString::from_str`, its result taken as a vector with
/// `into_vec_with_nul`. The text is encoded as UTF-16 and refused where a nul
/// stands before the final unit; otherwise a terminating nul is appended
/// unless the units end in one.
#[verifier::external_body]
fn nul_terminated_from_str(text: &str) -> (r: Result<Vec<u16>, ContainsNul<u16>>)
    ensures
        r is Ok <==> !has_interior_nul(encode_utf16(text@)),
        r matches Ok(units) ==> units@ == with_terminator(encode_utf16(text@)),
{
    match U16CString::from_str(text) {
        Ok(wide) => Ok(wide.into_vec_with_nul()),
        Err(e) => Err(e),
    }
}

/// `widestring::U16Str::to_string_lossy` on the given units: decodes UTF-16,
/// putting U+FFFD for each unpaired surrogate.
#[verifier::external_body]
fn string_from_utf16_lossy(units: &[u16]) -> (text: String)
    ensures
        text@ == decode_utf16_lossy(units@),
{
    U16Str::from_slice(units).to_string_lossy()
}

/// An owned, nul-terminated UTF-16 string without interior nuls, in the form
/// that the service control manager takes its text arguments.
#[derive(Debug, PartialEq, Eq, Hash)]
pub struct WideString {
    units: Vec<u16>,
}

impl View for WideString {
    type V = Seq<u16>;

    /// The code units before the terminating nul.
    closed spec fn view(&self) -> Seq<u16> {
        self.units@.drop_last()
    }
}

impl Clone for WideString {
    fn clone(&self) -> (copy: Self)
        ensures
            copy@ == self@,
            copy.units_with_nul() == self.units_with_nul(),
            copy.well_formed(),
    {
        proof {
            use_type_invariant(self);
        }
        let units = self.units.clone();
        assert(units@ =~= self.units@);
        WideString { units }
    }
}

impl WideString {
    /// The stored units end in the one nul they hold.
    #[verifier::type_invariant]
    pub closed spec fn well_formed(&self) -> bool {
        is_nul_terminated(self.units@)
    }

    /// The code units with the terminating nul.
    pub closed spec fn units_with_nul(&self) -> Seq<u16> {
        self.units@
    }

    /// What well-formedness means for the two views of the string.
    pub proof fn lemma_well_formed(&self)
        requires
            self.well_formed(),
        ensures
            !self@.contains(0),
            self.units_with_nul() == self@.push(0),
    {
        let units = self.units@;
        assert(units =~= units.drop_last().push(0));
        if self@.contains(0) {
            let i = choose|i: int| 0 <= i < self@.len() && self@[i] == 0;
            assert(units[i] == 0);
        }
    }

    /// Terminates units that hold no nul.
    pub(crate) fn from_units(units: Vec<u16>) -> (wide: WideString)
        requires
            !units@.contains(0),
        ensures
            wide@ == units@,
            wide.well_formed(),
    {
        let mut units = units;
        let ghost content = units@;
        units.push(0);
        proof {
            assert(units@.drop_last() =~= content);
            if has_interior_nul(units@) {
                let i = choose|i: int| 0 <= i < units@.len() - 1 && units@[i] == 0;
                assert(content[i] == 0);
            }
        }
        WideString { units }
    }

    /// The code units without the terminating nul.
    pub fn as_slice(&self) -> (units: &[u16])
        ensures
            units@ == self@,
            !self@.contains(0),
    {
        proof {
            use_type_invariant(self);
            self.lemma_well_formed();
        }
        slice_subrange(self.units.as_slice(), 0, self.units.len() - 1)
    }

    /// The code units with the terminating nul: what a native call is given.
    pub fn as_slice_with_nul(&self) -> (units: &[u16])
        ensures
            units@ == self@.push(0),
            units@ == self.units_with_nul(),
            !self@.contains(0),
    {
        proof {
            use_type_invariant(self);
            self.lemma_well_formed();
        }
        self.units.as_slice()
    }

    /// The number of code units before the terminating nul.
    pub fn len(&self) -> (n: usize)
        ensures
            n == self@.len(),
    {
        proof {
            use_type_invariant(self);
        }
        self.units.len() - 1
    }

    /// Whether the string holds no code unit besides the terminator.
    pub fn is_empty(&self) -> (empty: bool)
        ensures
            empty <==> self@.len() == 0,
    {
        self.len() == 0
    }

    /// The text of the string, with [`REPLACEMENT_CHARACTER`] for every
    /// surrogate that has no partner.
    pub fn to_string_lossy(&self) -> (text: String)
        ensures
            text@ == decode_utf16_lossy(self@),
    {
        string_from_utf16_lossy(self.as_slice())
    }
}

/// Converts text to a nul-terminated UTF-16 string. A text with a nul
/// character before its final position is refused, since the receiver would
/// see it cut short; a nul in final position is taken for the terminator.
pub fn encode(text: &str) -> (r: Result<WideString, NulByteInInput>)
    ensures
        match encoded(text@) {
            Some(units) => r matches Ok(wide) && wide@ == units && wide.well_formed(),
            None => r == Err::<WideString, NulByteInInput>(NulByteInInput),
        },
{
    proof {
        lemma_encode_embedded_nul(text@);
    }
    match nul_terminated_from_str(text) {
        Ok(terminated) => {
            proof {
                lemma_with_terminator(encode_utf16(text@));
            }
            Ok(WideString { units: terminated })
        },
        Err(_) => Err(NulByteInInput),
    }
}

/// [`encode`] for an argument that may be left out: no text stays no text,
/// which the call site hands on as a null pointer.
pub fn encode_optional(text: Option<&str>) -> (r: Result<Option<WideString>, NulByteInInput>)
    ensures
        match text {
            Some(t) if has_embedded_nul(t@) => r == Err::<Option<WideString>, NulByteInInput>(
                NulByteInInput,
            ),
            _ => r matches Ok(wide) && encodes_optional(wide, optional_text(text)),
        },
{
    match text {
        None => Ok(None),
        Some(t) => match encode(t) {
            Ok(wide) => Ok(Some(wide)),
            Err(e) => Err(e),
        },
    }
}

/// The number of units before the first nul of the buffer, or its length
/// where it holds none.
pub fn first_nul(buffer: &[u16]) -> (n: usize)
    ensures
        n == nul_position(buffer@),
        n <= buffer@.len(),
{
    let mut i: usize = 0;
    while i < buffer.len() && buffer[i] != 0
        invariant
            i <= buffer@.len(),
            forall|j: int| 0 <= j < i ==> buffer@[j] != 0,
        decreases buffer@.len() - i,
    {
        i += 1;
    }
    proof {
        lemma_nul_position(buffer@, i as int);
    }
    i
}

/// Converts a nul-terminated UTF-16 buffer to text. What follows the first
/// nul is ignored; a buffer without a nul is taken whole. Never fails: a
/// surrogate without its partner becomes [`REPLACEMENT_CHARACTER`].
pub fn decode(buffer: &[u16]) -> (text: String)
    ensures
        text@ == decoded(buffer@),
{
    let n = first_nul(buffer);
    let content = slice_subrange(buffer, 0, n);
    assert(content@ =~= until_nul(buffer@));
    string_from_utf16_lossy(content)
}

/// Converts the first `len` units of a buffer to text, nuls included, as
/// [`decode`] converts the units before the first nul.
pub fn decode_prefix(buffer: &[u16], len: usize) -> (text: String)
    requires
        len <= buffer@.len(),
    ensures
        text@ == decode_utf16_lossy(buffer@.take(len as int)),
{
    let content = slice_subrange(buffer, 0, len);
    assert(content@ =~= buffer@.take(len as int));
    string_from_utf16_lossy(content)
}

/// Terminating units that hold no interior nul makes them nul-terminated, and
/// leaves in front of the terminator what was in front of a final nul.
pub proof fn lemma_with_terminator(units: Seq<u16>)
    requires
        !has_interior_nul(units),
    ensures
        is_nul_terminated(with_terminator(units)),
        with_terminator(units).drop_last() == if units.len() > 0 && units.last() == 0 {
            units.drop_last()
        } else {
            units
        },
{
    let terminated = with_terminator(units);
    if units.len() > 0 && units.last() == 0 {
    } else {
        assert(terminated.drop_last() =~= units);
        if has_interior_nul(terminated) {
            let i = choose|i: int| 0 <= i < terminated.len() - 1 && terminated[i] == 0;
            assert(units[i] == 0);
            if i < units.len() - 1 {
                assert(has_interior_nul(units));
            }
        }
    }
}

/// The code units of one character: how many there are, that only the nul
/// character gives a nul unit, and that they decode to the character.
pub proof fn lemma_char_units(c: char)
    ensures
        (c as int) < 0x10000 ==> {
            &&& char_units(c).len() == 1
            &&& char_units(c)[0] == c as int
            &&& !is_high_surrogate(char_units(c)[0])
            &&& !is_low_surrogate(char_units(c)[0])
            &&& char_units(c)[0] as char == c
        },
        (c as int) >= 0x10000 ==> {
            &&& char_units(c).len() == 2
            &&& is_high_surrogate(char_units(c)[0])
            &&& is_low_surrogate(char_units(c)[1])
            &&& pair_char(char_units(c)[0], char_units(c)[1]) == c
        },
        char_units(c).contains(0) <==> c == '\0',
{
    let v = c as int;
    if v < 0x10000 {
        assert(char_units(c)[0] == 0 <==> c == '\0');
        if c == '\0' {
            assert(char_units(c)[0] == 0);
        }
    } else {
        let high = 0xD800 + (v - 0x10000) / 0x400;
        let low = 0xDC00 + (v - 0x10000) % 0x400;
        assert(0xD800 <= high <= 0xDBFF);
        assert(0xDC00 <= low <= 0xDFFF);
        assert(char_units(c)[0] == high);
        assert(char_units(c)[1] == low);
        assert(0x10000 + (high - 0xD800) * 0x400 + (low - 0xDC00) == v);
    }
}

proof fn lemma_concat_contains(a: Seq<u16>, b: Seq<u16>, x: u16)
    ensures
        (a + b).contains(x) <==> a.contains(x) || b.contains(x),
{
    if a.contains(x) {
        let i = choose|i: int| 0 <= i < a.len() && a[i] == x;
        assert((a + b)[i] == x);
    }
    if b.contains(x) {
        let i = choose|i: int| 0 <= i < b.len() && b[i] == x;
        assert((a + b)[a.len() + i] == x);
    }
    if (a + b).contains(x) {
        let i = choose|i: int| 0 <= i < (a + b).len() && (a + b)[i] == x;
        if i < a.len() {
            assert(a[i] == x);
        } else {
            assert(b[i - a.len()] == x);
        }
    }
}

/// Encoding goes through concatenation.
pub proof fn lemma_encode_concat(a: Seq<char>, b: Seq<char>)
    ensures
        encode_utf16(a + b) == encode_utf16(a) + encode_utf16(b),
    decreases a.len(),
{
    if a.len() == 0 {
        assert(a + b =~= b);
        assert(encode_utf16(a) + encode_utf16(b) =~= encode_utf16(b));
    } else {
        assert((a + b).drop_first() =~= a.drop_first() + b);
        lemma_encode_concat(a.drop_first(), b);
        assert(encode_utf16(a + b) =~= encode_utf16(a) + encode_utf16(b));
    }
}

/// The encoding holds a nul unit exactly where the text holds a nul character.
pub proof fn lemma_encode_contains_nul(text: Seq<char>)
    ensures
        encode_utf16(text).contains(0) <==> text.contains('\0'),
    decreases text.len(),
{
    if text.len() > 0 {
        let rest = text.drop_first();
        lemma_encode_contains_nul(rest);
        lemma_char_units(text[0]);
        lemma_concat_contains(char_units(text[0]), encode_utf16(rest), 0);
        if text.contains('\0') {
            let i = choose|i: int| 0 <= i < text.len() && text[i] == '\0';
            if i > 0 {
                assert(rest[i - 1] == '\0');
            }
        }
        if rest.contains('\0') {
            let i = choose|i: int| 0 <= i < rest.len() && rest[i] == '\0';
            assert(text[i + 1] == '\0');
        }
    }
}

/// A nul unit stands before the final unit of the encoding exactly where a nul
/// character stands before the final character of the text, and the encoding
/// ends in a nul exactly where the text does.
pub proof fn lemma_encode_embedded_nul(text: Seq<char>)
    ensures
        has_interior_nul(encode_utf16(text)) <==> has_embedded_nul(text),
        (encode_utf16(text).len() > 0 && encode_utf16(text).last() == 0) <==> (text.len() > 0
            && text.last() == '\0'),
        text.len() > 0 && text.last() == '\0' ==> encode_utf16(text).drop_last() == encode_utf16(
            text.drop_last(),
        ),
{
    let units = encode_utf16(text);
    if text.len() == 0 {
    } else {
        let init = text.drop_last();
        let last = text.last();
        assert(text =~= init + seq![last]);
        lemma_encode_concat(init, seq![last]);
        assert(seq![last].drop_first() =~= Seq::<char>::empty());
        assert(encode_utf16(Seq::<char>::empty()) =~= Seq::<u16>::empty());
        assert(seq![last][0] == last);
        assert(encode_utf16(seq![last]) =~= char_units(last));
        assert(units == encode_utf16(init) + char_units(last));
        lemma_char_units(last);
        lemma_encode_contains_nul(init);
        let head = encode_utf16(init);
        if (last as int) < 0x10000 {
            assert(units.drop_last() =~= head);
            assert(units.last() == char_units(last)[0]);
        } else {
            assert(units.last() == char_units(last)[1]);
            assert(units[head.len() as int] == char_units(last)[0]);
        }
        if has_interior_nul(units) {
            let i = choose|i: int| 0 <= i < units.len() - 1 && units[i] == 0;
            assert(i < head.len());
            assert(head[i] == 0);
            assert(head.contains(0));
            let j = choose|j: int| 0 <= j < init.len() && init[j] == '\0';
            assert(text[j] == '\0');
        }
        if has_embedded_nul(text) {
            let j = choose|j: int| 0 <= j < text.len() - 1 && text[j] == '\0';
            assert(init[j] == '\0');
            assert(init.contains('\0'));
            let i = choose|i: int| 0 <= i < head.len() && head[i] == 0;
            assert(units[i] == 0);
        }
    }
}

/// Decoding an encoded text gives the text back: no character encodes to a
/// surrogate without its partner.
pub proof fn lemma_decode_encode(text: Seq<char>)
    ensures
        decode_utf16_lossy(encode_utf16(text)) == text,
    decreases text.len(),
{
    if text.len() > 0 {
        let c = text[0];
        let rest = text.drop_first();
        let units = encode_utf16(text);
        lemma_decode_encode(rest);
        lemma_char_units(c);
        if (c as int) < 0x10000 {
            assert(units[0] == char_units(c)[0]);
            assert(units.drop_first() =~= encode_utf16(rest));
        } else {
            assert(units[0] == char_units(c)[0]);
            assert(units[1] == char_units(c)[1]);
            assert(units.skip(2) =~= encode_utf16(rest));
        }
        assert(decode_utf16_lossy(units) =~= seq![c] + rest);
        assert(seq![c] + rest =~= text);
    }
}

/// [`nul_position`] is the one index with no nul before it that is the length
/// or holds a nul.
pub proof fn lemma_nul_position(units: Seq<u16>, n: int)
    requires
        0 <= n <= units.len(),
        forall|j: int| 0 <= j < n ==> units[j] != 0,
        n < units.len() ==> units[n] == 0,
    ensures
        nul_position(units) == n,
    decreases units.len(),
{
    if n > 0 {
        assert(units[0] != 0);
        let rest = units.drop_first();
        assert forall|j: int| 0 <= j < n - 1 implies rest[j] != 0 by {
            assert(rest[j] == units[j + 1]);
        }
        lemma_nul_position(rest, n - 1);
    }
}

/// A buffer that holds nul-free units and then a nul is cut back to those units.
pub proof fn lemma_until_nul_of_terminated(content: Seq<u16>, rest: Seq<u16>)
    requires
        !content.contains(0),
    ensures
        until_nul(content.push(0) + rest) == content,
{
    let buffer = content.push(0) + rest;
    assert forall|j: int| 0 <= j < content.len() implies buffer[j] != 0 by {
        assert(buffer[j] == content[j]);
        assert(content.contains(content[j]));
    }
    assert(buffer[content.len() as int] == 0);
    lemma_nul_position(buffer, content.len() as int);
    assert(buffer.take(content.len() as int) =~= content);
}

/// Encoding a text that [`encode`] accepts and decoding the terminated result
/// gives the text back, without its final nul where it had one.
pub proof fn lemma_encode_then_decode(text: Seq<char>)
    requires
        !has_embedded_nul(text),
    ensures
        encoded(text) is Some,
        !encoded(text)->0.contains(0),
        decoded(encoded(text)->0.push(0)) == without_final_nul(text),
{
    let kept = without_final_nul(text);
    let content = encode_utf16(kept);
    assert(!kept.contains('\0')) by {
        if kept.contains('\0') {
            let i = choose|i: int| 0 <= i < kept.len() && kept[i] == '\0';
            assert(text[i] == '\0');
        }
    }
    lemma_encode_contains_nul(kept);
    lemma_until_nul_of_terminated(content, Seq::empty());
    assert(content.push(0) + Seq::<u16>::empty() =~= content.push(0));
    lemma_decode_encode(kept);
}

/// Round trip: a text without a nul character is accepted by [`encode`], and
/// [`decode`] makes the same text of the terminated buffer.
pub proof fn lemma_encode_decode_roundtrip(text: Seq<char>)
    requires
        !text.contains('\0'),
    ensures
        encoded(text) == Some(encode_utf16(text)),
        decoded(encode_utf16(text).push(0)) == text,
{
    assert(!has_embedded_nul(text)) by {
        if has_embedded_nul(text) {
            let i = choose|i: int| 0 <= i < text.len() - 1 && text[i] == '\0';
            assert(text.contains('\0'));
        }
    }
    assert(without_final_nul(text) == text) by {
        if text.len() > 0 && text.last() == '\0' {
            assert(text.contains('\0'));
        }
    }
    lemma_encode_then_decode(text);
}

} // verus!
