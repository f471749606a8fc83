use vstd::prelude::*;

verus! {

/// Where the components of a complex number stand in a text, each as the
/// range of bytes from a start up to, and without, an end.
#[derive(Debug, Clone, Copy, PartialEq, Eq, Structural)]
pub enum Components {
    /// The text has none of the accepted forms.
    Neither,
    /// The text gives a real part only.
    Real(usize, usize),
    /// The text gives a real part and then an imaginary part; the flag says
    /// that the imaginary part is to be taken from the real part, as in
    /// `r-i` with its marker, so that what its range holds is negated.
    Both(usize, usize, usize, usize, bool),
}

impl Components {
    /// The ranges lie within a text of `len` bytes, each start in front of
    /// its end and the real part in front of the imaginary part.
    pub open spec fn within(self, len: int) -> bool {
        match self {
            Components::Neither => true,
            Components::Real(start, end) => start <= end <= len,
            Components::Both(start, end, from, to, _) => start <= end <= from <= to <= len,
        }
    }
}

/// The first position from `from` up to `to` at which `s` holds `b`.
pub open spec fn spec_find(s: Seq<u8>, from: int, to: int, b: u8) -> Option<int>
    decreases to - from,
{
    if from >= to {
        None
    } else if s[from] == b {
        Some(from)
    } else {
        spec_find(s, from + 1, to, b)
    }
}

/// What `spec_find` gives is the least position in the range that holds the
/// byte, and it gives none only if no position in the range does.
pub proof fn lemma_find_is_first(s: Seq<u8>, from: int, to: int, b: u8)
    ensures
        match spec_find(s, from, to, b) {
            Some(at) => {
                &&& from <= at < to
                &&& s[at] == b
                &&& forall|j: int| from <= j < at ==> s[j] != b
            },
            None => forall|j: int| from <= j < to ==> s[j] != b,
        },
    decreases to - from,
{
    if from < to && s[from] != b {
        lemma_find_is_first(s, from + 1, to, b);
    }
}

/// The parts of a text that has a sign at `sign`: the real part in front of
/// it, and behind it the imaginary part up to its marker `i`, if it has one.
/// Where the sign is a minus, the imaginary part is negated.
pub open spec fn spec_around_sign(s: Seq<u8>, sign: int) -> Components {
    match spec_find(s, sign + 1, s.len() as int, 0x69u8) {
        Some(marker) => Components::Both(
            0,
            sign as usize,
            (sign + 1) as usize,
            marker as usize,
            s[sign] == 0x2du8,
        ),
        None => Components::Real(0, sign as usize),
    }
}

/// The components of a complex number written in one of three forms:
/// `(r,i)`, with anything in front of the opening and behind the closing
/// bracket; `r+i` followed by the marker `i`; or the same with `-`, where
/// the imaginary part counts as negative. The
/// first comma decides for the first form, else the first `+` for the
/// second, else the first `-` for the third.
pub open spec fn spec_locate_components(s: Seq<u8>) -> Components {
    let len = s.len() as int;
    match spec_find(s, 0, len, 0x2cu8) {
        Some(comma) => match (
            spec_find(s, 0, comma, 0x28u8),
            spec_find(s, comma + 1, len, 0x29u8),
        ) {
            (Some(open), Some(close)) => if open + 1 < comma {
                Components::Both(
                    (open + 1) as usize,
                    comma as usize,
                    (comma + 1) as usize,
                    close as usize,
                    false,
                )
            } else {
                Components::Neither
            },
            _ => Components::Neither,
        },
        None => match spec_find(s, 0, len, 0x2bu8) {
            Some(plus) => spec_around_sign(s, plus),
            None => match spec_find(s, 0, len, 0x2du8) {
                Some(minus) => spec_around_sign(s, minus),
                None => Components::Neither,
            },
        },
    }
}

/// Finds the first occurrence of `b` in `text` from `from` up to `to`.
pub fn find_byte(text: &[u8], from: usize, to: usize, b: u8) -> (found: Option<usize>)
    requires
        to <= text@.len(),
    ensures
        match found {
            Some(at) => spec_find(text@, from as int, to as int, b) == Some(at as int),
            None => spec_find(text@, from as int, to as int, b) is None,
        },
        found matches Some(at) ==> from <= at < to,
{
    let mut at: usize = from;
    while at < to
        invariant
            from <= at,
            to <= text@.len(),
            spec_find(text@, from as int, to as int, b) == spec_find(
                text@,
                at as int,
                to as int,
                b,
            ),
        decreases to - at,
    {
        if text[at] == b {
            return Some(at);
        }
        at += 1;
    }
    None
}

fn around_sign(text: &[u8], sign: usize) -> (parts: Components)
    requires
        sign < text@.len(),
    ensures
        parts == spec_around_sign(text@, sign as int),
        parts.within(text@.len() as int),
{
    let len: usize = text.len();
    match find_byte(text, sign + 1, len, 0x69u8) {
        Some(marker) => Components::Both(0, sign, sign + 1, marker, text[sign] == 0x2du8),
        None => Components::Real(0, sign),
    }
}

/// Locates the components of a complex number in `text`, without reading
/// them as numbers.
pub fn locate_components(text: &[u8]) -> (parts: Components)
    ensures
        parts == spec_locate_components(text@),
        parts.within(text@.len() as int),
{
    let len: usize = text.len();
    match find_byte(text, 0, len, 0x2cu8) {
        Some(comma) => {
            let opening = find_byte(text, 0, comma, 0x28u8);
            let closing = find_byte(text, comma + 1, len, 0x29u8);
            match (opening, closing) {
                (Some(open), Some(close)) => if open + 1 < comma {
                    Components::Both(open + 1, comma, comma + 1, close, false)
                } else {
                    Components::Neither
                },
                _ => Components::Neither,
            }
        },
        None => match find_byte(text, 0, len, 0x2bu8) {
            Some(plus) => around_sign(text, plus),
            None => match find_byte(text, 0, len, 0x2du8) {
                Some(minus) => around_sign(text, minus),
                None => Components::Neither,
            },
        },
    }
}

} // verus!
