//! A FOURCC pixel-format code.
//!
//! A `Format` holds a 32-bit FOURCC value; the corresponding label is the
//! four ASCII bytes of the value, least significant first, with unused
//! positions padded by spaces.

use vstd::prelude::*;
use crate::text::push_char;

verus! {

/// Whether a character is ASCII.
pub open spec fn is_ascii_char(c: char) -> bool {
    (c as u32) < 128
}

/// The character standing at position `i` of the label once it has been
/// padded: the label's own character, or a space beyond its end.
pub open spec fn padded_char(label: Seq<char>, i: int) -> char {
    if i < label.len() {
        label[i]
    } else {
        ' '
    }
}

/// The FOURCC value a label denotes: its first four (padded) characters,
/// as bytes, least significant first.
pub open spec fn fourcc_of(label: Seq<char>) -> int {
    (padded_char(label, 0) as u8) + (padded_char(label, 1) as u8) * 0x100 + (padded_char(
        label,
        2,
    ) as u8) * 0x10000 + (padded_char(label, 3) as u8) * 0x1000000
}

/// The byte standing at position `i` (0 to 3) of a FOURCC value.
pub open spec fn fourcc_byte(value: u32, i: int) -> u8 {
    if i == 0 {
        (value % 0x100) as u8
    } else if i == 1 {
        ((value / 0x100) % 0x100) as u8
    } else if i == 2 {
        ((value / 0x10000) % 0x100) as u8
    } else {
        ((value / 0x1000000) % 0x100) as u8
    }
}

/// The sequence with its trailing spaces removed.
pub open spec fn trim_trailing_spaces(s: Seq<char>) -> Seq<char>
    decreases s.len(),
{
    if s.len() == 0 {
        s
    } else if s.last() == ' ' {
        trim_trailing_spaces(s.drop_last())
    } else {
        s
    }
}

/// The label a FOURCC value denotes: its four bytes as characters, least
/// significant first, with trailing padding spaces removed.
pub open spec fn label_of(value: u32) -> Seq<char> {
    trim_trailing_spaces(
        seq![
            fourcc_byte(value, 0) as char,
            fourcc_byte(value, 1) as char,
            fourcc_byte(value, 2) as char,
            fourcc_byte(value, 3) as char,
        ],
    )
}

/// A FOURCC pixel-format code.
#[derive(Clone, Copy, Debug, PartialEq, Eq, Structural, Hash)]
pub struct Format(u32);

impl Format {
    /// The 32-bit FOURCC value, at the spec level.
    pub closed spec fn spec_value(&self) -> u32 {
        self.0
    }

    /// Creates a `Format` from the given FOURCC value.
    pub fn from_value(value: u32) -> (r: Format)
        ensures
            r.spec_value() == value,
    {
        Format(value)
    }

    /// Creates a `Format` from the given FOURCC label.
    ///
    /// The label's first four characters are used; a shorter label is
    /// padded with spaces. Labels are ASCII by definition of FOURCC.
    pub fn from_label(label: &str) -> (r: Format)
        requires
            forall|i: int| 0 <= i < label@.len() && i < 4 ==> is_ascii_char(#[trigger] label@[i]),
        ensures
            r.spec_value() == fourcc_of(label@),
    {
        let len = label.unicode_len();
        let b0 = Self::label_byte(label, len, 0);
        let b1 = Self::label_byte(label, len, 1);
        let b2 = Self::label_byte(label, len, 2);
        let b3 = Self::label_byte(label, len, 3);
        Format(b0 as u32 + (b1 as u32) * 0x100 + (b2 as u32) * 0x10000 + (b3 as u32) * 0x1000000)
    }

    /// The byte at position `i` of the padded label.
    fn label_byte(label: &str, len: usize, i: usize) -> (r: u8)
        requires
            len == label@.len(),
            i < 4,
            (i as int) < label@.len() ==> is_ascii_char(label@[i as int]),
        ensures
            r == padded_char(label@, i as int) as u8,
    {
        if i < len {
            let c = label.get_char(i);
            c as u8
        } else {
            32
        }
    }

    /// Returns the FOURCC value for this `Format`.
    pub fn value(&self) -> (r: u32)
        ensures
            r == self.spec_value(),
    {
        self.0
    }

    /// Returns the label for this `Format`: the value's four bytes as
    /// characters, trailing padding spaces removed.
    pub fn as_label(&self) -> (r: String)
        ensures
            r@ == label_of(self.spec_value()),
    {
        let b0 = (self.0 % 0x100) as u8;
        let b1 = ((self.0 / 0x100) % 0x100) as u8;
        let b2 = ((self.0 / 0x10000) % 0x100) as u8;
        let b3 = ((self.0 / 0x1000000) % 0x100) as u8;
        let mut chars: Vec<char> = Vec::new();
        chars.push(b0 as char);
        chars.push(b1 as char);
        chars.push(b2 as char);
        chars.push(b3 as char);
        let end: usize = if chars[3] != ' ' {
            4
        } else if chars[2] != ' ' {
            3
        } else if chars[1] != ' ' {
            2
        } else if chars[0] != ' ' {
            1
        } else {
            0
        };
        proof {
            let full = chars@;
            assert(full.take(4) =~= full);
            assert(full.drop_last() =~= full.take(3));
            assert(full.take(3).drop_last() =~= full.take(2));
            assert(full.take(2).drop_last() =~= full.take(1));
            assert(full.take(1).drop_last() =~= full.take(0));
            if full[3] == ' ' {
                assert(trim_trailing_spaces(full) == trim_trailing_spaces(full.take(3)));
                if full[2] == ' ' {
                    assert(full.take(3).last() == full[2]);
                    assert(trim_trailing_spaces(full.take(3)) == trim_trailing_spaces(
                        full.take(2),
                    ));
                    if full[1] == ' ' {
                        assert(full.take(2).last() == full[1]);
                        assert(trim_trailing_spaces(full.take(2)) == trim_trailing_spaces(
                            full.take(1),
                        ));
                        if full[0] == ' ' {
                            assert(full.take(1).last() == full[0]);
                            assert(trim_trailing_spaces(full.take(1)) == trim_trailing_spaces(
                                full.take(0),
                            ));
                        }
                    }
                }
            }
            assert(trim_trailing_spaces(chars@) == trim_trailing_spaces(chars@.take(end as int)));
        }
        let mut s = String::new();
        let mut i: usize = 0;
        while i < end
            invariant
                i <= end <= 4,
                chars@.len() == 4,
                s@ =~= chars@.take(end as int).take(i as int),
            decreases end - i,
        {
            push_char(&mut s, chars[i]);
            proof {
                assert(chars@.take(end as int).take(i as int).push(chars@[i as int]) =~= chars@.take(
                    end as int,
                ).take(i as int + 1));
            }
            i = i + 1;
        }
        proof {
            assert(chars@ =~= seq![
                fourcc_byte(self.spec_value(), 0) as char,
                fourcc_byte(self.spec_value(), 1) as char,
                fourcc_byte(self.spec_value(), 2) as char,
                fourcc_byte(self.spec_value(), 3) as char,
            ]);
            assert(s@ =~= chars@.take(end as int));
            if end > 0 {
                assert(chars@.take(end as int).last() == chars@[end - 1]);
            }
            lemma_trim_of_non_space_end(chars@.take(end as int));
        }
        s
    }
}

/// Two formats are the same exactly when their FOURCC values are: the
/// value determines the format.
pub proof fn lemma_format_eq(a: Format, b: Format)
    ensures
        (a == b) <==> (a.spec_value() == b.spec_value()),
{
}

/// A sequence that is empty or does not end in a space is its own trimmed
/// form.
proof fn lemma_trim_of_non_space_end(s: Seq<char>)
    requires
        s.len() == 0 || s.last() != ' ',
    ensures
        trim_trailing_spaces(s) == s,
{
}

/// The format label round trip: a FOURCC value built from any ASCII label
/// of at most four characters decodes back to that label with its
/// trailing padding spaces trimmed. (The value round trip is the
/// `ensures` of `from_value` and `value` themselves.)
pub proof fn lemma_format_round_trip(label: Seq<char>)
    requires
        label.len() <= 4,
        forall|i: int| 0 <= i < label.len() ==> is_ascii_char(#[trigger] label[i]),
    ensures
        label_of(fourcc_of(label) as u32) == trim_trailing_spaces(label),
{
    let v = fourcc_of(label) as u32;
    let b0 = padded_char(label, 0) as u8;
    let b1 = padded_char(label, 1) as u8;
    let b2 = padded_char(label, 2) as u8;
    let b3 = padded_char(label, 3) as u8;
    assert(fourcc_of(label) == b0 + b1 * 0x100 + b2 * 0x10000 + b3 * 0x1000000);
    assert(fourcc_byte(v, 0) == b0 && fourcc_byte(v, 1) == b1 && fourcc_byte(v, 2) == b2
        && fourcc_byte(v, 3) == b3) by (bit_vector)
        requires
            v == b0 + b1 * 0x100 + b2 * 0x10000 + b3 * 0x1000000,
    ;
    let full = seq![
        fourcc_byte(v, 0) as char,
        fourcc_byte(v, 1) as char,
        fourcc_byte(v, 2) as char,
        fourcc_byte(v, 3) as char,
    ];
    assert forall|i: int| 0 <= i < 4 implies full[i] == padded_char(label, i) by {
        lemma_ascii_char_byte_round_trip(padded_char(label, i));
    }
    lemma_trim_pads_back(full, label);
}

/// An ASCII character survives the round trip through its byte.
proof fn lemma_ascii_char_byte_round_trip(c: char)
    requires
        is_ascii_char(c),
    ensures
        (c as u8) as char == c,
{
    let n = c as u32;
    assert((n as u8) as u32 == n) by (bit_vector)
        requires
            n < 128,
    ;
}

/// Trimming the space-padded four-character form of a short label yields
/// the trimmed label.
proof fn lemma_trim_pads_back(full: Seq<char>, label: Seq<char>)
    requires
        full.len() == 4,
        label.len() <= 4,
        forall|i: int| 0 <= i < 4 ==> full[i] == padded_char(label, i),
    ensures
        trim_trailing_spaces(full) == trim_trailing_spaces(label),
{
    lemma_trim_drop_pad(full, label, 4);
}

/// Dropping the appended padding spaces one by one reaches the label.
proof fn lemma_trim_drop_pad(s: Seq<char>, label: Seq<char>, n: int)
    requires
        label.len() <= n <= 4,
        s.len() == n,
        forall|i: int| 0 <= i < n ==> s[i] == padded_char(label, i),
    ensures
        trim_trailing_spaces(s) == trim_trailing_spaces(label),
    decreases n,
{
    if n == label.len() {
        assert(s =~= label);
    } else {
        assert(s.last() == ' ');
        lemma_trim_drop_pad(s.drop_last(), label, n - 1);
    }
}

} // verus!
