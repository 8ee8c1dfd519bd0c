//! Child selectors and their display forms.
//!
//! A [`Segment`] identifies one child within its parent: a position for an
//! array element, or a position together with a key for an object field.
//! Both carry the position, so that ascending can restore the selection that
//! was active before the matching descend.

use vstd::prelude::*;
use vstd::string::StringExecFns;

verus! {

/// The character for one decimal digit.
pub open spec fn digit_char(d: nat) -> char {
    if d == 0 {
        '0'
    } else if d == 1 {
        '1'
    } else if d == 2 {
        '2'
    } else if d == 3 {
        '3'
    } else if d == 4 {
        '4'
    } else if d == 5 {
        '5'
    } else if d == 6 {
        '6'
    } else if d == 7 {
        '7'
    } else if d == 8 {
        '8'
    } else {
        '9'
    }
}

/// The decimal digits of `n`, most significant first, no leading zeros
/// (except for `n == 0` itself).
pub open spec fn dec_digits(n: nat) -> Seq<char>
    decreases n,
{
    if n < 10 {
        seq![digit_char(n)]
    } else {
        dec_digits(n / 10).push(digit_char(n % 10))
    }
}

/// The one-character string for a decimal digit.
fn digit_str(d: usize) -> (r: &'static str)
    requires
        d < 10,
    ensures
        r@ =~= seq![digit_char(d as nat)],
{
    proof {
        reveal_strlit("0");
        reveal_strlit("1");
        reveal_strlit("2");
        reveal_strlit("3");
        reveal_strlit("4");
        reveal_strlit("5");
        reveal_strlit("6");
        reveal_strlit("7");
        reveal_strlit("8");
        reveal_strlit("9");
    }
    if d == 0 {
        "0"
    } else if d == 1 {
        "1"
    } else if d == 2 {
        "2"
    } else if d == 3 {
        "3"
    } else if d == 4 {
        "4"
    } else if d == 5 {
        "5"
    } else if d == 6 {
        "6"
    } else if d == 7 {
        "7"
    } else if d == 8 {
        "8"
    } else {
        "9"
    }
}

/// Renders `n` in decimal.
pub fn dec_string(n: usize) -> (r: String)
    ensures
        r@ == dec_digits(n as nat),
    decreases n,
{
    if n < 10 {
        let mut s = String::new();
        s.append(digit_str(n));
        proof {
            assert(s@ =~= dec_digits(n as nat));
        }
        s
    } else {
        let mut s = dec_string(n / 10);
        s.append(digit_str(n % 10));
        proof {
            assert(s@ =~= dec_digits(n as nat));
        }
        s
    }
}

/// Identifies a child within its parent: a bare position (array element),
/// or a position together with the field's key (object member).
pub enum Segment {
    Name(usize, String),
    Index(usize),
}

impl Segment {
    /// The child position this selector identifies.
    pub open spec fn spec_index(self) -> usize {
        match self {
            Segment::Name(i, _) => i,
            Segment::Index(i) => i,
        }
    }

    /// The text shown for this child in a child list: the key of an object
    /// field, the decimal position of an array element.
    pub open spec fn spec_label(self) -> Seq<char> {
        match self {
            Segment::Name(_, s) => s@,
            Segment::Index(i) => dec_digits(i as nat),
        }
    }

    /// The text this selector contributes to the breadcrumb: `.key` for an
    /// object field, `[position]` for an array element.
    pub open spec fn spec_breadcrumb(self) -> Seq<char> {
        match self {
            Segment::Name(_, s) => seq!['.'] + s@,
            Segment::Index(i) => seq!['['] + dec_digits(i as nat) + seq![']'],
        }
    }

    /// The position of the child this selector identifies.
    pub fn index(&self) -> (i: usize)
        ensures
            i == self.spec_index(),
    {
        match self {
            Segment::Name(i, _) => *i,
            Segment::Index(i) => *i,
        }
    }

    /// The child-list text of this selector.
    pub fn label_text(&self) -> (r: String)
        ensures
            r@ == self.spec_label(),
    {
        match self {
            Segment::Name(_, s) => s.clone(),
            Segment::Index(i) => dec_string(*i),
        }
    }

    /// The breadcrumb text of this selector.
    pub fn breadcrumb_text(&self) -> (r: String)
        ensures
            r@ == self.spec_breadcrumb(),
    {
        match self {
            Segment::Name(_, s) => {
                let mut r = String::new();
                r.append(".");
                r.append(s.as_str());
                proof {
                    reveal_strlit(".");
                    assert(r@ =~= self.spec_breadcrumb());
                }
                r
            },
            Segment::Index(i) => {
                let mut r = String::new();
                r.append("[");
                let d = dec_string(*i);
                r.append(d.as_str());
                r.append("]");
                proof {
                    reveal_strlit("[");
                    reveal_strlit("]");
                    assert(r@ =~= self.spec_breadcrumb());
                }
                r
            },
        }
    }
}

impl Clone for Segment {
    /// A clone is equal to the original, key included.
    fn clone(&self) -> (r: Self)
        ensures
            r == *self,
    {
        match self {
            Segment::Name(i, s) => Segment::Name(*i, s.clone()),
            Segment::Index(i) => Segment::Index(*i),
        }
    }
}

} // verus!
