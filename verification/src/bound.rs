//! Values that bounds are checked against: ordered, comparable and printable.

use vstd::prelude::*;

use crate::laws::{law_text_order_total, law_text_order_transitive};
use crate::text::{decimal, push_char, push_decimal, push_signed_decimal, push_str, signed_decimal};

verus! {

/// A value that can be compared with a bound and rendered in an error message.
///
/// `spec_less` is the order that `<` gives the type, `spec_same` the equality that `==` gives
/// it, and `spec_text` what `Display` prints for it.
pub trait BoundValue: Sized {
    /// Whether `self` is strictly less than `other`.
    spec fn spec_less(&self, other: &Self) -> bool;

    /// Whether `self` equals `other`.
    spec fn spec_same(&self, other: &Self) -> bool;

    /// The text of the value.
    spec fn spec_text(&self) -> Seq<char>;

    /// `spec_less` is a strict total order, and `spec_same` the equivalence that goes with it:
    /// values that are the same compare alike with every value.
    proof fn lemma_order(a: &Self, b: &Self, c: &Self)
        ensures
            !a.spec_less(a),
            a.spec_less(b) && b.spec_less(c) ==> a.spec_less(c),
            a.spec_less(b) || a.spec_same(b) || b.spec_less(a),
            a.spec_same(b) ==> a.spec_less(c) == b.spec_less(c) && c.spec_less(a) == c.spec_less(
                b,
            ),
    ;

    /// Whether `self` is strictly less than `other`.
    fn less_than(&self, other: &Self) -> (r: bool)
        ensures
            r == self.spec_less(other),
    ;

    /// Whether `self` equals `other`.
    fn same_as(&self, other: &Self) -> (r: bool)
        ensures
            r == self.spec_same(other),
    ;

    /// Appends the text of the value to `out`.
    fn push_text(&self, out: &mut String)
        ensures
            final(out)@ == old(out)@ + self.spec_text(),
    ;
}

/// Lexicographic order of texts by character (the order of `str`, since UTF-8 keeps the order
/// of code points).
pub open spec fn text_less(a: Seq<char>, b: Seq<char>) -> bool
    decreases a.len(),
{
    if a.len() == 0 {
        b.len() > 0
    } else if b.len() == 0 {
        false
    } else if a[0] != b[0] {
        (a[0] as int) < (b[0] as int)
    } else {
        text_less(a.drop_first(), b.drop_first())
    }
}

/// The outcome of comparing two texts.
#[derive(PartialEq, Eq, Structural, Clone, Copy, Debug)]
pub enum TextOrder {
    /// The first text comes first.
    Less,
    /// The texts are equal.
    Equal,
    /// The second text comes first.
    Greater,
}

proof fn lemma_text_less_step(a: Seq<char>, b: Seq<char>, i: int)
    requires
        0 <= i < a.len(),
        i < b.len(),
        a[i] == b[i],
    ensures
        text_less(a.skip(i), b.skip(i)) == text_less(a.skip(i + 1), b.skip(i + 1)),
        text_less(b.skip(i), a.skip(i)) == text_less(b.skip(i + 1), a.skip(i + 1)),
{
    assert(a.skip(i).drop_first() =~= a.skip(i + 1));
    assert(b.skip(i).drop_first() =~= b.skip(i + 1));
}

/// Compares two texts lexicographically by character.
pub fn text_order(a: &str, b: &str) -> (r: TextOrder)
    ensures
        (r == TextOrder::Less) == text_less(a@, b@),
        (r == TextOrder::Equal) == (a@ == b@),
        (r == TextOrder::Greater) == text_less(b@, a@),
{
    let la = a.unicode_len();
    let lb = b.unicode_len();
    let mut i: usize = 0;
    assert(a@.skip(0) =~= a@);
    assert(b@.skip(0) =~= b@);
    while i < la && i < lb
        invariant
            0 <= i <= la,
            i <= lb,
            la == a@.len(),
            lb == b@.len(),
            a@.take(i as int) =~= b@.take(i as int),
            text_less(a@, b@) == text_less(a@.skip(i as int), b@.skip(i as int)),
            text_less(b@, a@) == text_less(b@.skip(i as int), a@.skip(i as int)),
        decreases la - i,
    {
        let ca = a.get_char(i);
        let cb = b.get_char(i);
        if ca != cb {
            assert(a@.skip(i as int)[0] == ca);
            assert(b@.skip(i as int)[0] == cb);
            assert(a@[i as int] != b@[i as int]);
            if ca < cb {
                return TextOrder::Less;
            } else {
                return TextOrder::Greater;
            }
        }
        proof {
            lemma_text_less_step(a@, b@, i as int);
            assert(a@.take(i + 1) =~= a@.take(i as int).push(ca));
            assert(b@.take(i + 1) =~= b@.take(i as int).push(cb));
        }
        i = i + 1;
    }
    if i == la && i == lb {
        assert(a@ =~= a@.take(i as int));
        assert(b@ =~= b@.take(i as int));
        TextOrder::Equal
    } else if i == la {
        assert(a@.len() != b@.len());
        TextOrder::Less
    } else {
        assert(a@.len() != b@.len());
        TextOrder::Greater
    }
}

impl BoundValue for u8 {
    open spec fn spec_less(&self, other: &Self) -> bool {
        *self < *other
    }

    open spec fn spec_same(&self, other: &Self) -> bool {
        *self == *other
    }

    open spec fn spec_text(&self) -> Seq<char> {
        decimal(*self as nat)
    }

    proof fn lemma_order(a: &Self, b: &Self, c: &Self) {
    }

    fn less_than(&self, other: &Self) -> (r: bool) {
        *self < *other
    }

    fn same_as(&self, other: &Self) -> (r: bool) {
        *self == *other
    }

    fn push_text(&self, out: &mut String) {
        push_decimal(out, *self as u128);
    }
}

impl BoundValue for u16 {
    open spec fn spec_less(&self, other: &Self) -> bool {
        *self < *other
    }

    open spec fn spec_same(&self, other: &Self) -> bool {
        *self == *other
    }

    open spec fn spec_text(&self) -> Seq<char> {
        decimal(*self as nat)
    }

    proof fn lemma_order(a: &Self, b: &Self, c: &Self) {
    }

    fn less_than(&self, other: &Self) -> (r: bool) {
        *self < *other
    }

    fn same_as(&self, other: &Self) -> (r: bool) {
        *self == *other
    }

    fn push_text(&self, out: &mut String) {
        push_decimal(out, *self as u128);
    }
}

impl BoundValue for u32 {
    open spec fn spec_less(&self, other: &Self) -> bool {
        *self < *other
    }

    open spec fn spec_same(&self, other: &Self) -> bool {
        *self == *other
    }

    open spec fn spec_text(&self) -> Seq<char> {
        decimal(*self as nat)
    }

    proof fn lemma_order(a: &Self, b: &Self, c: &Self) {
    }

    fn less_than(&self, other: &Self) -> (r: bool) {
        *self < *other
    }

    fn same_as(&self, other: &Self) -> (r: bool) {
        *self == *other
    }

    fn push_text(&self, out: &mut String) {
        push_decimal(out, *self as u128);
    }
}

impl BoundValue for u64 {
    open spec fn spec_less(&self, other: &Self) -> bool {
        *self < *other
    }

    open spec fn spec_same(&self, other: &Self) -> bool {
        *self == *other
    }

    open spec fn spec_text(&self) -> Seq<char> {
        decimal(*self as nat)
    }

    proof fn lemma_order(a: &Self, b: &Self, c: &Self) {
    }

    fn less_than(&self, other: &Self) -> (r: bool) {
        *self < *other
    }

    fn same_as(&self, other: &Self) -> (r: bool) {
        *self == *other
    }

    fn push_text(&self, out: &mut String) {
        push_decimal(out, *self as u128);
    }
}

impl BoundValue for u128 {
    open spec fn spec_less(&self, other: &Self) -> bool {
        *self < *other
    }

    open spec fn spec_same(&self, other: &Self) -> bool {
        *self == *other
    }

    open spec fn spec_text(&self) -> Seq<char> {
        decimal(*self as nat)
    }

    proof fn lemma_order(a: &Self, b: &Self, c: &Self) {
    }

    fn less_than(&self, other: &Self) -> (r: bool) {
        *self < *other
    }

    fn same_as(&self, other: &Self) -> (r: bool) {
        *self == *other
    }

    fn push_text(&self, out: &mut String) {
        push_decimal(out, *self as u128);
    }
}

impl BoundValue for usize {
    open spec fn spec_less(&self, other: &Self) -> bool {
        *self < *other
    }

    open spec fn spec_same(&self, other: &Self) -> bool {
        *self == *other
    }

    open spec fn spec_text(&self) -> Seq<char> {
        decimal(*self as nat)
    }

    proof fn lemma_order(a: &Self, b: &Self, c: &Self) {
    }

    fn less_than(&self, other: &Self) -> (r: bool) {
        *self < *other
    }

    fn same_as(&self, other: &Self) -> (r: bool) {
        *self == *other
    }

    fn push_text(&self, out: &mut String) {
        push_decimal(out, *self as u128);
    }
}

impl BoundValue for i8 {
    open spec fn spec_less(&self, other: &Self) -> bool {
        *self < *other
    }

    open spec fn spec_same(&self, other: &Self) -> bool {
        *self == *other
    }

    open spec fn spec_text(&self) -> Seq<char> {
        signed_decimal(*self as int)
    }

    proof fn lemma_order(a: &Self, b: &Self, c: &Self) {
    }

    fn less_than(&self, other: &Self) -> (r: bool) {
        *self < *other
    }

    fn same_as(&self, other: &Self) -> (r: bool) {
        *self == *other
    }

    fn push_text(&self, out: &mut String) {
        push_signed_decimal(out, *self as i128);
    }
}

impl BoundValue for i16 {
    open spec fn spec_less(&self, other: &Self) -> bool {
        *self < *other
    }

    open spec fn spec_same(&self, other: &Self) -> bool {
        *self == *other
    }

    open spec fn spec_text(&self) -> Seq<char> {
        signed_decimal(*self as int)
    }

    proof fn lemma_order(a: &Self, b: &Self, c: &Self) {
    }

    fn less_than(&self, other: &Self) -> (r: bool) {
        *self < *other
    }

    fn same_as(&self, other: &Self) -> (r: bool) {
        *self == *other
    }

    fn push_text(&self, out: &mut String) {
        push_signed_decimal(out, *self as i128);
    }
}

impl BoundValue for i32 {
    open spec fn spec_less(&self, other: &Self) -> bool {
        *self < *other
    }

    open spec fn spec_same(&self, other: &Self) -> bool {
        *self == *other
    }

    open spec fn spec_text(&self) -> Seq<char> {
        signed_decimal(*self as int)
    }

    proof fn lemma_order(a: &Self, b: &Self, c: &Self) {
    }

    fn less_than(&self, other: &Self) -> (r: bool) {
        *self < *other
    }

    fn same_as(&self, other: &Self) -> (r: bool) {
        *self == *other
    }

    fn push_text(&self, out: &mut String) {
        push_signed_decimal(out, *self as i128);
    }
}

impl BoundValue for i64 {
    open spec fn spec_less(&self, other: &Self) -> bool {
        *self < *other
    }

    open spec fn spec_same(&self, other: &Self) -> bool {
        *self == *other
    }

    open spec fn spec_text(&self) -> Seq<char> {
        signed_decimal(*self as int)
    }

    proof fn lemma_order(a: &Self, b: &Self, c: &Self) {
    }

    fn less_than(&self, other: &Self) -> (r: bool) {
        *self < *other
    }

    fn same_as(&self, other: &Self) -> (r: bool) {
        *self == *other
    }

    fn push_text(&self, out: &mut String) {
        push_signed_decimal(out, *self as i128);
    }
}

impl BoundValue for i128 {
    open spec fn spec_less(&self, other: &Self) -> bool {
        *self < *other
    }

    open spec fn spec_same(&self, other: &Self) -> bool {
        *self == *other
    }

    open spec fn spec_text(&self) -> Seq<char> {
        signed_decimal(*self as int)
    }

    proof fn lemma_order(a: &Self, b: &Self, c: &Self) {
    }

    fn less_than(&self, other: &Self) -> (r: bool) {
        *self < *other
    }

    fn same_as(&self, other: &Self) -> (r: bool) {
        *self == *other
    }

    fn push_text(&self, out: &mut String) {
        push_signed_decimal(out, *self as i128);
    }
}

impl BoundValue for isize {
    open spec fn spec_less(&self, other: &Self) -> bool {
        *self < *other
    }

    open spec fn spec_same(&self, other: &Self) -> bool {
        *self == *other
    }

    open spec fn spec_text(&self) -> Seq<char> {
        signed_decimal(*self as int)
    }

    proof fn lemma_order(a: &Self, b: &Self, c: &Self) {
    }

    fn less_than(&self, other: &Self) -> (r: bool) {
        *self < *other
    }

    fn same_as(&self, other: &Self) -> (r: bool) {
        *self == *other
    }

    fn push_text(&self, out: &mut String) {
        push_signed_decimal(out, *self as i128);
    }
}

impl BoundValue for bool {
    open spec fn spec_less(&self, other: &Self) -> bool {
        !*self && *other
    }

    open spec fn spec_same(&self, other: &Self) -> bool {
        *self == *other
    }

    open spec fn spec_text(&self) -> Seq<char> {
        if *self {
            seq!['t', 'r', 'u', 'e']
        } else {
            seq!['f', 'a', 'l', 's', 'e']
        }
    }

    proof fn lemma_order(a: &Self, b: &Self, c: &Self) {
    }

    fn less_than(&self, other: &Self) -> (r: bool) {
        !*self && *other
    }

    fn same_as(&self, other: &Self) -> (r: bool) {
        *self == *other
    }

    fn push_text(&self, out: &mut String) {
        if *self {
            push_str(out, "true");
            proof {
                reveal_strlit("true");
            }
        } else {
            push_str(out, "false");
            proof {
                reveal_strlit("false");
            }
        }
    }
}

impl BoundValue for char {
    open spec fn spec_less(&self, other: &Self) -> bool {
        (*self as int) < (*other as int)
    }

    open spec fn spec_same(&self, other: &Self) -> bool {
        *self == *other
    }

    open spec fn spec_text(&self) -> Seq<char> {
        seq![*self]
    }

    proof fn lemma_order(a: &Self, b: &Self, c: &Self) {
    }

    fn less_than(&self, other: &Self) -> (r: bool) {
        *self < *other
    }

    fn same_as(&self, other: &Self) -> (r: bool) {
        *self == *other
    }

    fn push_text(&self, out: &mut String) {
        push_char(out, *self);
        assert(old(out)@.push(*self) =~= old(out)@ + seq![*self]);
    }
}

impl<'a> BoundValue for &'a str {
    open spec fn spec_less(&self, other: &Self) -> bool {
        text_less(self@, other@)
    }

    open spec fn spec_same(&self, other: &Self) -> bool {
        self@ == other@
    }

    open spec fn spec_text(&self) -> Seq<char> {
        self@
    }

    proof fn lemma_order(a: &Self, b: &Self, c: &Self) {
        law_text_order_total(a@, a@);
        law_text_order_total(a@, b@);
        if text_less(a@, b@) && text_less(b@, c@) {
            law_text_order_transitive(a@, b@, c@);
        }
    }

    fn less_than(&self, other: &Self) -> (r: bool) {
        text_order(*self, *other) == TextOrder::Less
    }

    fn same_as(&self, other: &Self) -> (r: bool) {
        text_order(*self, *other) == TextOrder::Equal
    }

    fn push_text(&self, out: &mut String) {
        push_str(out, *self);
    }
}

impl BoundValue for String {
    open spec fn spec_less(&self, other: &Self) -> bool {
        text_less(self@, other@)
    }

    open spec fn spec_same(&self, other: &Self) -> bool {
        self@ == other@
    }

    open spec fn spec_text(&self) -> Seq<char> {
        self@
    }

    proof fn lemma_order(a: &Self, b: &Self, c: &Self) {
        law_text_order_total(a@, a@);
        law_text_order_total(a@, b@);
        if text_less(a@, b@) && text_less(b@, c@) {
            law_text_order_transitive(a@, b@, c@);
        }
    }

    fn less_than(&self, other: &Self) -> (r: bool) {
        text_order(self.as_str(), other.as_str()) == TextOrder::Less
    }

    fn same_as(&self, other: &Self) -> (r: bool) {
        text_order(self.as_str(), other.as_str()) == TextOrder::Equal
    }

    fn push_text(&self, out: &mut String) {
        push_str(out, self.as_str());
    }
}

} // verus!
