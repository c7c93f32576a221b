//! Laws of the validations: what holds of every input, and how the validations relate.

use vstd::prelude::*;

use crate::bound::{text_less, BoundValue};
use crate::error::ValidationErrors;
use crate::validate::{indexed_errors, keyed_errors, outcome_errors};
use crate::validations::{
    is_phone_parse_error, is_url_error, EmailAddressErrorKind, PhoneNumberParseErrorKind,
    UrlParseErrorKind,
    is_email_address_outcome, is_email_outcome, is_length_outcome, is_phone_number_outcome,
    is_range_outcome, is_url_outcome, length_violation, range_violation, EmailAddressError, EmailAddressOptions, EmailError,
    LengthError, PhoneNumberError, RangeError, UrlError,
};

use phonenumber::country::Id as PhoneNumberCountry;

verus! {

/// An absent value is valid, whatever the validation and its parameters.
pub proof fn law_absent_value_is_valid<T: BoundValue>(
    length: Result<(), LengthError<T>>,
    range: Result<(), RangeError<T>>,
    email: Result<(), EmailError>,
    email_address: Result<(), EmailAddressError>,
    url: Result<(), UrlError>,
    phone_number: Result<(), PhoneNumberError>,
    a: Option<T>,
    b: Option<T>,
    c: Option<T>,
    d: Option<T>,
    options: EmailAddressOptions,
    default_country: Option<PhoneNumberCountry>,
    allowed_countries: Option<Vec<PhoneNumberCountry>>,
)
    requires
        is_length_outcome(length, None, a, b, c),
        is_range_outcome(range, None, a, b, c, d),
        is_email_outcome(email, None, options),
        is_email_address_outcome(email_address, None, options),
        is_url_outcome(url, None),
        is_phone_number_outcome(phone_number, None, default_country, allowed_countries),
    ensures
        length is Ok,
        range is Ok,
        email is Ok,
        email_address is Ok,
        url is Ok,
        phone_number is Ok,
{
}

/// A length is valid exactly when it equals the required length, if one is given; otherwise
/// exactly when it is not below the minimum and not above the maximum, where given.
pub proof fn law_length_valid_iff_within_bounds<T: BoundValue>(
    r: Result<(), LengthError<T>>,
    length: T,
    equal: Option<T>,
    min: Option<T>,
    max: Option<T>,
)
    requires
        is_length_outcome(r, Some(length), equal, min, max),
    ensures
        r is Ok <==> match equal {
            Some(e) => length.spec_same(&e),
            None => {
                &&& min matches Some(m) ==> !length.spec_less(&m)
                &&& max matches Some(m) ==> !m.spec_less(&length)
            },
        },
{
}

/// A value is valid exactly when it is not below the minimum, not above the maximum, above
/// the exclusive minimum and below the exclusive maximum, each where given.
pub proof fn law_range_valid_iff_within_bounds<T: BoundValue>(
    r: Result<(), RangeError<T>>,
    value: T,
    min: Option<T>,
    max: Option<T>,
    exclusive_min: Option<T>,
    exclusive_max: Option<T>,
)
    requires
        is_range_outcome(r, Some(value), min, max, exclusive_min, exclusive_max),
    ensures
        r is Ok <==> {
            &&& min matches Some(m) ==> !value.spec_less(&m)
            &&& max matches Some(m) ==> !m.spec_less(&value)
            &&& exclusive_min matches Some(m) ==> !value.spec_less(&m) && !value.spec_same(&m)
            &&& exclusive_max matches Some(m) ==> !m.spec_less(&value) && !value.spec_same(&m)
        },
{
}

/// The two email validations agree: on the same address and options, both are valid, or both
/// fail for the same reason with the same (empty) message.
pub proof fn law_email_validations_agree(
    r1: Result<(), EmailError>,
    r2: Result<(), EmailAddressError>,
    email: Option<Seq<char>>,
    options: EmailAddressOptions,
)
    requires
        is_email_outcome(r1, email, options),
        is_email_address_outcome(r2, email, options),
    ensures
        r1 is Ok <==> r2 is Ok,
        r1 matches Err(e1) ==> (r2 matches Err(e2) && e1.spec_kind() == e2.spec_kind()
            && e1.spec_message() == e2.spec_message()),
{
}

/// A collection is valid exactly when each of its elements is: the combined errors are empty
/// exactly when every element's outcome has no error.
pub proof fn law_indexed_errors_empty_iff_all_valid<E>(outcomes: Seq<Result<(), ValidationErrors<E>>>)
    ensures
        indexed_errors(outcomes).len() == 0 <==> forall|i: int|
            0 <= i < outcomes.len() ==> #[trigger] outcome_errors(outcomes[i]).len() == 0,
    decreases outcomes.len(),
{
    if outcomes.len() > 0 {
        let n = outcomes.len() - 1;
        law_indexed_errors_empty_iff_all_valid(outcomes.drop_last());
        assert forall|i: int| 0 <= i < outcomes.drop_last().len() implies outcomes.drop_last()[i]
            == outcomes[i] by {}
        if indexed_errors(outcomes).len() == 0 {
            assert forall|i: int| 0 <= i < outcomes.len() implies #[trigger] outcome_errors(
                outcomes[i],
            ).len() == 0 by {
                if i < n {
                    assert(outcomes.drop_last()[i] == outcomes[i]);
                }
            }
        }
    }
}

/// A keyed collection is valid exactly when each of its entries is: the combined errors are
/// empty exactly when every entry's outcome has no error.
pub proof fn law_keyed_errors_empty_iff_all_valid<K, E>(
    outcomes: Seq<(K, Result<(), ValidationErrors<E>>)>,
)
    ensures
        keyed_errors(outcomes).len() == 0 <==> forall|i: int|
            0 <= i < outcomes.len() ==> #[trigger] outcome_errors(outcomes[i].1).len() == 0,
    decreases outcomes.len(),
{
    if outcomes.len() > 0 {
        let n = outcomes.len() - 1;
        law_keyed_errors_empty_iff_all_valid(outcomes.drop_last());
        assert forall|i: int| 0 <= i < outcomes.drop_last().len() implies outcomes.drop_last()[i]
            == outcomes[i] by {}
        if keyed_errors(outcomes).len() == 0 {
            assert forall|i: int| 0 <= i < outcomes.len() implies #[trigger] outcome_errors(
                outcomes[i].1,
            ).len() == 0 by {
                if i < n {
                    assert(outcomes.drop_last()[i] == outcomes[i]);
                }
            }
        }
    }
}

/// Every element error keeps its element's position: the combined errors are the errors of the
/// elements, in element order, and the number of them is the sum over the elements.
pub proof fn law_indexed_errors_count<E>(outcomes: Seq<Result<(), ValidationErrors<E>>>)
    ensures
        indexed_errors(outcomes).len() == error_count(outcomes),
    decreases outcomes.len(),
{
    if outcomes.len() > 0 {
        law_indexed_errors_count(outcomes.drop_last());
    }
}

/// The number of errors over a sequence of outcomes.
pub open spec fn error_count<E>(outcomes: Seq<Result<(), ValidationErrors<E>>>) -> nat
    decreases outcomes.len(),
{
    if outcomes.len() == 0 {
        0
    } else {
        error_count(outcomes.drop_last()) + outcome_errors(outcomes.last()).len()
    }
}

/// Texts are ordered totally: of two texts, exactly one comes first, or they are equal.
pub proof fn law_text_order_total(a: Seq<char>, b: Seq<char>)
    ensures
        text_less(a, b) || a == b || text_less(b, a),
        !(text_less(a, b) && text_less(b, a)),
        text_less(a, b) ==> a != b,
    decreases a.len(),
{
    if a.len() > 0 && b.len() > 0 && a[0] == b[0] {
        law_text_order_total(a.drop_first(), b.drop_first());
        if a.drop_first() == b.drop_first() {
            assert(a =~= seq![a[0]] + a.drop_first());
            assert(b =~= seq![b[0]] + b.drop_first());
        }
    } else if a.len() == 0 && b.len() == 0 {
        assert(a =~= b);
    } else if a.len() > 0 && b.len() > 0 {
        assert((a[0] as int) != (b[0] as int));
    }
}

/// The order of texts is transitive.
pub proof fn law_text_order_transitive(a: Seq<char>, b: Seq<char>, c: Seq<char>)
    requires
        text_less(a, b),
        text_less(b, c),
    ensures
        text_less(a, c),
    decreases a.len(),
{
    if a.len() > 0 && b.len() > 0 && c.len() > 0 && a[0] == b[0] && b[0] == c[0] {
        law_text_order_transitive(a.drop_first(), b.drop_first(), c.drop_first());
    }
}

/// Whether the optional lower bound `new` is no tighter than `old`: absent, or at most `old`.
pub open spec fn lower_no_tighter<T: BoundValue>(new: Option<T>, old: Option<T>) -> bool {
    ||| new is None
    ||| (old is Some && new is Some && (new->0.spec_less(&old->0) || new->0.spec_same(&old->0)))
}

/// Whether the optional upper bound `new` is no tighter than `old`: absent, or at least `old`.
pub open spec fn upper_no_tighter<T: BoundValue>(new: Option<T>, old: Option<T>) -> bool {
    ||| new is None
    ||| (old is Some && new is Some && (old->0.spec_less(&new->0) || new->0.spec_same(&old->0)))
}

/// A value that satisfies a lower bound satisfies one that is no tighter.
proof fn lemma_lower_loosened<T: BoundValue>(v: T, old: Option<T>, new: Option<T>, exclusive: bool)
    requires
        lower_no_tighter(new, old),
        old matches Some(b) ==> !v.spec_less(&b) && (exclusive ==> !v.spec_same(&b)),
    ensures
        new matches Some(b) ==> !v.spec_less(&b) && (exclusive ==> !v.spec_same(&b)),
{
    if new is Some {
        let n = new->0;
        let o = old->0;
        // Below a tighter bound is below the looser one (transitivity, or the same bound), and
        // a value equal to the looser exclusive bound would reach the tighter one.
        T::lemma_order(&v, &n, &o);
        T::lemma_order(&n, &o, &v);
        T::lemma_order(&v, &o, &v);
        T::lemma_order(&o, &n, &o);
        T::lemma_order(&n, &o, &n);
    }
}

/// A value that satisfies an upper bound satisfies one that is no tighter.
proof fn lemma_upper_loosened<T: BoundValue>(v: T, old: Option<T>, new: Option<T>, exclusive: bool)
    requires
        upper_no_tighter(new, old),
        old matches Some(b) ==> !b.spec_less(&v) && (exclusive ==> !v.spec_same(&b)),
    ensures
        new matches Some(b) ==> !b.spec_less(&v) && (exclusive ==> !v.spec_same(&b)),
{
    if new is Some {
        let n = new->0;
        let o = old->0;
        // Above a looser bound lies above the tighter one, and a value equal to the looser
        // exclusive bound would reach the tighter one.
        T::lemma_order(&o, &n, &v);
        T::lemma_order(&n, &o, &v);
        T::lemma_order(&v, &o, &v);
        T::lemma_order(&v, &n, &o);
        T::lemma_order(&n, &o, &n);
        T::lemma_order(&n, &o, &o);
    }
}

/// Loosening or dropping the bounds of a range never makes a valid value invalid.
pub proof fn law_range_loosening<T: BoundValue>(
    valid: Result<(), RangeError<T>>,
    loosened: Result<(), RangeError<T>>,
    value: Option<T>,
    min: Option<T>,
    max: Option<T>,
    exclusive_min: Option<T>,
    exclusive_max: Option<T>,
    min2: Option<T>,
    max2: Option<T>,
    exclusive_min2: Option<T>,
    exclusive_max2: Option<T>,
)
    requires
        is_range_outcome(valid, value, min, max, exclusive_min, exclusive_max),
        valid is Ok,
        lower_no_tighter(min2, min),
        upper_no_tighter(max2, max),
        lower_no_tighter(exclusive_min2, exclusive_min),
        upper_no_tighter(exclusive_max2, exclusive_max),
        is_range_outcome(loosened, value, min2, max2, exclusive_min2, exclusive_max2),
    ensures
        loosened is Ok,
{
    if let Some(v) = value {
        assert(range_violation(v, min, max, exclusive_min, exclusive_max) is None);
        lemma_lower_loosened(v, min, min2, false);
        lemma_upper_loosened(v, max, max2, false);
        lemma_lower_loosened(v, exclusive_min, exclusive_min2, true);
        lemma_upper_loosened(v, exclusive_max, exclusive_max2, true);
    }
}

/// Loosening or dropping the minimum and maximum of a length, with the required length kept,
/// never makes a valid length invalid.
pub proof fn law_length_loosening<T: BoundValue>(
    valid: Result<(), LengthError<T>>,
    loosened: Result<(), LengthError<T>>,
    length: Option<T>,
    equal: Option<T>,
    min: Option<T>,
    max: Option<T>,
    min2: Option<T>,
    max2: Option<T>,
)
    requires
        is_length_outcome(valid, length, equal, min, max),
        valid is Ok,
        lower_no_tighter(min2, min),
        upper_no_tighter(max2, max),
        is_length_outcome(loosened, length, equal, min2, max2),
    ensures
        loosened is Ok,
{
    if let Some(l) = length {
        assert(length_violation(l, equal, min, max) is None);
        if equal is None {
            lemma_lower_loosened(l, min, min2, false);
            lemma_upper_loosened(l, max, max2, false);
        }
    }
}

/// The error for a parse failure keeps its kind: failures of different kinds are reported as
/// different errors, by email, email address, URL and phone number validation alike.
pub proof fn law_error_kinds_distinct(
    k1: EmailAddressErrorKind,
    k2: EmailAddressErrorKind,
    a1: EmailAddressError,
    a2: EmailAddressError,
    m1: EmailError,
    m2: EmailError,
    u1: UrlParseErrorKind,
    u2: UrlParseErrorKind,
    t1: Seq<char>,
    t2: Seq<char>,
    ue1: UrlError,
    ue2: UrlError,
    p1: PhoneNumberParseErrorKind,
    p2: PhoneNumberParseErrorKind,
    pe1: PhoneNumberError,
    pe2: PhoneNumberError,
)
    requires
        a1.spec_kind() == k1,
        a2.spec_kind() == k2,
        m1.spec_kind() == k1,
        m2.spec_kind() == k2,
        is_url_error(ue1, u1, t1),
        is_url_error(ue2, u2, t2),
        is_phone_parse_error(pe1, p1),
        is_phone_parse_error(pe2, p2),
    ensures
        k1 != k2 ==> a1 != a2 && m1 != m2,
        u1 != u2 ==> ue1 != ue2,
        p1 != p2 ==> pe1 != pe2,
{
}

/// Widening the list of allowed countries, or dropping it, never makes a valid phone number
/// invalid.
pub proof fn law_phone_allowed_widening(
    valid: Result<(), PhoneNumberError>,
    widened: Result<(), PhoneNumberError>,
    dropped: Result<(), PhoneNumberError>,
    text: Option<Seq<char>>,
    default_country: Option<PhoneNumberCountry>,
    allowed: Vec<PhoneNumberCountry>,
    wider: Vec<PhoneNumberCountry>,
)
    requires
        is_phone_number_outcome(valid, text, default_country, Some(allowed)),
        valid is Ok,
        forall|c: PhoneNumberCountry| allowed@.contains(c) ==> wider@.contains(c),
        is_phone_number_outcome(widened, text, default_country, Some(wider)),
        is_phone_number_outcome(dropped, text, default_country, None),
    ensures
        widened is Ok,
        dropped is Ok,
{
}

} // verus!
