//! The loosely typed structured value that a notification arrives as.

use vstd::prelude::*;

use crate::text::text_eq;

verus! {

/// A number as the feed writes it: a sign, a decimal mantissa and a decimal
/// exponent. Its value is `mantissa * 10^exponent`, negated where `positive`
/// is false.
#[derive(Debug, Clone, Copy, PartialEq, Eq)]
pub struct RawNumber {
    pub positive: bool,
    pub mantissa: u64,
    pub exponent: i16,
}

impl RawNumber {
    /// The number as an unsigned integer, where it is written as one: with a
    /// positive sign and no exponent. A fraction, a number in exponent
    /// notation and a negative zero are none.
    pub open spec fn spec_as_unsigned(self) -> Option<u64> {
        if self.positive && self.exponent == 0 {
            Some(self.mantissa)
        } else {
            None
        }
    }

    /// The number as an unsigned integer, where it is written as one.
    #[verifier::when_used_as_spec(spec_as_unsigned)]
    pub fn as_unsigned(self) -> (value: Option<u64>)
        ensures
            value == self.spec_as_unsigned(),
    {
        if self.positive && self.exponent == 0 {
            Some(self.mantissa)
        } else {
            None
        }
    }
}

/// One notification, before it is classified: a tree of objects, arrays,
/// strings, numbers and booleans.
#[derive(Debug, PartialEq, Eq)]
pub enum RawPayload {
    Null,
    Boolean(bool),
    Number(RawNumber),
    Text(String),
    Array(Vec<RawPayload>),
    /// The fields of an object, in the order they were written.
    Object(Vec<(String, RawPayload)>),
}

/// A [`RawPayload`] as contracts see it.
pub enum PayloadView {
    Null,
    Boolean(bool),
    Number(RawNumber),
    Text(Seq<char>),
    Array(Seq<PayloadView>),
    Object(Seq<(Seq<char>, PayloadView)>),
}

impl View for RawPayload {
    type V = PayloadView;

    open spec fn view(&self) -> PayloadView
        decreases self,
    {
        match self {
            RawPayload::Null => PayloadView::Null,
            RawPayload::Boolean(b) => PayloadView::Boolean(*b),
            RawPayload::Number(n) => PayloadView::Number(*n),
            RawPayload::Text(s) => PayloadView::Text(s@),
            RawPayload::Array(items) => PayloadView::Array(
                Seq::new(
                    items@.len(),
                    |i: int|
                        if 0 <= i < items@.len() {
                            items@[i]@
                        } else {
                            PayloadView::Null
                        },
                ),
            ),
            RawPayload::Object(fields) => PayloadView::Object(
                Seq::new(
                    fields@.len(),
                    |i: int|
                        if 0 <= i < fields@.len() {
                            (fields@[i].0@, fields@[i].1@)
                        } else {
                            (Seq::empty(), PayloadView::Null)
                        },
                ),
            ),
        }
    }
}

/// The value of the first field at or after position `from` that is named
/// `name`.
pub open spec fn first_named(
    fields: Seq<(Seq<char>, PayloadView)>,
    name: Seq<char>,
    from: int,
) -> Option<PayloadView>
    decreases fields.len() - from,
{
    if from < 0 || from >= fields.len() {
        None
    } else if fields[from].0 == name {
        Some(fields[from].1)
    } else {
        first_named(fields, name, from + 1)
    }
}

/// What [`first_named`] finds is the value of the field with the least
/// position from `from` on among those named `name`; it finds nothing exactly
/// where no field from `from` on has that name.
pub proof fn lemma_first_named(
    fields: Seq<(Seq<char>, PayloadView)>,
    name: Seq<char>,
    from: int,
)
    requires
        0 <= from,
    ensures
        first_named(fields, name, from) is None <==> forall|i: int|
            from <= i < fields.len() ==> (#[trigger] fields[i]).0 != name,
        first_named(fields, name, from) is Some ==> exists|i: int|
            {
                &&& from <= i < fields.len()
                &&& #[trigger] fields[i] == (name, first_named(fields, name, from)->0)
                &&& forall|j: int| from <= j < i ==> (#[trigger] fields[j]).0 != name
            },
    decreases fields.len() - from,
{
    if from < fields.len() {
        if fields[from].0 == name {
            assert(fields[from] == (name, first_named(fields, name, from)->0));
        } else {
            lemma_first_named(fields, name, from + 1);
            if first_named(fields, name, from) is Some {
                let i = choose|i: int|
                    {
                        &&& from + 1 <= i < fields.len()
                        &&& #[trigger] fields[i] == (name, first_named(fields, name, from + 1)->0)
                        &&& forall|j: int| from + 1 <= j < i ==> (#[trigger] fields[j]).0 != name
                    };
                assert(fields[i] == (name, first_named(fields, name, from)->0));
                assert forall|j: int| from <= j < i implies (#[trigger] fields[j]).0 != name by {
                    if j > from {
                    }
                }
            } else {
                assert forall|i: int| from <= i < fields.len() implies (#[trigger] fields[i]).0
                    != name by {
                    if i > from {
                    }
                }
            }
        }
    }
}

/// The views of a run of payloads.
pub open spec fn views_of(items: Seq<RawPayload>) -> Seq<PayloadView> {
    Seq::new(items.len(), |i: int| items[i]@)
}

/// The views of a run of named fields.
pub open spec fn field_views_of(fields: Seq<(String, RawPayload)>) -> Seq<(Seq<char>, PayloadView)> {
    Seq::new(fields.len(), |i: int| (fields[i].0@, fields[i].1@))
}

/// The view of an array holds the views of its elements, in their order.
pub proof fn lemma_view_of_array(items: Vec<RawPayload>)
    ensures
        RawPayload::Array(items)@ == PayloadView::Array(views_of(items@)),
{
    reveal_with_fuel(<RawPayload as View>::view, 2);
    assert(RawPayload::Array(items)@->Array_0 =~= views_of(items@));
}

/// The view of an object holds the names and the views of its fields, in
/// their order.
pub proof fn lemma_view_of_object(fields: Vec<(String, RawPayload)>)
    ensures
        RawPayload::Object(fields)@ == PayloadView::Object(field_views_of(fields@)),
{
    reveal_with_fuel(<RawPayload as View>::view, 2);
    assert(RawPayload::Object(fields)@->Object_0 =~= field_views_of(fields@));
}

impl PayloadView {
    /// The value of the first field named `name`, where this is an object
    /// that has one.
    pub open spec fn field(self, name: Seq<char>) -> Option<PayloadView> {
        match self {
            PayloadView::Object(fields) => first_named(fields, name, 0),
            _ => None,
        }
    }

    /// Whether this is an object with a field named `name`.
    pub open spec fn has_field(self, name: Seq<char>) -> bool {
        match self {
            PayloadView::Object(fields) => exists|i: int|
                0 <= i < fields.len() && (#[trigger] fields[i]).0 == name,
            _ => false,
        }
    }

    /// A field is found exactly where the payload has one of that name.
    pub proof fn lemma_field_found_iff_present(self, name: Seq<char>)
        ensures
            self.field(name) is Some <==> self.has_field(name),
    {
        if let PayloadView::Object(fields) = self {
            lemma_first_named(fields, name, 0);
        }
    }

    /// The elements, where this is an array.
    pub open spec fn items(self) -> Option<Seq<PayloadView>> {
        match self {
            PayloadView::Array(items) => Some(items),
            _ => None,
        }
    }

    /// The characters, where this is a string.
    pub open spec fn as_text(self) -> Option<Seq<char>> {
        match self {
            PayloadView::Text(text) => Some(text),
            _ => None,
        }
    }

    /// The flag, where this is a boolean.
    pub open spec fn as_bool(self) -> Option<bool> {
        match self {
            PayloadView::Boolean(flag) => Some(flag),
            _ => None,
        }
    }

    /// The integer, where this is a number written as an unsigned integer.
    pub open spec fn as_unsigned(self) -> Option<u64> {
        match self {
            PayloadView::Number(number) => number.spec_as_unsigned(),
            _ => None,
        }
    }

    /// The integer, where this is an unsigned integer of at most 255.
    pub open spec fn as_u8(self) -> Option<u8> {
        match self.as_unsigned() {
            Some(value) if value <= u8::MAX => Some(value as u8),
            _ => None,
        }
    }

    /// The integer, where this is an unsigned integer that a `usize` holds.
    pub open spec fn as_usize(self) -> Option<usize> {
        match self.as_unsigned() {
            Some(value) if value <= usize::MAX => Some(value as usize),
            _ => None,
        }
    }
}

impl RawPayload {
    /// Looks up the first field named `name`. A payload that is no object has
    /// no fields.
    pub fn field(&self, name: &str) -> (found: Option<&RawPayload>)
        ensures
            found matches Some(value) ==> self@.field(name@) == Some(value@),
            found is None ==> self@.field(name@) is None,
    {
        match self {
            RawPayload::Object(fields) => {
                let ghost views = field_views_of(fields@);
                proof {
                    lemma_view_of_object(*fields);
                }
                let mut i: usize = 0;
                while i < fields.len()
                    invariant
                        i <= fields.len(),
                        views == field_views_of(fields@),
                        self@.field(name@) == first_named(views, name@, i as int),
                    decreases fields.len() - i,
                {
                    if text_eq(fields[i].0.as_str(), name) {
                        return Some(&fields[i].1);
                    }
                    i += 1;
                }
                None
            },
            _ => None,
        }
    }

    /// The elements of an array.
    pub fn items(&self) -> (items: Option<&Vec<RawPayload>>)
        ensures
            items matches Some(v) ==> self@.items() == Some(views_of(v@)),
            items is None ==> self@.items() is None,
    {
        match self {
            RawPayload::Array(items) => {
                proof {
                    lemma_view_of_array(*items);
                }
                Some(items)
            },
            _ => None,
        }
    }

    /// The characters of a string.
    pub fn as_text(&self) -> (text: Option<&str>)
        ensures
            text matches Some(t) ==> self@.as_text() == Some(t@),
            text is None ==> self@.as_text() is None,
    {
        match self {
            RawPayload::Text(text) => Some(text.as_str()),
            _ => None,
        }
    }

    /// The flag of a boolean.
    pub fn as_bool(&self) -> (flag: Option<bool>)
        ensures
            flag == self@.as_bool(),
    {
        match self {
            RawPayload::Boolean(flag) => Some(*flag),
            _ => None,
        }
    }

    /// The value of an unsigned integer of at most 255.
    pub fn as_u8(&self) -> (value: Option<u8>)
        ensures
            value == self@.as_u8(),
    {
        match self {
            RawPayload::Number(number) => match number.as_unsigned() {
                Some(value) => if value <= 255 {
                    Some(value as u8)
                } else {
                    None
                },
                None => None,
            },
            _ => None,
        }
    }

    /// The value of an unsigned integer that a `usize` holds.
    pub fn as_usize(&self) -> (value: Option<usize>)
        ensures
            value == self@.as_usize(),
    {
        match self {
            RawPayload::Number(number) => match number.as_unsigned() {
                Some(value) => if value <= usize::MAX as u64 {
                    Some(value as usize)
                } else {
                    None
                },
                None => None,
            },
            _ => None,
        }
    }
}

} // verus!
