//! Conversions between vectors and arrays, and from a dynamic value to a
//! value, by the standard conversion traits. A vector becomes an array under
//! the element tag of its type; an array is read as a vector under that tag, or
//! under its own where that is the machine-integer tag of the same type.
//! Booleans are held as 16-bit booleans.

use vstd::prelude::*;
use crate::element::Element;
use crate::errors::Error;
use crate::safearray::{
    lemma_cut_tag, lemma_vector_round_trip, spec_from_vector, spec_into_vector, views_of, SafeArray,
    SafeArrayView,
};
use crate::value::{Value, ValueView};
use crate::variant::{spec_value, Variant};
use crate::vartype::{VARIANT_FALSE, VARIANT_TRUE, VT_BOOL};

verus! {

/// The array that is made of a vector of `T`: the one made under the element
/// tag of `T`.
pub open spec fn spec_make<T: Element>(items: Seq<T::V>) -> Result<SafeArrayView, Error> {
    spec_from_vector::<T>(T::tag(), items)
}

/// The vector of `T` that an array is read as: behind a null handle a
/// null-pointer error, else the vector read under the tag that `T` expects of
/// an array with this element tag.
pub open spec fn spec_read<T: Element>(a: SafeArrayView) -> Result<Seq<T::V>, Error> {
    match a.buffer {
        None => Err(Error::NullPointer),
        Some(b) => spec_into_vector::<T>(a, T::expects(b.vt as int)),
    }
}

/// The 16-bit boolean that stands for a boolean: all ones for true, zero for false.
pub open spec fn bool_word(b: bool) -> i16 {
    if b {
        VARIANT_TRUE
    } else {
        VARIANT_FALSE
    }
}

/// The array that is made of a vector of booleans: an array of 16-bit booleans.
pub open spec fn spec_make_bools(items: Seq<bool>) -> Result<SafeArrayView, Error> {
    spec_from_vector::<i16>(VT_BOOL, items.map_values(|b: bool| bool_word(b)))
}

/// The vector of booleans that an array of 16-bit booleans is read as: an
/// element is true unless it is zero.
pub open spec fn spec_read_bools(a: SafeArrayView) -> Result<Seq<bool>, Error> {
    match spec_into_vector::<i16>(a, VT_BOOL) {
        Ok(words) => Ok(words.map_values(|w: i16| w != 0)),
        Err(e) => Err(e),
    }
}

/// The 16-bit booleans of a vector of booleans.
fn words_of(items: &Vec<bool>) -> (words: Vec<i16>)
    ensures
        views_of(words@) == items@.map_values(|b: bool| bool_word(b)),
{
    let mut words: Vec<i16> = Vec::new();
    let mut i: usize = 0;
    while i < items.len()
        invariant
            i <= items.len(),
            words.len() == i,
            forall|k: int| 0 <= k < i ==> #[trigger] words@[k] == bool_word(items@[k]),
        decreases items.len() - i,
    {
        words.push(if items[i] { VARIANT_TRUE } else { VARIANT_FALSE });
        i += 1;
    }
    assert(views_of(words@) =~= items@.map_values(|b: bool| bool_word(b)));
    words
}

/// The booleans of a vector of 16-bit booleans.
fn bools_of(words: &Vec<i16>) -> (items: Vec<bool>)
    ensures
        items@ == views_of(words@).map_values(|w: i16| w != 0),
{
    let mut items: Vec<bool> = Vec::new();
    let mut i: usize = 0;
    while i < words.len()
        invariant
            i <= words.len(),
            items.len() == i,
            forall|k: int| 0 <= k < i ==> #[trigger] items@[k] == (words@[k] != 0),
        decreases words.len() - i,
    {
        items.push(words[i] != 0);
        i += 1;
    }
    assert(items@ =~= views_of(words@).map_values(|w: i16| w != 0));
    items
}

impl<'a, T: Element> TryFrom<&'a Vec<T>> for SafeArray {
    type Error = Error;

    /// The owned array of one dimension that holds the items of the vector in order.
    fn try_from(value: &'a Vec<T>) -> (r: Result<SafeArray, Error>)
        ensures
            match r {
                Ok(a) => spec_make::<T>(views_of(value@)) == Ok::<SafeArrayView, Error>(a@) && a@.wf(),
                Err(e) => spec_make::<T>(views_of(value@)) == Err::<SafeArrayView, Error>(e),
            },
    {
        SafeArray::from_vector(T::default_tag(), value)
    }
}

// What a conversion gives is stated by `try_from` itself, over views: the values
// made here hold strings and vectors, which no spec function can name. So the
// conversions of this file promise nothing through `try_from_spec`.
impl<'a, T: Element> vstd::std_specs::convert::TryFromSpecImpl<&'a Vec<T>> for SafeArray {
    open spec fn obeys_try_from_spec() -> bool {
        false
    }

    open spec fn try_from_spec(value: &'a Vec<T>) -> Result<SafeArray, Error> {
        arbitrary()
    }
}

impl<T: Element> TryFrom<Vec<T>> for SafeArray {
    type Error = Error;

    /// The owned array of one dimension that holds the items of the vector in order.
    fn try_from(value: Vec<T>) -> (r: Result<SafeArray, Error>)
        ensures
            match r {
                Ok(a) => spec_make::<T>(views_of(value@)) == Ok::<SafeArrayView, Error>(a@) && a@.wf(),
                Err(e) => spec_make::<T>(views_of(value@)) == Err::<SafeArrayView, Error>(e),
            },
    {
        SafeArray::from_vector(T::default_tag(), &value)
    }
}

impl<T: Element> vstd::std_specs::convert::TryFromSpecImpl<Vec<T>> for SafeArray {
    open spec fn obeys_try_from_spec() -> bool {
        false
    }

    open spec fn try_from_spec(value: Vec<T>) -> Result<SafeArray, Error> {
        arbitrary()
    }
}

impl<'a> TryFrom<&'a Vec<bool>> for SafeArray {
    type Error = Error;

    /// The owned array of one dimension that holds the booleans of the vector, as 16-bit booleans in order.
    fn try_from(value: &'a Vec<bool>) -> (r: Result<SafeArray, Error>)
        ensures
            match r {
                Ok(a) => spec_make_bools(value@) == Ok::<SafeArrayView, Error>(a@) && a@.wf(),
                Err(e) => spec_make_bools(value@) == Err::<SafeArrayView, Error>(e),
            },
    {
        SafeArray::from_vector::<i16>(VT_BOOL, &words_of(value))
    }
}

impl<'a> vstd::std_specs::convert::TryFromSpecImpl<&'a Vec<bool>> for SafeArray {
    open spec fn obeys_try_from_spec() -> bool {
        false
    }

    open spec fn try_from_spec(value: &'a Vec<bool>) -> Result<SafeArray, Error> {
        arbitrary()
    }
}

impl TryFrom<Vec<bool>> for SafeArray {
    type Error = Error;

    /// The owned array of one dimension that holds the booleans of the vector, as 16-bit booleans in order.
    fn try_from(value: Vec<bool>) -> (r: Result<SafeArray, Error>)
        ensures
            match r {
                Ok(a) => spec_make_bools(value@) == Ok::<SafeArrayView, Error>(a@) && a@.wf(),
                Err(e) => spec_make_bools(value@) == Err::<SafeArrayView, Error>(e),
            },
    {
        SafeArray::from_vector::<i16>(VT_BOOL, &words_of(&value))
    }
}

impl vstd::std_specs::convert::TryFromSpecImpl<Vec<bool>> for SafeArray {
    open spec fn obeys_try_from_spec() -> bool {
        false
    }

    open spec fn try_from_spec(value: Vec<bool>) -> Result<SafeArray, Error> {
        arbitrary()
    }
}

impl<'a, T: Element> TryFrom<&'a SafeArray> for Vec<T> {
    type Error = Error;

    /// The items of the array, in index order.
    fn try_from(value: &'a SafeArray) -> (r: Result<Vec<T>, Error>)
        ensures
            match r {
                Ok(v) => spec_read::<T>(value@) == Ok::<Seq<T::V>, Error>(views_of(v@)),
                Err(e) => spec_read::<T>(value@) == Err::<Seq<T::V>, Error>(e),
            },
    {
        let vt = value.get_var_type()?;
        value.into_vector(T::expected(vt))
    }
}

impl<'a, T: Element> vstd::std_specs::convert::TryFromSpecImpl<&'a SafeArray> for Vec<T> {
    open spec fn obeys_try_from_spec() -> bool {
        false
    }

    open spec fn try_from_spec(value: &'a SafeArray) -> Result<Vec<T>, Error> {
        arbitrary()
    }
}

impl<T: Element> TryFrom<SafeArray> for Vec<T> {
    type Error = Error;

    /// The items of the array, in index order.
    fn try_from(value: SafeArray) -> (r: Result<Vec<T>, Error>)
        ensures
            match r {
                Ok(v) => spec_read::<T>(value@) == Ok::<Seq<T::V>, Error>(views_of(v@)),
                Err(e) => spec_read::<T>(value@) == Err::<Seq<T::V>, Error>(e),
            },
    {
        let vt = value.get_var_type()?;
        value.into_vector(T::expected(vt))
    }
}

impl<T: Element> vstd::std_specs::convert::TryFromSpecImpl<SafeArray> for Vec<T> {
    open spec fn obeys_try_from_spec() -> bool {
        false
    }

    open spec fn try_from_spec(value: SafeArray) -> Result<Vec<T>, Error> {
        arbitrary()
    }
}

impl<'a> TryFrom<&'a SafeArray> for Vec<bool> {
    type Error = Error;

    /// The booleans of the array, in index order.
    fn try_from(value: &'a SafeArray) -> (r: Result<Vec<bool>, Error>)
        ensures
            match r {
                Ok(v) => spec_read_bools(value@) == Ok::<Seq<bool>, Error>(v@),
                Err(e) => spec_read_bools(value@) == Err::<Seq<bool>, Error>(e),
            },
    {
        let words = value.into_vector::<i16>(VT_BOOL)?;
        Ok(bools_of(&words))
    }
}

impl<'a> vstd::std_specs::convert::TryFromSpecImpl<&'a SafeArray> for Vec<bool> {
    open spec fn obeys_try_from_spec() -> bool {
        false
    }

    open spec fn try_from_spec(value: &'a SafeArray) -> Result<Vec<bool>, Error> {
        arbitrary()
    }
}

impl TryFrom<SafeArray> for Vec<bool> {
    type Error = Error;

    /// The booleans of the array, in index order.
    fn try_from(value: SafeArray) -> (r: Result<Vec<bool>, Error>)
        ensures
            match r {
                Ok(v) => spec_read_bools(value@) == Ok::<Seq<bool>, Error>(v@),
                Err(e) => spec_read_bools(value@) == Err::<Seq<bool>, Error>(e),
            },
    {
        let words = value.into_vector::<i16>(VT_BOOL)?;
        Ok(bools_of(&words))
    }
}

impl vstd::std_specs::convert::TryFromSpecImpl<SafeArray> for Vec<bool> {
    open spec fn obeys_try_from_spec() -> bool {
        false
    }

    open spec fn try_from_spec(value: SafeArray) -> Result<Vec<bool>, Error> {
        arbitrary()
    }
}

impl<'a> TryFrom<&'a Variant> for Value {
    type Error = Error;

    /// The value that the dynamic value decomposes into.
    fn try_from(value: &'a Variant) -> (r: Result<Value, Error>)
        ensures
            match r {
                Ok(val) => spec_value(value@) == Ok::<ValueView, Error>(val@) && val@.wf(),
                Err(e) => spec_value(value@) == Err::<ValueView, Error>(e),
            },
    {
        value.get_value()
    }
}

impl<'a> vstd::std_specs::convert::TryFromSpecImpl<&'a Variant> for Value {
    open spec fn obeys_try_from_spec() -> bool {
        false
    }

    open spec fn try_from_spec(value: &'a Variant) -> Result<Value, Error> {
        arbitrary()
    }
}

impl TryFrom<Variant> for Value {
    type Error = Error;

    /// The value that the dynamic value decomposes into.
    fn try_from(value: Variant) -> (r: Result<Value, Error>)
        ensures
            match r {
                Ok(val) => spec_value(value@) == Ok::<ValueView, Error>(val@) && val@.wf(),
                Err(e) => spec_value(value@) == Err::<ValueView, Error>(e),
            },
    {
        value.get_value()
    }
}

impl vstd::std_specs::convert::TryFromSpecImpl<Variant> for Value {
    open spec fn obeys_try_from_spec() -> bool {
        false
    }

    open spec fn try_from_spec(value: Variant) -> Result<Value, Error> {
        arbitrary()
    }
}


/// The items that an array was made of are read back from it, identical and in
/// order.
pub proof fn lemma_made_is_read<T: Element>(items: Seq<T::V>)
    requires
        spec_make::<T>(items) is Ok,
    ensures
        spec_read::<T>(spec_make::<T>(items)->Ok_0) == Ok::<Seq<T::V>, Error>(items),
{
    T::lemma_tags_admit(T::tag() as int);
    // A tag that admits a type is one of the element tags, which are 16-bit tags.
    T::lemma_fits(arbitrary(), T::tag() as int);
    lemma_cut_tag(T::tag());
    lemma_vector_round_trip::<T>(T::tag(), items);
}

/// The booleans that an array was made of are read back from it, identical and
/// in order.
pub proof fn lemma_bool_vector_round_trip(items: Seq<bool>)
    requires
        spec_make_bools(items) is Ok,
    ensures
        spec_read_bools(spec_make_bools(items)->Ok_0) == Ok::<Seq<bool>, Error>(items),
{
    let words = items.map_values(|b: bool| bool_word(b));
    lemma_vector_round_trip::<i16>(VT_BOOL, words);
    assert(words.map_values(|w: i16| w != 0) =~= items);
}

} // verus!
