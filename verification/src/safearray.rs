//! The dynamic array: a descriptor (element tag, bounds of each dimension),
//! the elements, and whether the holder owns the buffer.

use vstd::prelude::*;
use crate::bounds::{
    copy_bounds, indices_at, indices_of, lemma_volume_one, span, told, volume, Bound,
};
use crate::cell::{
    blank, blank_cell, can_store, cell_fits, cell_views, copied_cells, copy_cells,
    duplicate_cells, fits, references_in, storable, Cell, CellView,
};
use crate::counting::array_references;
use crate::element::Element;
use crate::errors::Error;
use crate::layout::{low16, take16, to_unsigned32, unsigned32};
use crate::value::Handle;
use crate::variant::{lemma_array_copy_is_well_formed, PayloadView, Variant, VariantView};
use crate::vartype::{
    handle_tag, DISP_E_BADINDEX, VT_BSTR, VT_DISPATCH, VT_EMPTY, VT_UNKNOWN, VT_VARIANT,
};

verus! {

/// The buffer behind a handle that is not null.
pub struct BufferView {
    /// The address of the buffer in the runtime; 0 for a buffer that lies in
    /// the library alone and that the runtime has not been given.
    pub address: usize,
    /// Element tag.
    pub vt: u16,
    /// Dimensions, the first one first.
    pub bounds: Seq<Bound>,
    /// Elements, in storage order.
    pub cells: Seq<CellView>,
}

impl BufferView {
    /// What holds of every buffer: an element tag that can be stored, at least
    /// one dimension and at most 65535, bounds that can be told, as many cells as
    /// the dimensions span, each of the tag's kind.
    pub open spec fn wf(self) -> bool
        decreases self,
    {
        &&& storable(self.vt as int)
        &&& 1 <= self.bounds.len() <= 0xffff
        &&& told(self.bounds)
        &&& self.cells.len() == volume(self.bounds)
        &&& forall|i: int|
            0 <= i < self.cells.len() ==> cell_fits(self.vt as int, #[trigger] self.cells[i])
    }

    /// The index lies in the only dimension of the buffer.
    pub open spec fn holds(self, index: int) -> bool {
        self.bounds.len() == 1 && self.bounds[0].lower <= index <= self.bounds[0].upper()
    }

    /// The cell at an index of the only dimension.
    pub open spec fn at(self, index: int) -> CellView {
        self.cells[index - self.bounds[0].lower]
    }
}

/// What a `SafeArray` is: the buffer, or none behind a null handle, and the
/// ownership flag.
pub struct SafeArrayView {
    pub buffer: Option<BufferView>,
    pub owned: bool,
}

impl SafeArrayView {
    /// What holds of every array: its buffer, where it has one, is well formed.
    pub open spec fn wf(self) -> bool
        decreases self,
    {
        match self.buffer {
            Some(b) => b.wf(),
            None => true,
        }
    }

    /// The duplicate of the array. That of an owned array is a deep copy: it
    /// holds the same elements in another buffer, which lies in the library
    /// alone; a dynamic value among the elements is copied deep. That of an
    /// array which is not owned, or is null, is the same buffer and flag.
    pub open spec fn copied(self) -> SafeArrayView
        decreases self,
    {
        match self.buffer {
            Some(b) => if self.owned {
                SafeArrayView {
                    buffer: Some(
                        BufferView {
                            address: 0,
                            vt: b.vt,
                            bounds: b.bounds,
                            cells: Seq::new(
                                b.cells.len(),
                                |i: int|
                                    if 0 <= i < b.cells.len() {
                                        b.cells[i].copied()
                                    } else {
                                        CellView::Bits(0)
                                    },
                            ),
                        },
                    ),
                    owned: true,
                }
            } else {
                self
            },
            None => self,
        }
    }
}

/// A dynamically typed array with bounds for each dimension.
///
/// An owned array is the sole holder of its buffer. One that is not owned
/// stands for a buffer that another holder, such as a dynamic value, answers for.
#[derive(Debug, PartialEq, Eq)]
pub struct SafeArray {
    present: bool,
    address: usize,
    vt: u16,
    bounds: Vec<Bound>,
    cells: Vec<Cell>,
    owned: bool,
}

impl SafeArray {
    /// What the array is, told element by element.
    pub closed spec fn model(self) -> SafeArrayView
        decreases self,
    {
        SafeArrayView {
            buffer: if self.present {
                Some(
                    BufferView {
                        address: self.address,
                        vt: self.vt,
                        bounds: self.bounds@,
                        cells: Seq::new(
                            self.cells@.len(),
                            |i: int|
                                if 0 <= i < self.cells@.len() {
                                    self.cells@[i].model()
                                } else {
                                    CellView::Bits(0)
                                },
                        ),
                    },
                )
            } else {
                None
            },
            owned: self.owned,
        }
    }

    /// The array told element by element is the array.
    pub proof fn lemma_model(self)
        ensures
            self.model() == self@,
    {
        if self.present {
            assert(self.model().buffer->0.cells =~= self@.buffer->0.cells);
        }
    }
}

impl View for SafeArray {
    type V = SafeArrayView;

    closed spec fn view(&self) -> SafeArrayView {
        SafeArrayView {
            buffer: if self.present {
                Some(
                    BufferView {
                        address: self.address,
                        vt: self.vt,
                        bounds: self.bounds@,
                        cells: cell_views(self.cells@),
                    },
                )
            } else {
                None
            },
            owned: self.owned,
        }
    }
}

/// The 16-bit tag that a tag number is cut to: its first two bytes.
pub open spec fn cut_tag(var_type: i32) -> u16 {
    low16(unsigned32(var_type) as u64)
}

/// The views of a run of values.
pub open spec fn views_of<T: View>(items: Seq<T>) -> Seq<T::V> {
    items.map_values(|x: T| x@)
}

/// The element at an index of a one-dimensional array, read as a `T`. Behind a
/// null handle a null-pointer error; where the element tag does not admit `T` a
/// type error; where the array has not one dimension or the index lies outside
/// its bounds, the status of a bad index.
pub open spec fn spec_get_element<T: Element>(a: SafeArrayView, index: i32) -> Result<T::V, Error> {
    match a.buffer {
        None => Err(Error::NullPointer),
        Some(b) => if !T::admits(b.vt as int) {
            Err(Error::TypeError)
        } else if !b.holds(index as int) {
            Err(Error::ExternalError(DISP_E_BADINDEX))
        } else {
            Ok(T::value_of(b.at(index as int)))
        },
    }
}

/// The array after a `T` was written at an index of its only dimension: the
/// cell at the index holds the value, all else is as before. Fails as
/// `spec_get_element` does.
pub open spec fn spec_put_element<T: Element>(a: SafeArrayView, index: i32, v: T::V) -> Result<
    SafeArrayView,
    Error,
> {
    match a.buffer {
        None => Err(Error::NullPointer),
        Some(b) => if !T::admits(b.vt as int) {
            Err(Error::TypeError)
        } else if !b.holds(index as int) {
            Err(Error::ExternalError(DISP_E_BADINDEX))
        } else {
            Ok(
                SafeArrayView {
                    buffer: Some(
                        BufferView {
                            address: b.address,
                            vt: b.vt,
                            bounds: b.bounds,
                            cells: b.cells.update(index - b.bounds[0].lower, T::cell_of(v)),
                        },
                    ),
                    owned: a.owned,
                },
            )
        },
    }
}

/// The dynamic value in a cell, and the empty one for a cell of another kind.
pub open spec fn nested_of(c: CellView) -> VariantView {
    match c {
        CellView::Nested(v) => v,
        _ => VariantView { vt: VT_EMPTY as u16, data: PayloadView::Scalar(0) },
    }
}

/// The dynamic value at an index of a one-dimensional array of dynamic values,
/// as a deep copy. Behind a null handle a null-pointer error; where the
/// elements are no dynamic values a type error; where the array has not one
/// dimension or the index lies outside its bounds, the status of a bad index.
pub open spec fn spec_get_variant(a: SafeArrayView, index: i32) -> Result<VariantView, Error> {
    match a.buffer {
        None => Err(Error::NullPointer),
        Some(b) => if b.vt != VT_VARIANT {
            Err(Error::TypeError)
        } else if !b.holds(index as int) {
            Err(Error::ExternalError(DISP_E_BADINDEX))
        } else {
            Ok(nested_of(b.at(index as int)).copied())
        },
    }
}

/// The array after a deep copy of a dynamic value was written at an index of
/// its only dimension. Fails as `spec_get_variant` does.
pub open spec fn spec_put_variant(a: SafeArrayView, index: i32, v: VariantView) -> Result<
    SafeArrayView,
    Error,
> {
    match a.buffer {
        None => Err(Error::NullPointer),
        Some(b) => if b.vt != VT_VARIANT {
            Err(Error::TypeError)
        } else if !b.holds(index as int) {
            Err(Error::ExternalError(DISP_E_BADINDEX))
        } else {
            Ok(
                SafeArrayView {
                    buffer: Some(
                        BufferView {
                            address: b.address,
                            vt: b.vt,
                            bounds: b.bounds,
                            cells: b.cells.update(
                                index - b.bounds[0].lower,
                                CellView::Nested(v.copied()),
                            ),
                        },
                    ),
                    owned: a.owned,
                },
            )
        },
    }
}

/// The dynamic values of a one-dimensional array of dynamic values, in index
/// order, each as a deep copy. Behind a null handle a null-pointer error; a
/// type error where the elements are no dynamic values or the array has not
/// exactly one dimension.
pub open spec fn spec_into_variant_vector(a: SafeArrayView) -> Result<Seq<VariantView>, Error> {
    match a.buffer {
        None => Err(Error::NullPointer),
        Some(b) => if b.vt != VT_VARIANT || b.bounds.len() != 1 {
            Err(Error::TypeError)
        } else {
            Ok(b.cells.map_values(|c: CellView| nested_of(c).copied()))
        },
    }
}

/// The owned array of one dimension with lower bound 0 that holds a deep copy
/// of each dynamic value in order, in a buffer that lies in the library alone.
/// Creation fails with a null-pointer error where there are more than 2^31.
pub open spec fn spec_from_variant_vector(items: Seq<VariantView>) -> Result<SafeArrayView, Error> {
    if items.len() > 0x8000_0000 {
        Err(Error::NullPointer)
    } else {
        Ok(
            SafeArrayView {
                buffer: Some(
                    BufferView {
                        address: 0,
                        vt: VT_VARIANT as u16,
                        bounds: seq![Bound { lower: 0, count: items.len() as u32 }],
                        cells: items.map_values(|v: VariantView| CellView::Nested(v.copied())),
                    },
                ),
                owned: true,
            },
        )
    }
}

/// Two arrays stand for the same buffer of the runtime: neither is null, and
/// both lie at the same address there.
pub open spec fn same_buffer(a: SafeArrayView, b: SafeArrayView) -> bool {
    &&& a.buffer matches Some(x)
    &&& b.buffer matches Some(y)
    &&& x.address != 0
    &&& x.address == y.address
}

/// The reference handle at an index of a one-dimensional array of handles.
/// Fails as `spec_get_element` does, and with a null-pointer error where the
/// handle at the index is null.
pub open spec fn spec_get_interface(a: SafeArrayView, index: i32) -> Result<usize, Error> {
    match spec_get_element::<usize>(a, index) {
        Ok(h) => if h == 0 {
            Err(Error::NullPointer)
        } else {
            Ok(h)
        },
        Err(e) => Err(e),
    }
}

/// The elements of an array as a sequence of `T`, in index order. Behind a null
/// handle a null-pointer error. A type error where the element tag is not the
/// expected one, where the array has not exactly one dimension, and where it
/// has elements that its tag does not admit as `T`.
pub open spec fn spec_into_vector<T: Element>(a: SafeArrayView, var_type: i32) -> Result<
    Seq<T::V>,
    Error,
> {
    match a.buffer {
        None => Err(Error::NullPointer),
        Some(b) => if b.vt != var_type || b.bounds.len() != 1 {
            Err(Error::TypeError)
        } else if b.cells.len() > 0 && !T::admits(b.vt as int) {
            Err(Error::TypeError)
        } else {
            Ok(b.cells.map_values(|c: CellView| T::value_of(c)))
        },
    }
}

/// The owned array of one dimension with lower bound 0 that holds the items in
/// order, in a buffer that lies in the library alone. Creation fails with a null-pointer error where no array can be made
/// of the element tag or there are more than 2^31 items; writing fails with
/// a type error where there are items and the tag does not admit `T`.
pub open spec fn spec_from_vector<T: Element>(var_type: i32, items: Seq<T::V>) -> Result<
    SafeArrayView,
    Error,
> {
    let vt = cut_tag(var_type);
    if !storable(vt as int) || items.len() > 0x8000_0000 {
        Err(Error::NullPointer)
    } else if items.len() > 0 && !T::admits(vt as int) {
        Err(Error::TypeError)
    } else {
        Ok(
            SafeArrayView {
                buffer: Some(
                    BufferView {
                        address: 0,
                        vt,
                        bounds: seq![Bound { lower: 0, count: items.len() as u32 }],
                        cells: items.map_values(|v: T::V| T::cell_of(v)),
                    },
                ),
                owned: true,
            },
        )
    }
}

/// The handles of a one-dimensional array of reference handles, in index
/// order. Behind a null handle a null-pointer error; a type error where the
/// element tag is neither of the two handle tags or the array has not exactly
/// one dimension; a null-pointer error where one of the handles is null.
pub open spec fn spec_into_interface_vector(a: SafeArrayView) -> Result<Seq<usize>, Error> {
    match a.buffer {
        None => Err(Error::NullPointer),
        Some(b) => if !handle_tag(b.vt as int) || b.bounds.len() != 1 {
            Err(Error::TypeError)
        } else if exists|i: int| 0 <= i < b.cells.len() && usize::value_of(#[trigger] b.cells[i]) == 0 {
            Err(Error::NullPointer)
        } else {
            Ok(b.cells.map_values(|c: CellView| usize::value_of(c)))
        },
    }
}

/// A tag number that is a 16-bit tag is cut to itself.
pub proof fn lemma_cut_tag(var_type: i32)
    requires
        0 <= var_type <= 0xffff,
    ensures
        cut_tag(var_type) == var_type,
{
}

/// The items that an array was made of are read back from it, identical and in
/// order, under the tag it was made with; the array has one dimension, whose
/// lowest index is 0 and whose highest is one less than the number of items.
pub proof fn lemma_vector_round_trip<T: Element>(var_type: i32, items: Seq<T::V>)
    requires
        spec_from_vector::<T>(var_type, items) is Ok,
    ensures
        ({
            let a = spec_from_vector::<T>(var_type, items)->Ok_0;
            &&& a.wf()
            &&& a.owned
            &&& a.buffer matches Some(b) && b.bounds.len() == 1 && b.bounds[0].lower == 0
                && b.bounds[0].upper() == items.len() - 1
            &&& spec_into_vector::<T>(a, cut_tag(var_type) as i32) == Ok::<Seq<T::V>, Error>(items)
        }),
{
    let a = spec_from_vector::<T>(var_type, items)->Ok_0;
    let b = a.buffer->0;
    lemma_volume_one(b.bounds);
    assert forall|i: int| 0 <= i < b.cells.len() implies cell_fits(
        b.vt as int,
        #[trigger] b.cells[i],
    ) by {
        T::lemma_fits(items[i], b.vt as int);
    }
    assert forall|i: int| 0 <= i < items.len() implies T::value_of(#[trigger] b.cells[i])
        == items[i] by {
        T::lemma_value_of_cell(items[i]);
    }
    assert(b.cells.map_values(|c: CellView| T::value_of(c)) =~= items);
}

/// Writing back what was read at an index leaves the array as it was.
pub proof fn lemma_put_what_was_read<T: Element>(a: SafeArrayView, index: i32)
    requires
        a.wf(),
        spec_get_element::<T>(a, index) is Ok,
    ensures
        spec_put_element::<T>(a, index, spec_get_element::<T>(a, index)->Ok_0) == Ok::<
            SafeArrayView,
            Error,
        >(a),
{
    let b = a.buffer->0;
    lemma_volume_one(b.bounds);
    let at = index - b.bounds[0].lower;
    T::lemma_cell_of_value(b.cells[at], b.vt as int);
    assert(b.cells.update(at, T::cell_of(T::value_of(b.cells[at]))) =~= b.cells);
}

/// A duplicate of an array that is not owned is the same buffer, not owned; a
/// duplicate of an owned array holds the same elements, is owned, and lies in
/// a buffer of its own, which differs from any buffer of the runtime.
pub proof fn lemma_duplicate(a: SafeArrayView)
    ensures
        !a.owned ==> a.copied() == a,
        a.owned ==> a.copied().owned,
        a.owned && a.buffer is Some ==> ({
            let b = a.buffer->0;
            let c = a.copied().buffer->0;
            &&& c.address == 0
            &&& c.vt == b.vt && c.bounds == b.bounds && c.cells == copied_cells(b.cells)
            &&& b.address != 0 ==> c.address != b.address
        }),
        a.wf() ==> a.copied().wf(),
{
    if a.owned && a.buffer is Some {
        assert(a.copied().buffer->0.cells =~= copied_cells(a.buffer->0.cells));
    }
    if a.wf() {
        lemma_array_copy_is_well_formed(a);
    }
}

/// A write through a holder that does not own the buffer is seen by the owner:
/// once the owner follows the view, it reads what was written.
pub proof fn lemma_write_is_seen<T: Element>(owner: SafeArrayView, index: i32, v: T::V)
    requires
        owner.wf(),
        owner.buffer matches Some(b) && b.address != 0,
        spec_put_element::<T>(SafeArrayView { buffer: owner.buffer, owned: false }, index, v) is Ok,
    ensures
        ({
            let view = SafeArrayView { buffer: owner.buffer, owned: false };
            let written = spec_put_element::<T>(view, index, v)->Ok_0;
            let seen = SafeArrayView { buffer: written.buffer, owned: owner.owned };
            &&& same_buffer(owner, written)
            &&& spec_get_element::<T>(seen, index) == Ok::<T::V, Error>(v)
        }),
{
    lemma_get_after_put::<T>(SafeArrayView { buffer: owner.buffer, owned: false }, index, v, index);
}

/// Reading an array under an element tag that is not its own is a type error,
/// whatever the array holds.
pub proof fn lemma_into_vector_type_mismatch<T: Element>(a: SafeArrayView, var_type: i32)
    requires
        a.buffer matches Some(b) && b.vt != var_type,
    ensures
        spec_into_vector::<T>(a, var_type) == Err::<Seq<T::V>, Error>(Error::TypeError),
{
}

/// What was written at an index is read back from it, and every other index
/// reads as before.
pub proof fn lemma_get_after_put<T: Element>(a: SafeArrayView, index: i32, v: T::V, other: i32)
    requires
        a.wf(),
        spec_put_element::<T>(a, index, v) is Ok,
    ensures
        ({
            let after = spec_put_element::<T>(a, index, v)->Ok_0;
            &&& after.wf()
            &&& spec_get_element::<T>(after, index) == Ok::<T::V, Error>(v)
            &&& other != index ==> spec_get_element::<T>(after, other) == spec_get_element::<T>(
                a,
                other,
            )
        }),
{
    let b = a.buffer->0;
    lemma_volume_one(b.bounds);
    T::lemma_value_of_cell(v);
    T::lemma_fits(v, b.vt as int);
}

impl Clone for SafeArray {
    /// A duplicate, owned if and only if the source is. That of an owned array
    /// is a deep copy in another buffer; that of an array which is not owned is
    /// the same buffer.
    fn clone(&self) -> (a: SafeArray)
        ensures
            a@ == self@.copied(),
        decreases self,
    {
        proof {
            use_type_invariant(self);
        }
        if self.owned {
            let cells = duplicate_cells(&self.cells);
            proof {
                lemma_array_copy_is_well_formed(self@);
                if self.present {
                    assert(copied_cells(cell_views(self.cells@))
                        =~= self@.copied().buffer->0.cells);
                }
            }
            SafeArray {
                present: self.present,
                address: 0,
                vt: self.vt,
                bounds: copy_bounds(&self.bounds),
                cells,
                owned: true,
            }
        } else {
            self.borrowed()
        }
    }
}

impl SafeArray {
    /// Holds of every array.
    #[verifier::type_invariant]
    pub open spec fn inv(self) -> bool {
        self@.wf()
    }

    /// An array behind a null handle.
    pub fn null(owned: bool) -> (a: SafeArray)
        ensures
            a@ == (SafeArrayView { buffer: None, owned }),
            a@.wf(),
    {
        SafeArray {
            present: false,
            address: 0,
            vt: 0,
            bounds: Vec::new(),
            cells: Vec::new(),
            owned,
        }
    }

    /// The array in the buffer at an address of the runtime, of the given
    /// element tag, dimensions and elements, where they make a well-formed
    /// buffer; a type error where they do not.
    pub fn from_parts(
        address: usize,
        vt: u16,
        bounds: Vec<Bound>,
        cells: Vec<Cell>,
        owned: bool,
    ) -> (r: Result<SafeArray, Error>)
        ensures
            match r {
                Ok(a) => a@ == (SafeArrayView {
                    buffer: Some(
                        BufferView { address, vt, bounds: bounds@, cells: cell_views(cells@) },
                    ),
                    owned,
                }) && a@.wf(),
                Err(e) => e == Error::TypeError && !(BufferView {
                    address,
                    vt,
                    bounds: bounds@,
                    cells: cell_views(cells@),
                }).wf(),
            },
    {
        if !can_store(vt as i32) {
            return Err(Error::TypeError);
        }
        if bounds.len() < 1 || bounds.len() > 0xffff {
            return Err(Error::TypeError);
        }
        let mut d: usize = 0;
        while d < bounds.len()
            invariant
                d <= bounds.len(),
                forall|k: int| 0 <= k < d ==> (#[trigger] bounds@[k]).wf(),
            decreases bounds.len() - d,
        {
            let upper: i64 = bounds[d].lower as i64 + bounds[d].count as i64 - 1;
            if upper < i32::MIN as i64 || upper > i32::MAX as i64 {
                assert(!bounds@[d as int].wf());
                return Err(Error::TypeError);
            }
            d += 1;
        }
        match span(&bounds) {
            Some(n) => {
                if n != cells.len() {
                    return Err(Error::TypeError);
                }
            },
            None => {
                assert(cell_views(cells@).len() == cells.len());
                return Err(Error::TypeError);
            },
        }
        let mut i: usize = 0;
        while i < cells.len()
            invariant
                i <= cells.len(),
                forall|k: int| 0 <= k < i ==> cell_fits(vt as int, (#[trigger] cells@[k])@),
            decreases cells.len() - i,
        {
            if !fits(vt as i32, &cells[i]) {
                assert(!cell_fits(vt as int, cell_views(cells@)[i as int]));
                return Err(Error::TypeError);
            }
            i += 1;
        }
        Ok(SafeArray { present: true, address, vt, bounds, cells, owned })
    }

    /// A new owned array of one dimension with lower bound 0 and `len` blank
    /// elements of the element tag; of the tag number its first 16 bits count.
    /// Creation fails with a null-pointer error where no array can be made of the
    /// tag, and where the highest index would not be a 32-bit number.
    pub fn new_vector(var_type: i32, len: u32) -> (r: Result<SafeArray, Error>)
        ensures
            r is Ok <==> storable(cut_tag(var_type) as int) && len <= 0x8000_0000,
            match r {
                Ok(a) => a@ == (SafeArrayView {
                    buffer: Some(
                        BufferView {
                            address: 0,
                            vt: cut_tag(var_type),
                            bounds: seq![Bound { lower: 0, count: len }],
                            cells: Seq::new(len as nat, |i: int| blank_cell(cut_tag(var_type) as int)),
                        },
                    ),
                    owned: true,
                }) && a@.wf(),
                Err(e) => e == Error::NullPointer,
            },
    {
        let vt = take16(to_unsigned32(var_type) as u64);
        if !can_store(vt as i32) || len > 0x8000_0000 {
            return Err(Error::NullPointer);
        }
        let mut cells: Vec<Cell> = Vec::new();
        let mut i: u32 = 0;
        while i < len
            invariant
                i <= len,
                cells.len() == i,
                forall|k: int| 0 <= k < i ==> (#[trigger] cells@[k])@ == blank_cell(vt as int),
            decreases len - i,
        {
            cells.push(blank(vt as i32));
            i += 1;
        }
        let mut bounds: Vec<Bound> = Vec::new();
        bounds.push(Bound { lower: 0, count: len });
        proof {
            lemma_volume_one(bounds@);
            assert(cell_views(cells@) =~= Seq::new(len as nat, |i: int| blank_cell(vt as int)));
        }
        Ok(SafeArray { present: true, address: 0, vt, bounds, cells, owned: true })
    }

    /// The elements in storage order; none behind a null handle.
    pub fn get_array(&self) -> (r: Option<&Vec<Cell>>)
        ensures
            match r {
                Some(cells) => self@.buffer matches Some(b) && cell_views(cells@) == b.cells,
                None => self@.buffer is None,
            },
    {
        if self.present {
            Some(&self.cells)
        } else {
            None
        }
    }

    /// The dimensions, the first one first; none behind a null handle.
    pub fn get_bounds(&self) -> (r: Option<&Vec<Bound>>)
        ensures
            match r {
                Some(bounds) => self@.buffer matches Some(b) && bounds@ == b.bounds,
                None => self@.buffer is None,
            },
    {
        if self.present {
            Some(&self.bounds)
        } else {
            None
        }
    }

    /// The element tag; a null-pointer error behind a null handle.
    pub fn get_var_type(&self) -> (r: Result<i32, Error>)
        ensures
            match r {
                Ok(vt) => self@.buffer matches Some(b) && vt == b.vt && storable(vt as int),
                Err(e) => self@.buffer is None && e == Error::NullPointer,
            },
    {
        proof {
            use_type_invariant(self);
        }
        if self.present {
            Ok(self.vt as i32)
        } else {
            Err(Error::NullPointer)
        }
    }

    /// The number of dimensions; 0 behind a null handle.
    pub fn get_dim(&self) -> (n: u32)
        ensures
            n == match self@.buffer {
                Some(b) => b.bounds.len(),
                None => 0,
            },
    {
        proof {
            use_type_invariant(self);
        }
        if self.present {
            self.bounds.len() as u32
        } else {
            0
        }
    }

    /// The lowest index of a dimension, the first dimension being 1. Behind a
    /// null handle a null-pointer error; for a dimension that the array has not,
    /// the status of a bad index.
    pub fn get_lower_bound(&self, dimension: u32) -> (r: Result<i32, Error>)
        ensures
            r == match self@.buffer {
                None => Err::<i32, Error>(Error::NullPointer),
                Some(b) => if 1 <= dimension <= b.bounds.len() {
                    Ok::<i32, Error>(b.bounds[dimension - 1].lower)
                } else {
                    Err::<i32, Error>(Error::ExternalError(DISP_E_BADINDEX))
                },
            },
    {
        proof {
            use_type_invariant(self);
        }
        if !self.present {
            Err(Error::NullPointer)
        } else if dimension < 1 || dimension as usize > self.bounds.len() {
            Err(Error::ExternalError(DISP_E_BADINDEX))
        } else {
            Ok(self.bounds[(dimension - 1) as usize].lower)
        }
    }

    /// The highest index of a dimension, the first dimension being 1; one below
    /// the lowest where the dimension is empty. Fails as `get_lower_bound` does.
    pub fn get_upper_bound(&self, dimension: u32) -> (r: Result<i32, Error>)
        ensures
            match r {
                Ok(u) => self@.buffer matches Some(b) && 1 <= dimension <= b.bounds.len() && u
                    == b.bounds[dimension - 1].upper(),
                Err(e) => e == match self@.buffer {
                    None => Error::NullPointer,
                    Some(b) => Error::ExternalError(DISP_E_BADINDEX),
                } && !(self@.buffer matches Some(b) && 1 <= dimension <= b.bounds.len()),
            },
    {
        proof {
            use_type_invariant(self);
        }
        if !self.present {
            Err(Error::NullPointer)
        } else if dimension < 1 || dimension as usize > self.bounds.len() {
            Err(Error::ExternalError(DISP_E_BADINDEX))
        } else {
            let b = self.bounds[(dimension - 1) as usize];
            Ok((b.lower as i64 + b.count as i64 - 1) as i32)
        }
    }

    /// The indices, one for each dimension, of the element at a position in
    /// storage order; nothing behind a null handle and for a position that the
    /// array has not.
    pub fn indices_at(&self, position: usize) -> (r: Option<Vec<i32>>)
        ensures
            match r {
                Some(indices) => self@.buffer matches Some(b) && position < b.cells.len()
                    && indices@.map_values(|i: i32| i as int) == indices_of(
                    b.bounds,
                    position as nat,
                ),
                None => !(self@.buffer matches Some(b) && position < b.cells.len()),
            },
    {
        proof {
            use_type_invariant(self);
        }
        if self.present {
            indices_at(&self.bounds, position)
        } else {
            None
        }
    }

    /// The element at an index of the only dimension, read as a `T`.
    pub fn get_element<T: Element>(&self, index: i32) -> (r: Result<T, Error>)
        ensures
            match r {
                Ok(x) => spec_get_element::<T>(self@, index) == Ok::<T::V, Error>(x@),
                Err(e) => spec_get_element::<T>(self@, index) == Err::<T::V, Error>(e),
            },
    {
        proof {
            use_type_invariant(self);
        }
        if !self.present {
            return Err(Error::NullPointer);
        }
        if !T::accepts(self.vt as i32) {
            return Err(Error::TypeError);
        }
        if self.bounds.len() != 1 {
            return Err(Error::ExternalError(DISP_E_BADINDEX));
        }
        let b = self.bounds[0];
        proof {
            lemma_volume_one(self.bounds@);
        }
        let offset: i64 = index as i64 - b.lower as i64;
        if offset < 0 || offset >= b.count as i64 {
            return Err(Error::ExternalError(DISP_E_BADINDEX));
        }
        let x = T::from_cell(&self.cells[offset as usize]);
        Ok(x)
    }

    /// The dynamic value at an index of the only dimension, as a deep copy.
    pub fn get_variant(&self, index: i32) -> (r: Result<Variant, Error>)
        ensures
            match r {
                Ok(v) => spec_get_variant(self@, index) == Ok::<VariantView, Error>(v@),
                Err(e) => spec_get_variant(self@, index) == Err::<VariantView, Error>(e),
            },
    {
        proof {
            use_type_invariant(self);
        }
        if !self.present {
            return Err(Error::NullPointer);
        }
        if self.vt as i32 != VT_VARIANT {
            return Err(Error::TypeError);
        }
        if self.bounds.len() != 1 {
            return Err(Error::ExternalError(DISP_E_BADINDEX));
        }
        let b = self.bounds[0];
        proof {
            lemma_volume_one(self.bounds@);
        }
        let offset: i64 = index as i64 - b.lower as i64;
        if offset < 0 || offset >= b.count as i64 {
            return Err(Error::ExternalError(DISP_E_BADINDEX));
        }
        match &self.cells[offset as usize] {
            Cell::Nested(v) => Ok(v.clone()),
            _ => {
                assert(cell_fits(self.vt as int, cell_views(self.cells@)[offset as int]));
                Ok(Variant::default())
            },
        }
    }

    /// Writes a deep copy of a dynamic value at an index of the only dimension.
    /// On failure the array is as before.
    pub fn put_variant(&mut self, index: i32, value: &Variant) -> (r: Result<(), Error>)
        ensures
            match r {
                Ok(_) => spec_put_variant(old(self)@, index, value@) == Ok::<SafeArrayView, Error>(
                    final(self)@,
                ),
                Err(e) => spec_put_variant(old(self)@, index, value@) == Err::<
                    SafeArrayView,
                    Error,
                >(e) && final(self)@ == old(self)@,
            },
    {
        proof {
            use_type_invariant(&*self);
        }
        if !self.present {
            return Err(Error::NullPointer);
        }
        if self.vt as i32 != VT_VARIANT {
            return Err(Error::TypeError);
        }
        if self.bounds.len() != 1 {
            return Err(Error::ExternalError(DISP_E_BADINDEX));
        }
        let b = self.bounds[0];
        proof {
            lemma_volume_one(self.bounds@);
        }
        let offset: i64 = index as i64 - b.lower as i64;
        if offset < 0 || offset >= b.count as i64 {
            return Err(Error::ExternalError(DISP_E_BADINDEX));
        }
        let copy = value.clone();
        proof {
            use_type_invariant(&copy);
        }
        let mut taken = SafeArray::null(false);
        core::mem::swap(self, &mut taken);
        let SafeArray { present, address, vt, bounds, mut cells, owned } = taken;
        let ghost before = cells@;
        cells.set(offset as usize, Cell::Nested(copy));
        proof {
            assert(cell_views(cells@) =~= cell_views(before).update(
                offset as int,
                CellView::Nested(value@.copied()),
            ));
        }
        *self = SafeArray { present, address, vt, bounds, cells, owned };
        Ok(())
    }

    /// The reference handle at an index of the only dimension; a null-pointer
    /// error where it is null.
    pub fn get_interface(&self, index: i32) -> (r: Result<Handle, Error>)
        ensures
            match r {
                Ok(h) => spec_get_interface(self@, index) == Ok::<usize, Error>(h@),
                Err(e) => spec_get_interface(self@, index) == Err::<usize, Error>(e),
            },
    {
        let addr = self.get_element::<usize>(index)?;
        match Handle::new(addr) {
            Some(h) => Ok(h),
            None => Err(Error::NullPointer),
        }
    }

    /// Writes a `T` at an index of the only dimension. On failure the array is
    /// as before. The array stays in its buffer: where that is a buffer of the
    /// runtime, the write is due there too, and `follow` lets another holder of
    /// the buffer see it.
    pub fn put_element<T: Element>(&mut self, index: i32, value: T) -> (r: Result<(), Error>)
        ensures
            match r {
                Ok(_) => spec_put_element::<T>(old(self)@, index, value@) == Ok::<
                    SafeArrayView,
                    Error,
                >(final(self)@),
                Err(e) => spec_put_element::<T>(old(self)@, index, value@) == Err::<
                    SafeArrayView,
                    Error,
                >(e) && final(self)@ == old(self)@,
            },
    {
        proof {
            use_type_invariant(&*self);
        }
        if !self.present {
            return Err(Error::NullPointer);
        }
        if !T::accepts(self.vt as i32) {
            return Err(Error::TypeError);
        }
        if self.bounds.len() != 1 {
            return Err(Error::ExternalError(DISP_E_BADINDEX));
        }
        let b = self.bounds[0];
        proof {
            lemma_volume_one(self.bounds@);
        }
        let offset: i64 = index as i64 - b.lower as i64;
        if offset < 0 || offset >= b.count as i64 {
            return Err(Error::ExternalError(DISP_E_BADINDEX));
        }
        let cell = value.to_cell();
        proof {
            T::lemma_fits(value@, self.vt as int);
        }
        let mut taken = SafeArray::null(false);
        core::mem::swap(self, &mut taken);
        let SafeArray { present, address, vt, bounds, mut cells, owned } = taken;
        let ghost before = cells@;
        cells.set(offset as usize, cell);
        proof {
            assert(cell_views(cells@) =~= cell_views(before).update(
                offset as int,
                T::cell_of(value@),
            ));
        }
        *self = SafeArray { present, address, vt, bounds, cells, owned };
        Ok(())
    }

    /// The elements as a vector of `T`, in index order.
    pub fn into_vector<T: Element>(&self, var_type: i32) -> (r: Result<Vec<T>, Error>)
        ensures
            match r {
                Ok(v) => spec_into_vector::<T>(self@, var_type) == Ok::<Seq<T::V>, Error>(
                    views_of(v@),
                ),
                Err(e) => spec_into_vector::<T>(self@, var_type) == Err::<Seq<T::V>, Error>(e),
            },
    {
        proof {
            use_type_invariant(self);
        }
        if self.get_var_type()? != var_type {
            return Err(Error::TypeError);
        }
        if self.get_dim() != 1 {
            return Err(Error::TypeError);
        }
        if self.cells.len() > 0 && !T::accepts(self.vt as i32) {
            return Err(Error::TypeError);
        }
        let mut out: Vec<T> = Vec::new();
        let mut i: usize = 0;
        while i < self.cells.len()
            invariant
                i <= self.cells.len(),
                out.len() == i,
                forall|k: int| 0 <= k < i ==> (#[trigger] out@[k])@ == T::value_of(self.cells@[k]@),
            decreases self.cells.len() - i,
        {
            out.push(T::from_cell(&self.cells[i]));
            i += 1;
        }
        proof {
            assert(views_of(out@) =~= cell_views(self.cells@).map_values(
                |c: CellView| T::value_of(c),
            ));
        }
        Ok(out)
    }

    /// The strings of a one-dimensional array of dynamic strings, in index order.
    pub fn into_string_vector(&self) -> (r: Result<Vec<String>, Error>)
        ensures
            match r {
                Ok(v) => spec_into_vector::<String>(self@, VT_BSTR) == Ok::<Seq<Seq<char>>, Error>(
                    views_of(v@),
                ),
                Err(e) => spec_into_vector::<String>(self@, VT_BSTR) == Err::<
                    Seq<Seq<char>>,
                    Error,
                >(e),
            },
    {
        self.into_vector::<String>(VT_BSTR)
    }

    /// The handles of a one-dimensional array of reference handles, in index
    /// order; a null-pointer error where one of them is null.
    pub fn into_interface_vector(&self) -> (r: Result<Vec<Handle>, Error>)
        ensures
            match r {
                Ok(v) => spec_into_interface_vector(self@) == Ok::<Seq<usize>, Error>(views_of(v@)),
                Err(e) => spec_into_interface_vector(self@) == Err::<Seq<usize>, Error>(e),
            },
    {
        proof {
            use_type_invariant(self);
        }
        let vt = self.get_var_type()?;
        if vt != VT_UNKNOWN && vt != VT_DISPATCH {
            return Err(Error::TypeError);
        }
        if self.get_dim() != 1 {
            return Err(Error::TypeError);
        }
        let mut out: Vec<Handle> = Vec::new();
        let mut i: usize = 0;
        while i < self.cells.len()
            invariant
                i <= self.cells.len(),
                out.len() == i,
                forall|k: int| 0 <= k < i ==> (#[trigger] out@[k])@ == usize::value_of(self.cells@[k]@),
                forall|k: int| 0 <= k < i ==> usize::value_of((#[trigger] self.cells@[k])@) != 0,
                self.present,
                handle_tag(self.vt as int),
                self.bounds@.len() == 1,
            decreases self.cells.len() - i,
        {
            let addr = <usize as Element>::from_cell(&self.cells[i]);
            match Handle::new(addr) {
                Some(h) => {
                    out.push(h);
                },
                None => {
                    assert(usize::value_of(cell_views(self.cells@)[i as int]) == 0);
                    return Err(Error::NullPointer);
                },
            }
            i += 1;
        }
        assert(views_of(out@) =~= cell_views(self.cells@).map_values(
            |c: CellView| usize::value_of(c),
        ));
        Ok(out)
    }

    /// The owned array of one dimension with lower bound 0 that holds the items
    /// of a vector in order.
    pub fn from_vector<T: Element>(var_type: i32, src: &Vec<T>) -> (r: Result<SafeArray, Error>)
        ensures
            match r {
                Ok(a) => spec_from_vector::<T>(var_type, views_of(src@)) == Ok::<
                    SafeArrayView,
                    Error,
                >(a@) && a@.wf(),
                Err(e) => spec_from_vector::<T>(var_type, views_of(src@)) == Err::<
                    SafeArrayView,
                    Error,
                >(e),
            },
    {
        let vt = take16(to_unsigned32(var_type) as u64);
        if !can_store(vt as i32) || src.len() > 0x8000_0000 {
            return Err(Error::NullPointer);
        }
        if src.len() > 0 && !T::accepts(vt as i32) {
            return Err(Error::TypeError);
        }
        let mut cells: Vec<Cell> = Vec::new();
        let mut i: usize = 0;
        while i < src.len()
            invariant
                i <= src.len(),
                cells.len() == i,
                src.len() > 0 ==> T::admits(vt as int),
                forall|k: int| 0 <= k < i ==> (#[trigger] cells@[k])@ == T::cell_of(src@[k]@),
                forall|k: int| 0 <= k < i ==> cell_fits(vt as int, (#[trigger] cells@[k])@),
            decreases src.len() - i,
        {
            proof {
                T::lemma_fits(src@[i as int]@, vt as int);
            }
            cells.push(src[i].to_cell());
            i += 1;
        }
        let mut bounds: Vec<Bound> = Vec::new();
        bounds.push(Bound { lower: 0, count: src.len() as u32 });
        proof {
            lemma_volume_one(bounds@);
            assert(cell_views(cells@) =~= views_of(src@).map_values(|v: T::V| T::cell_of(v)));
        }
        Ok(SafeArray { present: true, address: 0, vt, bounds, cells, owned: true })
    }

    /// The owned array of dynamic strings that holds the strings of a vector in order.
    pub fn from_string_vector(src: &Vec<String>) -> (r: Result<SafeArray, Error>)
        ensures
            match r {
                Ok(a) => spec_from_vector::<String>(VT_BSTR, views_of(src@)) == Ok::<
                    SafeArrayView,
                    Error,
                >(a@) && a@.wf(),
                Err(e) => spec_from_vector::<String>(VT_BSTR, views_of(src@)) == Err::<
                    SafeArrayView,
                    Error,
                >(e),
            },
    {
        SafeArray::from_vector::<String>(VT_BSTR, src)
    }

    /// Whether the holder answers for the buffer.
    pub fn is_owned(&self) -> (r: bool)
        ensures
            r == self@.owned,
    {
        self.owned
    }

    /// The array as another holder answers for it: the same buffer, owned.
    pub fn taken_over(self) -> (a: SafeArray)
        ensures
            a@ == (SafeArrayView { buffer: self@.buffer, owned: true }),
    {
        proof {
            use_type_invariant(&self);
        }
        let SafeArray { present, address, vt, bounds, cells, owned: _ } = self;
        SafeArray { present, address, vt, bounds, cells, owned: true }
    }

    /// The array as it lies in the runtime at an address: the same elements in
    /// the buffer there. A null array stays null.
    pub fn placed_at(self, address: usize) -> (a: SafeArray)
        ensures
            a@ == (SafeArrayView {
                buffer: match self@.buffer {
                    Some(b) => Some(
                        BufferView { address, vt: b.vt, bounds: b.bounds, cells: b.cells },
                    ),
                    None => None,
                },
                owned: self@.owned,
            }),
    {
        proof {
            use_type_invariant(&self);
        }
        let SafeArray { present, address: _, vt, bounds, cells, owned } = self;
        SafeArray { present, address, vt, bounds, cells, owned }
    }

    /// The address of the buffer in the runtime; 0 behind a null handle and
    /// for a buffer that lies in the library alone.
    pub fn get_address(&self) -> (address: usize)
        ensures
            address == match self@.buffer {
                Some(b) => b.address,
                None => 0,
            },
    {
        if self.present {
            self.address
        } else {
            0
        }
    }

    /// The addresses of the live references that the array holds for itself,
    /// one entry for each reference: those in its cells where it is owned, none
    /// where it is not.
    pub fn references(&self) -> (r: Vec<usize>)
        ensures
            r@ == array_references(self@),
        decreases self,
    {
        if self.present && self.owned {
            references_in(&self.cells)
        } else {
            Vec::new()
        }
    }

    /// The dynamic values of the only dimension, in index order, each as a
    /// deep copy.
    pub fn into_variant_vector(&self) -> (r: Result<Vec<Variant>, Error>)
        ensures
            match r {
                Ok(v) => spec_into_variant_vector(self@) == Ok::<Seq<VariantView>, Error>(
                    views_of(v@),
                ),
                Err(e) => spec_into_variant_vector(self@) == Err::<Seq<VariantView>, Error>(e),
            },
    {
        proof {
            use_type_invariant(self);
        }
        if !self.present {
            return Err(Error::NullPointer);
        }
        if self.vt as i32 != VT_VARIANT || self.bounds.len() != 1 {
            return Err(Error::TypeError);
        }
        let mut out: Vec<Variant> = Vec::new();
        let mut i: usize = 0;
        while i < self.cells.len()
            invariant
                i <= self.cells.len(),
                out.len() == i,
                forall|k: int|
                    0 <= k < i ==> (#[trigger] out@[k])@ == nested_of(self.cells@[k]@).copied(),
            decreases self.cells.len() - i,
        {
            let copy = match &self.cells[i] {
                Cell::Nested(v) => v.clone(),
                _ => Variant::default(),
            };
            out.push(copy);
            i += 1;
        }
        assert(views_of(out@) =~= cell_views(self.cells@).map_values(
            |c: CellView| nested_of(c).copied(),
        ));
        Ok(out)
    }

    /// The owned array of one dimension with lower bound 0 that holds a deep
    /// copy of each dynamic value of a vector in order.
    pub fn from_variant_vector(src: &Vec<Variant>) -> (r: Result<SafeArray, Error>)
        ensures
            match r {
                Ok(a) => spec_from_variant_vector(views_of(src@)) == Ok::<SafeArrayView, Error>(a@)
                    && a@.wf(),
                Err(e) => spec_from_variant_vector(views_of(src@)) == Err::<SafeArrayView, Error>(
                    e,
                ),
            },
    {
        if src.len() > 0x8000_0000 {
            return Err(Error::NullPointer);
        }
        let mut cells: Vec<Cell> = Vec::new();
        let mut i: usize = 0;
        while i < src.len()
            invariant
                i <= src.len(),
                cells.len() == i,
                forall|k: int|
                    0 <= k < i ==> (#[trigger] cells@[k])@ == CellView::Nested(src@[k]@.copied()),
                forall|k: int|
                    0 <= k < i ==> cell_fits(VT_VARIANT as int, (#[trigger] cells@[k])@),
            decreases src.len() - i,
        {
            let copy = src[i].clone();
            proof {
                use_type_invariant(&copy);
            }
            cells.push(Cell::Nested(copy));
            i += 1;
        }
        let mut bounds: Vec<Bound> = Vec::new();
        bounds.push(Bound { lower: 0, count: src.len() as u32 });
        proof {
            lemma_volume_one(bounds@);
            assert(cell_views(cells@) =~= views_of(src@).map_values(
                |v: VariantView| CellView::Nested(v.copied()),
            ));
        }
        Ok(
            SafeArray {
                present: true,
                address: 0,
                vt: VT_VARIANT as u16,
                bounds,
                cells,
                owned: true,
            },
        )
    }

    /// Takes over what another array holds, where both stand for the same
    /// buffer of the runtime, and says whether they do: what was written
    /// through one holder of a buffer is seen by the other. The flag stays.
    pub fn follow(&mut self, other: &SafeArray) -> (same: bool)
        ensures
            same == same_buffer(old(self)@, other@),
            final(self)@ == if same {
                SafeArrayView { buffer: other@.buffer, owned: old(self)@.owned }
            } else {
                old(self)@
            },
    {
        if self.present && other.present && self.address != 0 && self.address == other.address {
            let seen = if self.owned {
                other.replica().taken_over()
            } else {
                other.borrowed()
            };
            *self = seen;
            true
        } else {
            false
        }
    }

    /// The same array once more: the same buffer and flag.
    pub fn replica(&self) -> (a: SafeArray)
        ensures
            a@ == self@,
        decreases self,
    {
        proof {
            use_type_invariant(self);
        }
        SafeArray {
            present: self.present,
            address: self.address,
            vt: self.vt,
            bounds: copy_bounds(&self.bounds),
            cells: copy_cells(&self.cells),
            owned: self.owned,
        }
    }

    /// A view of the same buffer that does not own it. What the view holds is
    /// what the buffer held when the view was taken.
    pub fn borrowed(&self) -> (a: SafeArray)
        ensures
            a@ == (SafeArrayView { buffer: self@.buffer, owned: false }),
    {
        proof {
            use_type_invariant(self);
        }
        SafeArray {
            present: self.present,
            address: self.address,
            vt: self.vt,
            bounds: copy_bounds(&self.bounds),
            cells: copy_cells(&self.cells),
            owned: false,
        }
    }

    /// Whether the handle is null.
    pub fn is_null(&self) -> (r: bool)
        ensures
            r == (self@.buffer is None),
    {
        !self.present
    }
}

} // verus!
