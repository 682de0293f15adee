//! The types that array elements are read into and written from, and the
//! cell that holds each value.

use vstd::prelude::*;
use crate::layout::{
    low16, low32, low8, signed16, signed32, signed64, signed8, take16, take32, take8,
    to_signed16, to_signed32, to_signed64, to_signed8, to_unsigned16, to_unsigned32,
    to_unsigned64, to_unsigned8, unsigned16, unsigned32, unsigned64, unsigned8,
};
use crate::cell::{cell_fits, Cell, CellView};
use crate::value::Decimal;
use crate::vartype::{
    handle_tag, is_handle_tag, scalar_width, width_of, VT_BSTR, VT_DECIMAL, VT_DISPATCH, VT_I1,
    VT_I2, VT_I4,
    VT_I8, VT_INT, VT_UI1, VT_UI2, VT_UI4, VT_UI8, VT_UINT, VT_UNKNOWN,
};

verus! {

/// A type of array elements. Its values are told by their view.
pub trait Element: Sized + View {
    /// The element tags whose cells hold a value of this type: those of its
    /// kind and width.
    spec fn admits(vt: int) -> bool;

    /// The cell that holds a value.
    spec fn cell_of(v: Self::V) -> CellView;

    /// The value that a cell holds.
    spec fn value_of(c: CellView) -> Self::V;

    /// The element tag of an array that is made of a vector of this type.
    spec fn tag() -> i32;

    /// The tag under which an array of element tag `vt` is read as a vector of
    /// this type: `vt` itself where it is the machine-integer tag of the type,
    /// else the tag of the type.
    spec fn expects(vt: int) -> i32;

    /// The element tag of an array that is made of a vector of this type.
    fn default_tag() -> (vt: i32)
        ensures
            vt == Self::tag(),
    ;

    /// The tag under which an array of element tag `vt` is read as a vector of
    /// this type.
    fn expected(vt: i32) -> (tag: i32)
        ensures
            tag == Self::expects(vt as int),
    ;

    /// Whether cells of the element tag hold a value of this type.
    fn accepts(vt: i32) -> (r: bool)
        ensures
            r == Self::admits(vt as int),
    ;

    /// The cell that holds the value.
    fn to_cell(&self) -> (c: Cell)
        ensures
            c@ == Self::cell_of(self@),
    ;

    /// The value that the cell holds.
    fn from_cell(c: &Cell) -> (v: Self)
        ensures
            v@ == Self::value_of(c@),
    ;

    /// The tag of the type, and every tag under which an array is read as a
    /// vector of the type, admit the type.
    proof fn lemma_tags_admit(vt: int)
        ensures
            Self::admits(Self::tag() as int),
            Self::admits(Self::expects(vt) as int),
            Self::expects(Self::tag() as int) == Self::tag(),
    ;

    /// The cell of a value is one that an array of an admitted tag holds.
    proof fn lemma_fits(v: Self::V, vt: int)
        requires
            Self::admits(vt),
        ensures
            cell_fits(vt, Self::cell_of(v)),
    ;

    /// A value is read back from its cell.
    proof fn lemma_value_of_cell(v: Self::V)
        ensures
            Self::value_of(Self::cell_of(v)) == v,
    ;

    /// A cell of an array of an admitted tag is the cell of the value it holds.
    proof fn lemma_cell_of_value(c: CellView, vt: int)
        requires
            Self::admits(vt),
            cell_fits(vt, c),
        ensures
            Self::cell_of(Self::value_of(c)) == c,
    ;
}

impl Element for i8 {
    open spec fn admits(vt: int) -> bool {
        scalar_width(vt) == Some(1nat)
    }

    open spec fn cell_of(v: i8) -> CellView {
        CellView::Bits(unsigned8(v) as u64)
    }

    open spec fn value_of(c: CellView) -> i8 {
        match c {
            CellView::Bits(b) => signed8(low8(b)),
            _ => 0,
        }
    }

    open spec fn tag() -> i32 {
        VT_I1
    }

    open spec fn expects(vt: int) -> i32 {
        VT_I1
    }

    fn default_tag() -> (vt: i32) {
        VT_I1
    }

    fn expected(vt: i32) -> (tag: i32) {
        VT_I1
    }

    fn accepts(vt: i32) -> (r: bool) {
        match width_of(vt) {
            Some(w) => w == 1,
            None => false,
        }
    }

    fn to_cell(&self) -> (c: Cell) {
        let v = *self;
        Cell::Bits(to_unsigned8(v) as u64)
    }

    fn from_cell(c: &Cell) -> (v: i8) {
        match c {
            Cell::Bits(b) => {
                let b = *b;
                to_signed8(take8(b))
            },
            _ => 0,
        }
    }

    proof fn lemma_tags_admit(vt: int) {
        assert(Self::admits(VT_I1 as int));
    }

    proof fn lemma_fits(v: i8, vt: int) {
    }

    proof fn lemma_value_of_cell(v: i8) {
    }

    proof fn lemma_cell_of_value(c: CellView, vt: int) {
    }
}

impl Element for i16 {
    open spec fn admits(vt: int) -> bool {
        scalar_width(vt) == Some(2nat)
    }

    open spec fn cell_of(v: i16) -> CellView {
        CellView::Bits(unsigned16(v) as u64)
    }

    open spec fn value_of(c: CellView) -> i16 {
        match c {
            CellView::Bits(b) => signed16(low16(b)),
            _ => 0,
        }
    }

    open spec fn tag() -> i32 {
        VT_I2
    }

    open spec fn expects(vt: int) -> i32 {
        VT_I2
    }

    fn default_tag() -> (vt: i32) {
        VT_I2
    }

    fn expected(vt: i32) -> (tag: i32) {
        VT_I2
    }

    fn accepts(vt: i32) -> (r: bool) {
        match width_of(vt) {
            Some(w) => w == 2,
            None => false,
        }
    }

    fn to_cell(&self) -> (c: Cell) {
        let v = *self;
        Cell::Bits(to_unsigned16(v) as u64)
    }

    fn from_cell(c: &Cell) -> (v: i16) {
        match c {
            Cell::Bits(b) => {
                let b = *b;
                to_signed16(take16(b))
            },
            _ => 0,
        }
    }

    proof fn lemma_tags_admit(vt: int) {
        assert(Self::admits(VT_I2 as int));
    }

    proof fn lemma_fits(v: i16, vt: int) {
    }

    proof fn lemma_value_of_cell(v: i16) {
    }

    proof fn lemma_cell_of_value(c: CellView, vt: int) {
    }
}

impl Element for i32 {
    open spec fn admits(vt: int) -> bool {
        scalar_width(vt) == Some(4nat)
    }

    open spec fn cell_of(v: i32) -> CellView {
        CellView::Bits(unsigned32(v) as u64)
    }

    open spec fn value_of(c: CellView) -> i32 {
        match c {
            CellView::Bits(b) => signed32(low32(b)),
            _ => 0,
        }
    }

    open spec fn tag() -> i32 {
        VT_I4
    }

    open spec fn expects(vt: int) -> i32 {
        if vt == VT_INT {
            VT_INT
        } else {
            VT_I4
        }
    }

    fn default_tag() -> (vt: i32) {
        VT_I4
    }

    fn expected(vt: i32) -> (tag: i32) {
        if vt == VT_INT {
            VT_INT
        } else {
            VT_I4
        }
    }

    fn accepts(vt: i32) -> (r: bool) {
        match width_of(vt) {
            Some(w) => w == 4,
            None => false,
        }
    }

    fn to_cell(&self) -> (c: Cell) {
        let v = *self;
        Cell::Bits(to_unsigned32(v) as u64)
    }

    fn from_cell(c: &Cell) -> (v: i32) {
        match c {
            Cell::Bits(b) => {
                let b = *b;
                to_signed32(take32(b))
            },
            _ => 0,
        }
    }

    proof fn lemma_tags_admit(vt: int) {
        assert(Self::admits(VT_I4 as int));
    }

    proof fn lemma_fits(v: i32, vt: int) {
    }

    proof fn lemma_value_of_cell(v: i32) {
    }

    proof fn lemma_cell_of_value(c: CellView, vt: int) {
    }
}

impl Element for i64 {
    open spec fn admits(vt: int) -> bool {
        scalar_width(vt) == Some(8nat)
    }

    open spec fn cell_of(v: i64) -> CellView {
        CellView::Bits(unsigned64(v))
    }

    open spec fn value_of(c: CellView) -> i64 {
        match c {
            CellView::Bits(b) => signed64(b),
            _ => 0,
        }
    }

    open spec fn tag() -> i32 {
        VT_I8
    }

    open spec fn expects(vt: int) -> i32 {
        VT_I8
    }

    fn default_tag() -> (vt: i32) {
        VT_I8
    }

    fn expected(vt: i32) -> (tag: i32) {
        VT_I8
    }

    fn accepts(vt: i32) -> (r: bool) {
        match width_of(vt) {
            Some(w) => w == 8,
            None => false,
        }
    }

    fn to_cell(&self) -> (c: Cell) {
        let v = *self;
        Cell::Bits(to_unsigned64(v))
    }

    fn from_cell(c: &Cell) -> (v: i64) {
        match c {
            Cell::Bits(b) => {
                let b = *b;
                to_signed64(b)
            },
            _ => 0,
        }
    }

    proof fn lemma_tags_admit(vt: int) {
        assert(Self::admits(VT_I8 as int));
    }

    proof fn lemma_fits(v: i64, vt: int) {
    }

    proof fn lemma_value_of_cell(v: i64) {
    }

    proof fn lemma_cell_of_value(c: CellView, vt: int) {
    }
}

impl Element for u8 {
    open spec fn admits(vt: int) -> bool {
        scalar_width(vt) == Some(1nat)
    }

    open spec fn cell_of(v: u8) -> CellView {
        CellView::Bits(v as u64)
    }

    open spec fn value_of(c: CellView) -> u8 {
        match c {
            CellView::Bits(b) => low8(b),
            _ => 0,
        }
    }

    open spec fn tag() -> i32 {
        VT_UI1
    }

    open spec fn expects(vt: int) -> i32 {
        VT_UI1
    }

    fn default_tag() -> (vt: i32) {
        VT_UI1
    }

    fn expected(vt: i32) -> (tag: i32) {
        VT_UI1
    }

    fn accepts(vt: i32) -> (r: bool) {
        match width_of(vt) {
            Some(w) => w == 1,
            None => false,
        }
    }

    fn to_cell(&self) -> (c: Cell) {
        let v = *self;
        Cell::Bits(v as u64)
    }

    fn from_cell(c: &Cell) -> (v: u8) {
        match c {
            Cell::Bits(b) => {
                let b = *b;
                take8(b)
            },
            _ => 0,
        }
    }

    proof fn lemma_tags_admit(vt: int) {
        assert(Self::admits(VT_UI1 as int));
    }

    proof fn lemma_fits(v: u8, vt: int) {
    }

    proof fn lemma_value_of_cell(v: u8) {
    }

    proof fn lemma_cell_of_value(c: CellView, vt: int) {
    }
}

impl Element for u16 {
    open spec fn admits(vt: int) -> bool {
        scalar_width(vt) == Some(2nat)
    }

    open spec fn cell_of(v: u16) -> CellView {
        CellView::Bits(v as u64)
    }

    open spec fn value_of(c: CellView) -> u16 {
        match c {
            CellView::Bits(b) => low16(b),
            _ => 0,
        }
    }

    open spec fn tag() -> i32 {
        VT_UI2
    }

    open spec fn expects(vt: int) -> i32 {
        VT_UI2
    }

    fn default_tag() -> (vt: i32) {
        VT_UI2
    }

    fn expected(vt: i32) -> (tag: i32) {
        VT_UI2
    }

    fn accepts(vt: i32) -> (r: bool) {
        match width_of(vt) {
            Some(w) => w == 2,
            None => false,
        }
    }

    fn to_cell(&self) -> (c: Cell) {
        let v = *self;
        Cell::Bits(v as u64)
    }

    fn from_cell(c: &Cell) -> (v: u16) {
        match c {
            Cell::Bits(b) => {
                let b = *b;
                take16(b)
            },
            _ => 0,
        }
    }

    proof fn lemma_tags_admit(vt: int) {
        assert(Self::admits(VT_UI2 as int));
    }

    proof fn lemma_fits(v: u16, vt: int) {
    }

    proof fn lemma_value_of_cell(v: u16) {
    }

    proof fn lemma_cell_of_value(c: CellView, vt: int) {
    }
}

impl Element for u32 {
    open spec fn admits(vt: int) -> bool {
        scalar_width(vt) == Some(4nat)
    }

    open spec fn cell_of(v: u32) -> CellView {
        CellView::Bits(v as u64)
    }

    open spec fn value_of(c: CellView) -> u32 {
        match c {
            CellView::Bits(b) => low32(b),
            _ => 0,
        }
    }

    open spec fn tag() -> i32 {
        VT_UI4
    }

    open spec fn expects(vt: int) -> i32 {
        if vt == VT_UINT {
            VT_UINT
        } else {
            VT_UI4
        }
    }

    fn default_tag() -> (vt: i32) {
        VT_UI4
    }

    fn expected(vt: i32) -> (tag: i32) {
        if vt == VT_UINT {
            VT_UINT
        } else {
            VT_UI4
        }
    }

    fn accepts(vt: i32) -> (r: bool) {
        match width_of(vt) {
            Some(w) => w == 4,
            None => false,
        }
    }

    fn to_cell(&self) -> (c: Cell) {
        let v = *self;
        Cell::Bits(v as u64)
    }

    fn from_cell(c: &Cell) -> (v: u32) {
        match c {
            Cell::Bits(b) => {
                let b = *b;
                take32(b)
            },
            _ => 0,
        }
    }

    proof fn lemma_tags_admit(vt: int) {
        assert(Self::admits(VT_UI4 as int));
    }

    proof fn lemma_fits(v: u32, vt: int) {
    }

    proof fn lemma_value_of_cell(v: u32) {
    }

    proof fn lemma_cell_of_value(c: CellView, vt: int) {
    }
}

impl Element for u64 {
    open spec fn admits(vt: int) -> bool {
        scalar_width(vt) == Some(8nat)
    }

    open spec fn cell_of(v: u64) -> CellView {
        CellView::Bits(v)
    }

    open spec fn value_of(c: CellView) -> u64 {
        match c {
            CellView::Bits(b) => b,
            _ => 0,
        }
    }

    open spec fn tag() -> i32 {
        VT_UI8
    }

    open spec fn expects(vt: int) -> i32 {
        VT_UI8
    }

    fn default_tag() -> (vt: i32) {
        VT_UI8
    }

    fn expected(vt: i32) -> (tag: i32) {
        VT_UI8
    }

    fn accepts(vt: i32) -> (r: bool) {
        match width_of(vt) {
            Some(w) => w == 8,
            None => false,
        }
    }

    fn to_cell(&self) -> (c: Cell) {
        let v = *self;
        Cell::Bits(v)
    }

    fn from_cell(c: &Cell) -> (v: u64) {
        match c {
            Cell::Bits(b) => {
                let b = *b;
                b
            },
            _ => 0,
        }
    }

    proof fn lemma_tags_admit(vt: int) {
        assert(Self::admits(VT_UI8 as int));
    }

    proof fn lemma_fits(v: u64, vt: int) {
    }

    proof fn lemma_value_of_cell(v: u64) {
    }

    proof fn lemma_cell_of_value(c: CellView, vt: int) {
    }
}

/// The address of a reference handle, which may be null.
impl Element for usize {
    open spec fn admits(vt: int) -> bool {
        handle_tag(vt)
    }

    open spec fn cell_of(v: usize) -> CellView {
        CellView::Object(v)
    }

    open spec fn value_of(c: CellView) -> usize {
        match c {
            CellView::Object(h) => h,
            _ => 0,
        }
    }

    open spec fn tag() -> i32 {
        VT_UNKNOWN
    }

    open spec fn expects(vt: int) -> i32 {
        if vt == VT_DISPATCH {
            VT_DISPATCH
        } else {
            VT_UNKNOWN
        }
    }

    fn default_tag() -> (vt: i32) {
        VT_UNKNOWN
    }

    fn expected(vt: i32) -> (tag: i32) {
        if vt == VT_DISPATCH {
            VT_DISPATCH
        } else {
            VT_UNKNOWN
        }
    }

    fn accepts(vt: i32) -> (r: bool) {
        is_handle_tag(vt)
    }

    fn to_cell(&self) -> (c: Cell) {
        Cell::Object(*self)
    }

    fn from_cell(c: &Cell) -> (v: usize) {
        match c {
            Cell::Object(h) => *h,
            _ => 0,
        }
    }

    proof fn lemma_tags_admit(vt: int) {
        assert(Self::admits(VT_UNKNOWN as int));
    }

    proof fn lemma_fits(v: usize, vt: int) {
    }

    proof fn lemma_value_of_cell(v: usize) {
    }

    proof fn lemma_cell_of_value(c: CellView, vt: int) {
    }
}

impl Element for Decimal {
    open spec fn admits(vt: int) -> bool {
        vt == VT_DECIMAL
    }

    open spec fn cell_of(v: Decimal) -> CellView {
        CellView::Decimal(v)
    }

    open spec fn value_of(c: CellView) -> Decimal {
        match c {
            CellView::Decimal(d) => d,
            _ => Decimal { scale: 0, sign: 0, hi32: 0, lo64: 0 },
        }
    }

    open spec fn tag() -> i32 {
        VT_DECIMAL
    }

    open spec fn expects(vt: int) -> i32 {
        VT_DECIMAL
    }

    fn default_tag() -> (vt: i32) {
        VT_DECIMAL
    }

    fn expected(vt: i32) -> (tag: i32) {
        VT_DECIMAL
    }

    fn accepts(vt: i32) -> (r: bool) {
        vt == VT_DECIMAL
    }

    fn to_cell(&self) -> (c: Cell) {
        Cell::Decimal(*self)
    }

    fn from_cell(c: &Cell) -> (v: Decimal) {
        match c {
            Cell::Decimal(d) => *d,
            _ => Decimal { scale: 0, sign: 0, hi32: 0, lo64: 0 },
        }
    }

    proof fn lemma_tags_admit(vt: int) {
        assert(Self::admits(VT_DECIMAL as int));
    }

    proof fn lemma_fits(v: Decimal, vt: int) {
    }

    proof fn lemma_value_of_cell(v: Decimal) {
    }

    proof fn lemma_cell_of_value(c: CellView, vt: int) {
    }
}

impl Element for String {
    open spec fn admits(vt: int) -> bool {
        vt == VT_BSTR
    }

    open spec fn cell_of(v: Seq<char>) -> CellView {
        CellView::Text(v)
    }

    open spec fn value_of(c: CellView) -> Seq<char> {
        match c {
            CellView::Text(s) => s,
            _ => Seq::empty(),
        }
    }

    open spec fn tag() -> i32 {
        VT_BSTR
    }

    open spec fn expects(vt: int) -> i32 {
        VT_BSTR
    }

    fn default_tag() -> (vt: i32) {
        VT_BSTR
    }

    fn expected(vt: i32) -> (tag: i32) {
        VT_BSTR
    }

    fn accepts(vt: i32) -> (r: bool) {
        vt == VT_BSTR
    }

    fn to_cell(&self) -> (c: Cell) {
        Cell::Text(self.clone())
    }

    fn from_cell(c: &Cell) -> (v: String) {
        match c {
            Cell::Text(s) => s.clone(),
            _ => String::new(),
        }
    }

    proof fn lemma_tags_admit(vt: int) {
        assert(Self::admits(VT_BSTR as int));
    }

    proof fn lemma_fits(v: Seq<char>, vt: int) {
    }

    proof fn lemma_value_of_cell(v: Seq<char>) {
    }

    proof fn lemma_cell_of_value(c: CellView, vt: int) {
    }
}

} // verus!
