//! The elements of an array: one cell each, of the kind that the element tag
//! selects.

use vstd::prelude::*;
use crate::counting::{cell_references, cells_references};
use crate::value::Decimal;
use crate::variant::{PayloadView, Variant, VariantView};
use crate::vartype::{
    handle_tag, is_handle_tag, scalar_width, width_of, VT_BSTR, VT_DECIMAL, VT_EMPTY, VT_VARIANT,
};

verus! {

/// One element of an array.
#[derive(Debug, PartialEq, Eq)]
pub enum Cell {
    /// A scalar: its bytes, little-endian, in the low end of the word.
    Bits(u64),
    /// A dynamic string.
    Text(String),
    /// A reference handle; zero is the null handle.
    Object(usize),
    /// A decimal number.
    Decimal(Decimal),
    /// A dynamic value.
    Nested(Variant),
}

/// What a `Cell` holds.
pub enum CellView {
    Bits(u64),
    Text(Seq<char>),
    Object(usize),
    Decimal(Decimal),
    Nested(VariantView),
}

impl CellView {
    /// The duplicate of the cell: the same, but for a dynamic value, which is
    /// copied deep.
    pub open spec fn copied(self) -> CellView
        decreases self,
    {
        match self {
            CellView::Nested(v) => CellView::Nested(v.copied()),
            other => other,
        }
    }
}

impl Cell {
    /// What the cell holds.
    pub open spec fn model(self) -> CellView
        decreases self,
    {
        match self {
            Cell::Bits(b) => CellView::Bits(b),
            Cell::Text(s) => CellView::Text(s@),
            Cell::Object(h) => CellView::Object(h),
            Cell::Decimal(d) => CellView::Decimal(d),
            Cell::Nested(v) => CellView::Nested(v.model()),
        }
    }

    /// The same cell once more: what it holds lies where it lay.
    pub fn replica(&self) -> (c: Cell)
        ensures
            c@ == self@,
        decreases self,
    {
        match self {
            Cell::Bits(b) => Cell::Bits(*b),
            Cell::Text(s) => Cell::Text(s.clone()),
            Cell::Object(h) => Cell::Object(*h),
            Cell::Decimal(d) => Cell::Decimal(*d),
            Cell::Nested(v) => Cell::Nested(v.replica()),
        }
    }
}

impl View for Cell {
    type V = CellView;

    open spec fn view(&self) -> CellView {
        self.model()
    }
}

impl Clone for Cell {
    /// A duplicate of the cell, with a deep copy of a dynamic value in it.
    fn clone(&self) -> (c: Cell)
        ensures
            c@ == self@.copied(),
        decreases self,
    {
        match self {
            Cell::Bits(b) => Cell::Bits(*b),
            Cell::Text(s) => Cell::Text(s.clone()),
            Cell::Object(h) => Cell::Object(*h),
            Cell::Decimal(d) => Cell::Decimal(*d),
            Cell::Nested(v) => Cell::Nested(v.clone()),
        }
    }
}

/// The largest word that `width` bytes spell.
pub open spec fn width_limit(width: nat) -> int {
    if width == 1 {
        0xff
    } else if width == 2 {
        0xffff
    } else if width == 4 {
        0xffff_ffff
    } else {
        0xffff_ffff_ffff_ffff
    }
}

/// Element tags that an array can be made of: the scalars, the dynamic string,
/// the two reference handles, the decimal and the dynamic value.
pub open spec fn storable(vt: int) -> bool {
    scalar_width(vt) is Some || vt == VT_BSTR || handle_tag(vt) || vt == VT_DECIMAL || vt
        == VT_VARIANT
}

/// The cell is one that an array of this element tag holds: of the tag's kind,
/// for a scalar within the tag's width, and for a dynamic value well formed.
pub open spec fn cell_fits(vt: int, c: CellView) -> bool
    decreases c,
{
    match c {
        CellView::Bits(b) => scalar_width(vt) is Some && b <= width_limit(scalar_width(vt)->0),
        CellView::Text(_) => vt == VT_BSTR,
        CellView::Object(_) => handle_tag(vt),
        CellView::Decimal(_) => vt == VT_DECIMAL,
        CellView::Nested(v) => vt == VT_VARIANT && v.wf(),
    }
}

/// The cell that a newly made array of this element tag holds everywhere:
/// zero, the empty string, the null handle, or the empty dynamic value.
pub open spec fn blank_cell(vt: int) -> CellView {
    if vt == VT_BSTR {
        CellView::Text(Seq::empty())
    } else if handle_tag(vt) {
        CellView::Object(0)
    } else if vt == VT_DECIMAL {
        CellView::Decimal(Decimal { scale: 0, sign: 0, hi32: 0, lo64: 0 })
    } else if vt == VT_VARIANT {
        CellView::Nested(VariantView { vt: VT_EMPTY as u16, data: PayloadView::Scalar(0) })
    } else {
        CellView::Bits(0)
    }
}

/// The views of a run of cells.
pub open spec fn cell_views(cells: Seq<Cell>) -> Seq<CellView> {
    cells.map_values(|c: Cell| c@)
}

/// Whether an array can be made of the element tag.
pub fn can_store(vt: i32) -> (r: bool)
    ensures
        r == storable(vt as int),
{
    width_of(vt).is_some() || vt == VT_BSTR || is_handle_tag(vt) || vt == VT_DECIMAL || vt
        == VT_VARIANT
}

/// The largest word that `width` bytes spell.
fn limit_of(width: u8) -> (m: u64)
    ensures
        m == width_limit(width as nat),
{
    if width == 1 {
        0xff
    } else if width == 2 {
        0xffff
    } else if width == 4 {
        0xffff_ffff
    } else {
        0xffff_ffff_ffff_ffff
    }
}

/// Whether an array of the element tag holds the cell.
pub fn fits(vt: i32, c: &Cell) -> (r: bool)
    ensures
        r == cell_fits(vt as int, c@),
{
    match c {
        Cell::Bits(b) => match width_of(vt) {
            Some(w) => *b <= limit_of(w),
            None => false,
        },
        Cell::Text(_) => vt == VT_BSTR,
        Cell::Object(_) => is_handle_tag(vt),
        Cell::Decimal(_) => vt == VT_DECIMAL,
        Cell::Nested(v) => {
            proof {
                use_type_invariant(v);
            }
            vt == VT_VARIANT
        },
    }
}

/// The cell that a newly made array of the element tag holds everywhere.
pub(crate) fn blank(vt: i32) -> (c: Cell)
    ensures
        c@ == blank_cell(vt as int),
{
    if vt == VT_BSTR {
        Cell::Text(String::new())
    } else if is_handle_tag(vt) {
        Cell::Object(0)
    } else if vt == VT_DECIMAL {
        Cell::Decimal(Decimal { scale: 0, sign: 0, hi32: 0, lo64: 0 })
    } else if vt == VT_VARIANT {
        Cell::Nested(Variant::default())
    } else {
        Cell::Bits(0)
    }
}

/// The addresses of the live references in the cells, in order.
#[verifier::loop_isolation(false)]
pub(crate) fn references_in(cells: &Vec<Cell>) -> (out: Vec<usize>)
    ensures
        out@ == cells_references(cell_views(cells@), cells@.len()),
    decreases cells,
{
    let ghost all = cell_views(cells@);
    let mut out: Vec<usize> = Vec::new();
    let mut i: usize = 0;
    while i < cells.len()
        invariant
            i <= cells.len(),
            out@ == cells_references(all, i as nat),
        decreases cells.len() - i,
    {
        let ghost before = out@;
        assert(all[i as int] == cells@[i as int]@);
        match &cells[i] {
            Cell::Object(h) => {
                if *h != 0 {
                    out.push(*h);
                }
            },
            Cell::Nested(v) => {
                let mut inner = v.references();
                out.append(&mut inner);
            },
            _ => {},
        }
        assert(out@ =~= before + cell_references(all[i as int]));
        i += 1;
    }
    out
}

/// The duplicates of a run of cells.
pub open spec fn copied_cells(cells: Seq<CellView>) -> Seq<CellView>
    decreases cells,
{
    Seq::new(
        cells.len(),
        |i: int|
            if 0 <= i < cells.len() {
                cells[i].copied()
            } else {
                CellView::Bits(0)
            },
    )
}

/// The same cells once more.
#[verifier::loop_isolation(false)]
pub(crate) fn copy_cells(cells: &Vec<Cell>) -> (out: Vec<Cell>)
    ensures
        cell_views(out@) == cell_views(cells@),
    decreases cells,
{
    let mut out: Vec<Cell> = Vec::new();
    let mut i: usize = 0;
    while i < cells.len()
        invariant
            i <= cells.len(),
            out.len() == i,
            forall|k: int| 0 <= k < i ==> (#[trigger] out@[k])@ == cells@[k]@,
        decreases cells.len() - i,
    {
        out.push(cells[i].replica());
        i += 1;
    }
    assert(cell_views(out@) =~= cell_views(cells@));
    out
}

/// Duplicates of the cells, with a deep copy of each dynamic value among them.
#[verifier::loop_isolation(false)]
pub(crate) fn duplicate_cells(cells: &Vec<Cell>) -> (out: Vec<Cell>)
    ensures
        cell_views(out@) == copied_cells(cell_views(cells@)),
    decreases cells,
{
    let mut out: Vec<Cell> = Vec::new();
    let mut i: usize = 0;
    while i < cells.len()
        invariant
            i <= cells.len(),
            out.len() == i,
            forall|k: int| 0 <= k < i ==> (#[trigger] out@[k])@ == cells@[k]@.copied(),
        decreases cells.len() - i,
    {
        out.push(cells[i].clone());
        i += 1;
    }
    assert(cell_views(out@) =~= copied_cells(cell_views(cells@)));
    out
}

} // verus!
