//! How values and arrays are rendered: a value as `TAG(payload)`, an array as a
//! list in square brackets. A tag without a scalar rendering stands alone.

use vstd::prelude::*;
use crate::layout::{
    bits_bool, from_bool_bits, low16, low32, low8, signed16, signed32, signed64, signed8, take16,
    take32, take8, to_signed16, to_signed32, to_signed64, to_signed8,
};
use crate::cell::{cell_views, Cell, CellView};
use crate::safearray::{SafeArray, SafeArrayView};
use crate::text::{
    bool_text, bool_word_text, bracket, bracketed, piece_views, signed_decimal, signed_text,
    text_piece, unsigned_text, decimal, wrap, wrapped, Piece, PieceView,
};
use crate::value::{Value, ValueView};
use crate::variant::{spec_value, Payload, PayloadView, Variant, VariantView};
use crate::vartype::{
    VT_BOOL, VT_BSTR, VT_I1, VT_I2, VT_I4, VT_I8, VT_INT, VT_R4, VT_R8, VT_UI1, VT_UI2, VT_UI4,
    VT_UI8, VT_UINT, VT_VARIANT,
};

verus! {

/// The element tags whose arrays are rendered as a list: boolean, the
/// integers, the two reals and the dynamic string.
pub open spec fn listable(vt: int) -> bool {
    vt == VT_BOOL || vt == VT_I1 || vt == VT_I2 || vt == VT_I4 || vt == VT_INT || vt == VT_I8 || vt
        == VT_UI1 || vt == VT_UI2 || vt == VT_UI4 || vt == VT_UINT || vt == VT_UI8 || vt == VT_R4
        || vt == VT_R8 || vt == VT_BSTR
}

/// One element of a list, read as the element tag says: a boolean as a word,
/// an integer in decimal, a real by its bits, a string as it stands.
pub open spec fn cell_piece(vt: int, c: CellView) -> PieceView {
    let bits = match c {
        CellView::Bits(b) => b,
        _ => 0,
    };
    if vt == VT_BOOL {
        PieceView::Text(bool_text(bits_bool(bits)))
    } else if vt == VT_I1 {
        PieceView::Text(signed_decimal(signed8(low8(bits)) as int))
    } else if vt == VT_I2 {
        PieceView::Text(signed_decimal(signed16(low16(bits)) as int))
    } else if vt == VT_I4 || vt == VT_INT {
        PieceView::Text(signed_decimal(signed32(low32(bits)) as int))
    } else if vt == VT_I8 {
        PieceView::Text(signed_decimal(signed64(bits) as int))
    } else if vt == VT_UI1 {
        PieceView::Text(decimal(low8(bits) as nat))
    } else if vt == VT_UI2 {
        PieceView::Text(decimal(low16(bits) as nat))
    } else if vt == VT_UI4 || vt == VT_UINT {
        PieceView::Text(decimal(low32(bits) as nat))
    } else if vt == VT_UI8 {
        PieceView::Text(decimal(bits as nat))
    } else if vt == VT_R4 {
        PieceView::Single(low32(bits))
    } else if vt == VT_R8 {
        PieceView::Double(bits)
    } else {
        PieceView::Text(
            match c {
                CellView::Text(s) => s,
                _ => Seq::empty(),
            },
        )
    }
}

/// An array rendered: its elements in index order, separated by a comma and a
/// space, in square brackets. Nothing, which stands for a formatting error,
/// behind a null handle, for an array that has not exactly one dimension, and
/// for an element tag that is not listable.
pub open spec fn array_pieces(a: SafeArrayView) -> Option<Seq<PieceView>> {
    match a.buffer {
        None => None,
        Some(b) => if listable(b.vt as int) && b.bounds.len() == 1 {
            Some(bracketed(b.cells.map_values(|c: CellView| cell_piece(b.vt as int, c))))
        } else {
            None
        },
    }
}

/// A tag name and a payload in round brackets.
pub open spec fn labelled(tag: Seq<char>, payload: PieceView) -> Seq<PieceView> {
    wrapped(tag, seq![payload])
}

/// A value that holds no other dynamic value, rendered.
pub open spec fn flat_pieces(val: ValueView) -> Option<Seq<PieceView>> {
    match val {
        ValueView::EMPTY => Some(seq![PieceView::Text("EMPTY"@)]),
        ValueView::NULL => Some(seq![PieceView::Text("NULL"@)]),
        ValueView::VOID => Some(seq![PieceView::Text("VOID"@)]),
        ValueView::I1(v) => Some(labelled("I1("@, PieceView::Text(signed_decimal(v as int)))),
        ValueView::I2(v) => Some(labelled("I2("@, PieceView::Text(signed_decimal(v as int)))),
        ValueView::I4(v) => Some(labelled("I4("@, PieceView::Text(signed_decimal(v as int)))),
        ValueView::I8(v) => Some(labelled("I8("@, PieceView::Text(signed_decimal(v as int)))),
        ValueView::INT(v) => Some(labelled("INT("@, PieceView::Text(signed_decimal(v as int)))),
        ValueView::UI1(v) => Some(labelled("UI1("@, PieceView::Text(decimal(v as nat)))),
        ValueView::UI2(v) => Some(labelled("UI2("@, PieceView::Text(decimal(v as nat)))),
        ValueView::UI4(v) => Some(labelled("UI4("@, PieceView::Text(decimal(v as nat)))),
        ValueView::UI8(v) => Some(labelled("UI8("@, PieceView::Text(decimal(v as nat)))),
        ValueView::UINT(v) => Some(labelled("UINT("@, PieceView::Text(decimal(v as nat)))),
        ValueView::R4(b) => Some(labelled("R4("@, PieceView::Single(b))),
        ValueView::R8(b) => Some(labelled("R8("@, PieceView::Double(b))),
        ValueView::CURRENCY(v) => Some(labelled("CY("@, PieceView::Text(signed_decimal(v as int)))),
        ValueView::DATE(b) => Some(labelled("DATE("@, PieceView::Double(b))),
        ValueView::STRING(s) => Some(labelled("STRING("@, PieceView::Text(s))),
        ValueView::UNKNOWN(_) => Some(seq![PieceView::Text("UNKNOWN"@)]),
        ValueView::DISPATCH(_) => Some(seq![PieceView::Text("DISPATCH"@)]),
        ValueView::ERROR(c) => Some(labelled("ERROR("@, PieceView::Text(signed_decimal(c as int)))),
        ValueView::HRESULT(c) => Some(
            labelled("HRESULT("@, PieceView::Text(signed_decimal(c as int))),
        ),
        ValueView::BOOL(b) => Some(labelled("BOOL("@, PieceView::Text(bool_text(b)))),
        ValueView::VARIANT(_) => None,
        ValueView::DECIMAL(_) => Some(seq![PieceView::Text("DECIMAL"@)]),
        ValueView::SAFEARRAY(a) => match array_pieces(a) {
            Some(list) => Some(wrapped("SAFEARRAY("@, list)),
            None => None,
        },
        ValueView::ARRAY(a) => match array_pieces(a) {
            Some(list) => Some(wrapped("ARRAY("@, list)),
            None => None,
        },
    }
}

/// A dynamic value rendered: the rendering of the value it decomposes into,
/// and nothing where it decomposes into none or that value has no rendering.
pub open spec fn variant_pieces(v: VariantView) -> Option<Seq<PieceView>>
    decreases v,
{
    if v.vt == VT_VARIANT {
        match v.data {
            PayloadView::Nested(inner) => match variant_pieces(*inner) {
                Some(p) => Some(wrapped("VARIANT("@, p)),
                None => None,
            },
            _ => None,
        }
    } else {
        match spec_value(v) {
            Ok(val) => flat_pieces(val),
            Err(_) => None,
        }
    }
}

/// A value rendered as `TAG(payload)`. The empty kinds, the reference handles
/// and the decimal stand as their tag alone.
pub open spec fn value_pieces(val: ValueView) -> Option<Seq<PieceView>> {
    match val {
        ValueView::VARIANT(v) => match variant_pieces(v) {
            Some(p) => Some(wrapped("VARIANT("@, p)),
            None => None,
        },
        _ => flat_pieces(val),
    }
}

/// A duplicate of a dynamic value is rendered as the dynamic value is: the
/// rendering does not tell in which buffer an array lies.
pub proof fn lemma_duplicate_rendered_alike(v: VariantView)
    requires
        v.wf(),
    ensures
        variant_pieces(v.copied()) == variant_pieces(v),
    decreases v,
{
    match v.data {
        PayloadView::Nested(inner) => {
            lemma_duplicate_rendered_alike(*inner);
        },
        PayloadView::Array(a) => {
            if a.buffer is Some {
                let b = a.buffer->0;
                let c = a.copied().buffer->0;
                assert(c.cells.map_values(|x: CellView| cell_piece(b.vt as int, x))
                    =~= b.cells.map_values(|x: CellView| cell_piece(b.vt as int, x)));
            }
            assert(array_pieces(a.copied()) == array_pieces(a));
            assert(array_pieces(SafeArrayView { buffer: a.copied().buffer, owned: false })
                == array_pieces(SafeArrayView { buffer: a.buffer, owned: false }));
        },
        _ => {},
    }
}

/// A dynamic value is rendered as the value that it decomposes into.
pub proof fn lemma_variant_rendered_as_value(v: VariantView)
    requires
        v.wf(),
    ensures
        variant_pieces(v) == match spec_value(v) {
            Ok(val) => value_pieces(val),
            Err(_) => None::<Seq<PieceView>>,
        },
{
    match v.data {
        PayloadView::Nested(inner) => {
            lemma_duplicate_rendered_alike(*inner);
        },
        _ => {},
    }
}

/// One element of a list.
fn cell_to_piece(vt: i32, c: &Cell) -> (p: Piece)
    ensures
        p@ == cell_piece(vt as int, c@),
{
    let bits = match c {
        Cell::Bits(b) => *b,
        _ => 0,
    };
    if vt == VT_BOOL {
        Piece::Text(bool_word_text(from_bool_bits(bits)))
    } else if vt == VT_I1 {
        Piece::Text(signed_text(to_signed8(take8(bits)) as i64))
    } else if vt == VT_I2 {
        Piece::Text(signed_text(to_signed16(take16(bits)) as i64))
    } else if vt == VT_I4 || vt == VT_INT {
        Piece::Text(signed_text(to_signed32(take32(bits)) as i64))
    } else if vt == VT_I8 {
        Piece::Text(signed_text(to_signed64(bits)))
    } else if vt == VT_UI1 {
        Piece::Text(unsigned_text(take8(bits) as u64))
    } else if vt == VT_UI2 {
        Piece::Text(unsigned_text(take16(bits) as u64))
    } else if vt == VT_UI4 || vt == VT_UINT {
        Piece::Text(unsigned_text(take32(bits) as u64))
    } else if vt == VT_UI8 {
        Piece::Text(unsigned_text(bits))
    } else if vt == VT_R4 {
        Piece::Single(take32(bits))
    } else if vt == VT_R8 {
        Piece::Double(bits)
    } else {
        match c {
            Cell::Text(s) => Piece::Text(s.clone()),
            _ => Piece::Text(String::new()),
        }
    }
}

/// Whether arrays of the element tag are rendered as a list.
fn is_listable(vt: i32) -> (r: bool)
    ensures
        r == listable(vt as int),
{
    vt == VT_BOOL || vt == VT_I1 || vt == VT_I2 || vt == VT_I4 || vt == VT_INT || vt == VT_I8 || vt
        == VT_UI1 || vt == VT_UI2 || vt == VT_UI4 || vt == VT_UINT || vt == VT_UI8 || vt == VT_R4
        || vt == VT_R8 || vt == VT_BSTR
}

/// A tag name and a payload in round brackets.
fn label(tag: &str, payload: Piece) -> (out: Vec<Piece>)
    ensures
        piece_views(out@) == labelled(tag@, payload@),
{
    let mut inner: Vec<Piece> = Vec::new();
    inner.push(payload);
    wrap(tag, inner)
}

/// A piece of text on its own.
fn alone(tag: &str) -> (out: Vec<Piece>)
    ensures
        piece_views(out@) == seq![PieceView::Text(tag@)],
{
    let mut out: Vec<Piece> = Vec::new();
    out.push(text_piece(tag));
    out
}

impl SafeArray {
    /// The array rendered as a list in square brackets, or nothing, which
    /// stands for a formatting error.
    pub fn fmt(&self) -> (r: Option<Vec<Piece>>)
        ensures
            match r {
                Some(p) => array_pieces(self@) == Some(piece_views(p@)),
                None => array_pieces(self@) is None,
            },
    {
        let vt = match self.get_var_type() {
            Ok(vt) => vt,
            Err(_) => {
                return None;
            },
        };
        if !is_listable(vt) || self.get_dim() != 1 {
            return None;
        }
        let cells = match self.get_array() {
            Some(cells) => cells,
            None => {
                return None;
            },
        };
        let mut items: Vec<Piece> = Vec::new();
        let mut i: usize = 0;
        while i < cells.len()
            invariant
                i <= cells.len(),
                items.len() == i,
                forall|k: int| 0 <= k < i ==> (#[trigger] items@[k])@ == cell_piece(vt as int, cells@[k]@),
            decreases cells.len() - i,
        {
            items.push(cell_to_piece(vt, &cells[i]));
            i += 1;
        }
        proof {
            assert(piece_views(items@) =~= cell_views(cells@).map_values(
                |c: CellView| cell_piece(vt as int, c),
            ));
        }
        Some(bracket(&items))
    }
}

impl Value {
    /// A value that holds no other dynamic value, rendered.
    fn fmt_flat(&self) -> (r: Option<Vec<Piece>>)
        ensures
            match r {
                Some(p) => flat_pieces(self@) == Some(piece_views(p@)),
                None => flat_pieces(self@) is None,
            },
    {
        match self {
            Value::EMPTY => Some(alone("EMPTY")),
            Value::NULL => Some(alone("NULL")),
            Value::VOID => Some(alone("VOID")),
            Value::I1(v) => Some(label("I1(", Piece::Text(signed_text(*v as i64)))),
            Value::I2(v) => Some(label("I2(", Piece::Text(signed_text(*v as i64)))),
            Value::I4(v) => Some(label("I4(", Piece::Text(signed_text(*v as i64)))),
            Value::I8(v) => Some(label("I8(", Piece::Text(signed_text(*v)))),
            Value::INT(v) => Some(label("INT(", Piece::Text(signed_text(*v as i64)))),
            Value::UI1(v) => Some(label("UI1(", Piece::Text(unsigned_text(*v as u64)))),
            Value::UI2(v) => Some(label("UI2(", Piece::Text(unsigned_text(*v as u64)))),
            Value::UI4(v) => Some(label("UI4(", Piece::Text(unsigned_text(*v as u64)))),
            Value::UI8(v) => Some(label("UI8(", Piece::Text(unsigned_text(*v)))),
            Value::UINT(v) => Some(label("UINT(", Piece::Text(unsigned_text(*v as u64)))),
            Value::R4(b) => Some(label("R4(", Piece::Single(*b))),
            Value::R8(b) => Some(label("R8(", Piece::Double(*b))),
            Value::CURRENCY(v) => Some(label("CY(", Piece::Text(signed_text(*v)))),
            Value::DATE(b) => Some(label("DATE(", Piece::Double(*b))),
            Value::STRING(s) => Some(label("STRING(", Piece::Text(s.clone()))),
            Value::UNKNOWN(_) => Some(alone("UNKNOWN")),
            Value::DISPATCH(_) => Some(alone("DISPATCH")),
            Value::ERROR(c) => Some(label("ERROR(", Piece::Text(signed_text(*c as i64)))),
            Value::HRESULT(c) => Some(label("HRESULT(", Piece::Text(signed_text(*c as i64)))),
            Value::BOOL(b) => Some(label("BOOL(", Piece::Text(bool_word_text(*b)))),
            Value::VARIANT(_) => None,
            Value::DECIMAL(_) => Some(alone("DECIMAL")),
            Value::SAFEARRAY(a) => match a.fmt() {
                Some(list) => Some(wrap("SAFEARRAY(", list)),
                None => None,
            },
            Value::ARRAY(a) => match a.fmt() {
                Some(list) => Some(wrap("ARRAY(", list)),
                None => None,
            },
        }
    }

    /// The value rendered as `TAG(payload)`, or nothing, which stands for a
    /// formatting error.
    pub fn fmt(&self) -> (r: Option<Vec<Piece>>)
        ensures
            match r {
                Some(p) => value_pieces(self@) == Some(piece_views(p@)),
                None => value_pieces(self@) is None,
            },
    {
        match self {
            Value::VARIANT(v) => match v.fmt() {
                Some(p) => Some(wrap("VARIANT(", p)),
                None => None,
            },
            _ => self.fmt_flat(),
        }
    }
}

impl Variant {
    /// The dynamic value rendered as the value that it decomposes into, or
    /// nothing, which stands for a formatting error.
    pub fn fmt(&self) -> (r: Option<Vec<Piece>>)
        ensures
            match r {
                Some(p) => variant_pieces(self@) == Some(piece_views(p@)),
                None => variant_pieces(self@) is None,
            },
        decreases self@,
    {
        proof {
            use_type_invariant(self);
        }
        if self.get_type() == VT_VARIANT {
            match self.get_data() {
                Payload::Nested(inner) => match (&**inner).fmt() {
                    Some(p) => Some(wrap("VARIANT(", p)),
                    None => None,
                },
                _ => None,
            }
        } else {
            match self.get_value() {
                Ok(val) => val.fmt_flat(),
                Err(_) => None,
            }
        }
    }
}

} // verus!
