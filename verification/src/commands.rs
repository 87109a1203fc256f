//! The command records that decoding produces, one type per supported
//! command, and [`Command`], the closed set of them.
//!
//! A record cannot hold a value outside a field's domain: its fields are
//! private, and every way of making one checks them. Each record has a
//! mathematical model, its view, in which contracts are stated.

use vstd::prelude::*;
use crate::values::{
    is_horizontal_multiplier, is_vertical_multiplier, BarCode2DSelection,
    BarCodeStandardSelection, BitSupport, Encoding, Font, HorizontalMultiplier, KDUCountryCode,
    ReverseImage, Rotation, VerticalMultiplier,
};

verus! {

/// The values that a number in a command can take: what one or more decimal
/// digits denote within the signed 32-bit range.
pub open spec fn is_number(n: int) -> bool {
    0 <= n <= i32::MAX
}

/// Prints a line of text (`A`).
#[derive(Debug, PartialEq, Eq)]
pub struct AsciiText {
    h_start: i32,
    v_start: i32,
    rotation: Rotation,
    font_selection: Font,
    h_mult: HorizontalMultiplier,
    v_mult: VerticalMultiplier,
    reverse: ReverseImage,
    data: Vec<u8>,
}

/// The model of [`AsciiText`]: what the record holds.
pub struct AsciiTextModel {
    /// Horizontal start position, in dots.
    pub h_start: int,
    /// Vertical start position, in dots.
    pub v_start: int,
    /// Rotation of the text.
    pub rotation: Rotation,
    /// The font.
    pub font_selection: Font,
    /// Horizontal stretch factor.
    pub h_mult: int,
    /// Vertical stretch factor.
    pub v_mult: int,
    /// Normal or reverse image.
    pub reverse: ReverseImage,
    /// The text, escapes resolved and quotes stripped, in the printer's code page.
    pub data: Seq<u8>,
}

impl AsciiTextModel {
    /// Every field is inside its domain.
    pub open spec fn valid(self) -> bool {
        &&& is_number(self.h_start)
        &&& is_number(self.v_start)
        &&& is_horizontal_multiplier(self.h_mult)
        &&& is_vertical_multiplier(self.v_mult)
    }
}

impl View for AsciiText {
    type V = AsciiTextModel;

    closed spec fn view(&self) -> AsciiTextModel {
        AsciiTextModel {
            h_start: self.h_start as int,
            v_start: self.v_start as int,
            rotation: self.rotation,
            font_selection: self.font_selection,
            h_mult: self.h_mult@,
            v_mult: self.v_mult@,
            reverse: self.reverse,
            data: self.data@,
        }
    }
}

impl AsciiText {
    /// A record always holds a valid model.
    #[verifier::type_invariant]
    pub open spec fn well_formed(&self) -> bool {
        self@.valid()
    }

    /// Makes the record from its fields, or `None` where a field is outside
    /// its domain.
    pub fn new(
        h_start: i32,
        v_start: i32,
        rotation: Rotation,
        font_selection: Font,
        h_mult: HorizontalMultiplier,
        v_mult: VerticalMultiplier,
        reverse: ReverseImage,
        data: Vec<u8>,
    ) -> (r: Option<AsciiText>)
        ensures
            r is Some <==> (
                AsciiTextModel {
                    h_start: h_start as int,
                    v_start: v_start as int,
                    rotation: rotation,
                    font_selection: font_selection,
                    h_mult: h_mult@,
                    v_mult: v_mult@,
                    reverse: reverse,
                    data: data@,
                }
            ).valid(),
            r is Some ==> r->Some_0@ == (
                AsciiTextModel {
                    h_start: h_start as int,
                    v_start: v_start as int,
                    rotation: rotation,
                    font_selection: font_selection,
                    h_mult: h_mult@,
                    v_mult: v_mult@,
                    reverse: reverse,
                    data: data@,
                }
            ),
    {
        proof {
            use_type_invariant(&h_mult);
            use_type_invariant(&v_mult);
        }
        if 0 <= h_start && 0 <= v_start {
            Some(
                AsciiText {
                    h_start,
                    v_start,
                    rotation,
                    font_selection,
                    h_mult,
                    v_mult,
                    reverse,
                    data,
                },
            )
        } else {
            None
        }
    }

    /// Horizontal start position, in dots.
    pub fn h_start(&self) -> (r: i32)
        ensures
            r == self@.h_start,
    {
        self.h_start
    }

    /// Vertical start position, in dots.
    pub fn v_start(&self) -> (r: i32)
        ensures
            r == self@.v_start,
    {
        self.v_start
    }

    /// Rotation of the text.
    pub fn rotation(&self) -> (r: Rotation)
        ensures
            r == self@.rotation,
    {
        self.rotation
    }

    /// The font.
    pub fn font_selection(&self) -> (r: Font)
        ensures
            r == self@.font_selection,
    {
        self.font_selection
    }

    /// Horizontal stretch factor.
    pub fn h_mult(&self) -> (r: HorizontalMultiplier)
        ensures
            r@ == self@.h_mult,
    {
        self.h_mult
    }

    /// Vertical stretch factor.
    pub fn v_mult(&self) -> (r: VerticalMultiplier)
        ensures
            r@ == self@.v_mult,
    {
        self.v_mult
    }

    /// Normal or reverse image.
    pub fn reverse(&self) -> (r: ReverseImage)
        ensures
            r == self@.reverse,
    {
        self.reverse
    }

    /// The text, escapes resolved and quotes stripped, in the printer's code page.
    pub fn data(&self) -> (r: &Vec<u8>)
        ensures
            r@ == self@.data,
    {
        &self.data
    }
}

/// Prints a standard bar code (`B`).
#[derive(Debug, PartialEq, Eq)]
pub struct BarCodeStandard {
    h_start: i32,
    v_start: i32,
    rotation: Rotation,
    bar_code: BarCodeStandardSelection,
    narrow_width: i32,
    wide_width: i32,
    bar_code_height: i32,
    print_human_readable: bool,
    data: Vec<u8>,
}

/// The model of [`BarCodeStandard`]: what the record holds.
pub struct BarCodeStandardModel {
    /// Horizontal start position, in dots.
    pub h_start: int,
    /// Vertical start position, in dots.
    pub v_start: int,
    /// Rotation of the bar code.
    pub rotation: Rotation,
    /// The bar code and its mode.
    pub bar_code: BarCodeStandardSelection,
    /// Width of a narrow bar, in dots.
    pub narrow_width: int,
    /// Width of a wide bar, in dots: 2 to 30.
    pub wide_width: int,
    /// Height of the bar code, in dots.
    pub bar_code_height: int,
    /// Whether the text is printed under the bars (`B`) or not (`N`).
    pub print_human_readable: bool,
    /// The text to encode, escapes resolved and quotes stripped.
    pub data: Seq<u8>,
}

impl BarCodeStandardModel {
    /// Every field is inside its domain.
    pub open spec fn valid(self) -> bool {
        &&& is_number(self.h_start)
        &&& is_number(self.v_start)
        &&& is_number(self.narrow_width)
        &&& 2 <= self.wide_width <= 30
        &&& is_number(self.bar_code_height)
    }
}

impl View for BarCodeStandard {
    type V = BarCodeStandardModel;

    closed spec fn view(&self) -> BarCodeStandardModel {
        BarCodeStandardModel {
            h_start: self.h_start as int,
            v_start: self.v_start as int,
            rotation: self.rotation,
            bar_code: self.bar_code,
            narrow_width: self.narrow_width as int,
            wide_width: self.wide_width as int,
            bar_code_height: self.bar_code_height as int,
            print_human_readable: self.print_human_readable,
            data: self.data@,
        }
    }
}

impl BarCodeStandard {
    /// A record always holds a valid model.
    #[verifier::type_invariant]
    pub open spec fn well_formed(&self) -> bool {
        self@.valid()
    }

    /// Makes the record from its fields, or `None` where a field is outside
    /// its domain.
    pub fn new(
        h_start: i32,
        v_start: i32,
        rotation: Rotation,
        bar_code: BarCodeStandardSelection,
        narrow_width: i32,
        wide_width: i32,
        bar_code_height: i32,
        print_human_readable: bool,
        data: Vec<u8>,
    ) -> (r: Option<BarCodeStandard>)
        ensures
            r is Some <==> (
                BarCodeStandardModel {
                    h_start: h_start as int,
                    v_start: v_start as int,
                    rotation: rotation,
                    bar_code: bar_code,
                    narrow_width: narrow_width as int,
                    wide_width: wide_width as int,
                    bar_code_height: bar_code_height as int,
                    print_human_readable: print_human_readable,
                    data: data@,
                }
            ).valid(),
            r is Some ==> r->Some_0@ == (
                BarCodeStandardModel {
                    h_start: h_start as int,
                    v_start: v_start as int,
                    rotation: rotation,
                    bar_code: bar_code,
                    narrow_width: narrow_width as int,
                    wide_width: wide_width as int,
                    bar_code_height: bar_code_height as int,
                    print_human_readable: print_human_readable,
                    data: data@,
                }
            ),
    {
        if 0 <= h_start
            && 0 <= v_start
            && 0 <= narrow_width
            && 2 <= wide_width && wide_width <= 30
            && 0 <= bar_code_height
        {
            Some(
                BarCodeStandard {
                    h_start,
                    v_start,
                    rotation,
                    bar_code,
                    narrow_width,
                    wide_width,
                    bar_code_height,
                    print_human_readable,
                    data,
                },
            )
        } else {
            None
        }
    }

    /// Horizontal start position, in dots.
    pub fn h_start(&self) -> (r: i32)
        ensures
            r == self@.h_start,
    {
        self.h_start
    }

    /// Vertical start position, in dots.
    pub fn v_start(&self) -> (r: i32)
        ensures
            r == self@.v_start,
    {
        self.v_start
    }

    /// Rotation of the bar code.
    pub fn rotation(&self) -> (r: Rotation)
        ensures
            r == self@.rotation,
    {
        self.rotation
    }

    /// The bar code and its mode.
    pub fn bar_code(&self) -> (r: BarCodeStandardSelection)
        ensures
            r == self@.bar_code,
    {
        self.bar_code
    }

    /// Width of a narrow bar, in dots.
    pub fn narrow_width(&self) -> (r: i32)
        ensures
            r == self@.narrow_width,
    {
        self.narrow_width
    }

    /// Width of a wide bar, in dots: 2 to 30.
    pub fn wide_width(&self) -> (r: i32)
        ensures
            r == self@.wide_width,
    {
        self.wide_width
    }

    /// Height of the bar code, in dots.
    pub fn bar_code_height(&self) -> (r: i32)
        ensures
            r == self@.bar_code_height,
    {
        self.bar_code_height
    }

    /// Whether the text is printed under the bars (`B`) or not (`N`).
    pub fn print_human_readable(&self) -> (r: bool)
        ensures
            r == self@.print_human_readable,
    {
        self.print_human_readable
    }

    /// The text to encode, escapes resolved and quotes stripped.
    pub fn data(&self) -> (r: &Vec<u8>)
        ensures
            r@ == self@.data,
    {
        &self.data
    }
}

/// Prints a two-dimensional bar code (`b`). Its payload is a raw block whose
/// length the command declares.
#[derive(Debug, PartialEq, Eq)]
pub struct BarCode2D {
    h_start: i32,
    v_start: i32,
    bar_code: BarCode2DSelection,
    max_width: i32,
    max_height: i32,
    error_correction: i32,
    data_compression: i32,
    readable_h_start: i32,
    readable_v_start: i32,
    readable_max_chars: i32,
    origin_point: i32,
    module_width: i32,
    bar_height: i32,
    max_rows: i32,
    max_cols: i32,
    truncated: bool,
    rotation: Rotation,
    data: Vec<u8>,
}

/// The model of [`BarCode2D`]: what the record holds.
pub struct BarCode2DModel {
    /// Horizontal start position, in dots.
    pub h_start: int,
    /// Vertical start position, in dots.
    pub v_start: int,
    /// The bar code.
    pub bar_code: BarCode2DSelection,
    /// Maximum print width, in dots.
    pub max_width: int,
    /// Maximum print height, in dots.
    pub max_height: int,
    /// Error correction level.
    pub error_correction: int,
    /// Data compression method. Kept, not interpreted.
    pub data_compression: int,
    /// Horizontal start of the human readable text. Kept, not interpreted.
    pub readable_h_start: int,
    /// Vertical start of the human readable text. Kept, not interpreted.
    pub readable_v_start: int,
    /// Characters per line of the human readable text. Kept, not interpreted.
    pub readable_max_chars: int,
    /// Origin of the start position: 0 for the centre, 1 for the upper left.
    pub origin_point: int,
    /// Module width, in dots.
    pub module_width: int,
    /// Bar height, in dots.
    pub bar_height: int,
    /// Maximum number of rows.
    pub max_rows: int,
    /// Maximum number of columns.
    pub max_cols: int,
    /// Whether the symbol is truncated (`1`) or not (`0`).
    pub truncated: bool,
    /// Rotation of the bar code.
    pub rotation: Rotation,
    /// The payload, verbatim.
    pub data: Seq<u8>,
}

impl BarCode2DModel {
    /// Every field is inside its domain.
    pub open spec fn valid(self) -> bool {
        &&& is_number(self.h_start)
        &&& is_number(self.v_start)
        &&& is_number(self.max_width)
        &&& is_number(self.max_height)
        &&& is_number(self.error_correction)
        &&& is_number(self.data_compression)
        &&& is_number(self.readable_h_start)
        &&& is_number(self.readable_v_start)
        &&& is_number(self.readable_max_chars)
        &&& 0 <= self.origin_point <= 1
        &&& is_number(self.module_width)
        &&& is_number(self.bar_height)
        &&& is_number(self.max_rows)
        &&& is_number(self.max_cols)
        &&& is_number(self.data.len() as int)
    }
}

impl View for BarCode2D {
    type V = BarCode2DModel;

    closed spec fn view(&self) -> BarCode2DModel {
        BarCode2DModel {
            h_start: self.h_start as int,
            v_start: self.v_start as int,
            bar_code: self.bar_code,
            max_width: self.max_width as int,
            max_height: self.max_height as int,
            error_correction: self.error_correction as int,
            data_compression: self.data_compression as int,
            readable_h_start: self.readable_h_start as int,
            readable_v_start: self.readable_v_start as int,
            readable_max_chars: self.readable_max_chars as int,
            origin_point: self.origin_point as int,
            module_width: self.module_width as int,
            bar_height: self.bar_height as int,
            max_rows: self.max_rows as int,
            max_cols: self.max_cols as int,
            truncated: self.truncated,
            rotation: self.rotation,
            data: self.data@,
        }
    }
}

impl BarCode2D {
    /// A record always holds a valid model.
    #[verifier::type_invariant]
    pub open spec fn well_formed(&self) -> bool {
        self@.valid()
    }

    /// Makes the record from its fields, or `None` where a field is outside
    /// its domain.
    pub fn new(
        h_start: i32,
        v_start: i32,
        bar_code: BarCode2DSelection,
        max_width: i32,
        max_height: i32,
        error_correction: i32,
        data_compression: i32,
        readable_h_start: i32,
        readable_v_start: i32,
        readable_max_chars: i32,
        origin_point: i32,
        module_width: i32,
        bar_height: i32,
        max_rows: i32,
        max_cols: i32,
        truncated: bool,
        rotation: Rotation,
        data: Vec<u8>,
    ) -> (r: Option<BarCode2D>)
        ensures
            r is Some <==> (
                BarCode2DModel {
                    h_start: h_start as int,
                    v_start: v_start as int,
                    bar_code: bar_code,
                    max_width: max_width as int,
                    max_height: max_height as int,
                    error_correction: error_correction as int,
                    data_compression: data_compression as int,
                    readable_h_start: readable_h_start as int,
                    readable_v_start: readable_v_start as int,
                    readable_max_chars: readable_max_chars as int,
                    origin_point: origin_point as int,
                    module_width: module_width as int,
                    bar_height: bar_height as int,
                    max_rows: max_rows as int,
                    max_cols: max_cols as int,
                    truncated: truncated,
                    rotation: rotation,
                    data: data@,
                }
            ).valid(),
            r is Some ==> r->Some_0@ == (
                BarCode2DModel {
                    h_start: h_start as int,
                    v_start: v_start as int,
                    bar_code: bar_code,
                    max_width: max_width as int,
                    max_height: max_height as int,
                    error_correction: error_correction as int,
                    data_compression: data_compression as int,
                    readable_h_start: readable_h_start as int,
                    readable_v_start: readable_v_start as int,
                    readable_max_chars: readable_max_chars as int,
                    origin_point: origin_point as int,
                    module_width: module_width as int,
                    bar_height: bar_height as int,
                    max_rows: max_rows as int,
                    max_cols: max_cols as int,
                    truncated: truncated,
                    rotation: rotation,
                    data: data@,
                }
            ),
    {
        if 0 <= h_start
            && 0 <= v_start
            && 0 <= max_width
            && 0 <= max_height
            && 0 <= error_correction
            && 0 <= data_compression
            && 0 <= readable_h_start
            && 0 <= readable_v_start
            && 0 <= readable_max_chars
            && 0 <= origin_point && origin_point <= 1
            && 0 <= module_width
            && 0 <= bar_height
            && 0 <= max_rows
            && 0 <= max_cols
            && data.len() <= 0x7FFF_FFFF
        {
            Some(
                BarCode2D {
                    h_start,
                    v_start,
                    bar_code,
                    max_width,
                    max_height,
                    error_correction,
                    data_compression,
                    readable_h_start,
                    readable_v_start,
                    readable_max_chars,
                    origin_point,
                    module_width,
                    bar_height,
                    max_rows,
                    max_cols,
                    truncated,
                    rotation,
                    data,
                },
            )
        } else {
            None
        }
    }

    /// Horizontal start position, in dots.
    pub fn h_start(&self) -> (r: i32)
        ensures
            r == self@.h_start,
    {
        self.h_start
    }

    /// Vertical start position, in dots.
    pub fn v_start(&self) -> (r: i32)
        ensures
            r == self@.v_start,
    {
        self.v_start
    }

    /// The bar code.
    pub fn bar_code(&self) -> (r: BarCode2DSelection)
        ensures
            r == self@.bar_code,
    {
        self.bar_code
    }

    /// Maximum print width, in dots.
    pub fn max_width(&self) -> (r: i32)
        ensures
            r == self@.max_width,
    {
        self.max_width
    }

    /// Maximum print height, in dots.
    pub fn max_height(&self) -> (r: i32)
        ensures
            r == self@.max_height,
    {
        self.max_height
    }

    /// Error correction level.
    pub fn error_correction(&self) -> (r: i32)
        ensures
            r == self@.error_correction,
    {
        self.error_correction
    }

    /// Data compression method. Kept, not interpreted.
    pub fn data_compression(&self) -> (r: i32)
        ensures
            r == self@.data_compression,
    {
        self.data_compression
    }

    /// Horizontal start of the human readable text. Kept, not interpreted.
    pub fn readable_h_start(&self) -> (r: i32)
        ensures
            r == self@.readable_h_start,
    {
        self.readable_h_start
    }

    /// Vertical start of the human readable text. Kept, not interpreted.
    pub fn readable_v_start(&self) -> (r: i32)
        ensures
            r == self@.readable_v_start,
    {
        self.readable_v_start
    }

    /// Characters per line of the human readable text. Kept, not interpreted.
    pub fn readable_max_chars(&self) -> (r: i32)
        ensures
            r == self@.readable_max_chars,
    {
        self.readable_max_chars
    }

    /// Origin of the start position: 0 for the centre, 1 for the upper left.
    pub fn origin_point(&self) -> (r: i32)
        ensures
            r == self@.origin_point,
    {
        self.origin_point
    }

    /// Module width, in dots.
    pub fn module_width(&self) -> (r: i32)
        ensures
            r == self@.module_width,
    {
        self.module_width
    }

    /// Bar height, in dots.
    pub fn bar_height(&self) -> (r: i32)
        ensures
            r == self@.bar_height,
    {
        self.bar_height
    }

    /// Maximum number of rows.
    pub fn max_rows(&self) -> (r: i32)
        ensures
            r == self@.max_rows,
    {
        self.max_rows
    }

    /// Maximum number of columns.
    pub fn max_cols(&self) -> (r: i32)
        ensures
            r == self@.max_cols,
    {
        self.max_cols
    }

    /// Whether the symbol is truncated (`1`) or not (`0`).
    pub fn truncated(&self) -> (r: bool)
        ensures
            r == self@.truncated,
    {
        self.truncated
    }

    /// Rotation of the bar code.
    pub fn rotation(&self) -> (r: Rotation)
        ensures
            r == self@.rotation,
    {
        self.rotation
    }

    /// The payload, verbatim.
    pub fn data(&self) -> (r: &Vec<u8>)
        ensures
            r@ == self@.data,
    {
        &self.data
    }
}

/// Sets the print density (`D`).
#[derive(Clone, Copy, Debug, PartialEq, Eq)]
pub struct Density {
    setting: i32,
}

/// The model of [`Density`]: what the record holds.
pub struct DensityModel {
    /// The density: 0 to 15.
    pub setting: int,
}

impl DensityModel {
    /// Every field is inside its domain.
    pub open spec fn valid(self) -> bool {
        &&& 0 <= self.setting <= 15
    }
}

impl View for Density {
    type V = DensityModel;

    closed spec fn view(&self) -> DensityModel {
        DensityModel {
            setting: self.setting as int,
        }
    }
}

impl Density {
    /// A record always holds a valid model.
    #[verifier::type_invariant]
    pub open spec fn well_formed(&self) -> bool {
        self@.valid()
    }

    /// Makes the record from its fields, or `None` where a field is outside
    /// its domain.
    pub fn new(setting: i32) -> (r: Option<Density>)
        ensures
            r is Some <==> (DensityModel { setting: setting as int }).valid(),
            r is Some ==> r->Some_0@ == (DensityModel { setting: setting as int }),
    {
        if 0 <= setting && setting <= 15 {
            Some(Density { setting })
        } else {
            None
        }
    }

    /// The density: 0 to 15.
    pub fn setting(&self) -> (r: i32)
        ensures
            r == self@.setting,
    {
        self.setting
    }
}

/// Writes raw graphics into the image buffer (`GW`). Its payload is a raw
/// block of `graphic_width` times `graphic_length` bytes.
#[derive(Debug, PartialEq, Eq)]
pub struct Graphics {
    h_start: i32,
    v_start: i32,
    graphic_width: i32,
    graphic_length: i32,
    data: Vec<u8>,
}

/// The model of [`Graphics`]: what the record holds.
pub struct GraphicsModel {
    /// Horizontal start position, in dots.
    pub h_start: int,
    /// Vertical start position, in dots.
    pub v_start: int,
    /// Width of the graphic in bytes; eight dots make one byte.
    pub graphic_width: int,
    /// Length of the graphic in dots, that is in print lines.
    pub graphic_length: int,
    /// The graphic, verbatim.
    pub data: Seq<u8>,
}

impl GraphicsModel {
    /// Every field is inside its domain.
    pub open spec fn valid(self) -> bool {
        &&& is_number(self.h_start)
        &&& is_number(self.v_start)
        &&& is_number(self.graphic_width)
        &&& is_number(self.graphic_length)
        &&& self.data.len() == self.graphic_width * self.graphic_length
    }
}

impl View for Graphics {
    type V = GraphicsModel;

    closed spec fn view(&self) -> GraphicsModel {
        GraphicsModel {
            h_start: self.h_start as int,
            v_start: self.v_start as int,
            graphic_width: self.graphic_width as int,
            graphic_length: self.graphic_length as int,
            data: self.data@,
        }
    }
}

impl Graphics {
    /// A record always holds a valid model.
    #[verifier::type_invariant]
    pub open spec fn well_formed(&self) -> bool {
        self@.valid()
    }

    /// The number of payload bytes of a graphic that is `width` bytes wide
    /// and `length` dots long.
    pub fn payload_length(width: u32, length: u32) -> (n: u64)
        ensures
            n == width * length,
    {
        assert(0 <= width * length <= 0xFFFF_FFFF * 0xFFFF_FFFF) by (nonlinear_arith)
            requires
                0 <= width <= 0xFFFF_FFFF,
                0 <= length <= 0xFFFF_FFFF,
        ;
        (width as u64) * (length as u64)
    }

    /// Makes the record from its fields, or `None` where a field is outside
    /// its domain or the payload has not the length that they declare.
    pub fn new(
        h_start: i32,
        v_start: i32,
        graphic_width: i32,
        graphic_length: i32,
        data: Vec<u8>,
    ) -> (r: Option<Graphics>)
        ensures
            r is Some <==> (GraphicsModel {
                h_start: h_start as int,
                v_start: v_start as int,
                graphic_width: graphic_width as int,
                graphic_length: graphic_length as int,
                data: data@,
            }).valid(),
            r is Some ==> r->Some_0@ == (GraphicsModel {
                h_start: h_start as int,
                v_start: v_start as int,
                graphic_width: graphic_width as int,
                graphic_length: graphic_length as int,
                data: data@,
            }),
    {
        if 0 <= h_start && 0 <= v_start && 0 <= graphic_width && 0 <= graphic_length {
            if data.len() as u64 == Self::payload_length(
                graphic_width as u32,
                graphic_length as u32,
            ) {
                Some(Graphics { h_start, v_start, graphic_width, graphic_length, data })
            } else {
                None
            }
        } else {
            None
        }
    }

    /// Horizontal start position, in dots.
    pub fn h_start(&self) -> (r: i32)
        ensures
            r == self@.h_start,
    {
        self.h_start
    }

    /// Vertical start position, in dots.
    pub fn v_start(&self) -> (r: i32)
        ensures
            r == self@.v_start,
    {
        self.v_start
    }

    /// Width of the graphic in bytes; eight dots make one byte.
    pub fn graphic_width(&self) -> (r: i32)
        ensures
            r == self@.graphic_width,
    {
        self.graphic_width
    }

    /// Length of the graphic in dots, that is in print lines.
    pub fn graphic_length(&self) -> (r: i32)
        ensures
            r == self@.graphic_length,
    {
        self.graphic_length
    }

    /// The graphic, verbatim.
    pub fn data(&self) -> (r: &Vec<u8>)
        ensures
            r@ == self@.data,
    {
        &self.data
    }
}

/// Selects the character set (`I`).
#[derive(Clone, Copy, Debug, PartialEq, Eq)]
pub struct CharacterSetSelection {
    number_of_bits: BitSupport,
    language_support: Encoding,
    country_code: KDUCountryCode,
}

/// The model of [`CharacterSetSelection`]: what the record holds.
pub struct CharacterSetSelectionModel {
    /// The number of data bits.
    pub number_of_bits: BitSupport,
    /// The code page.
    pub language_support: Encoding,
    /// The country of the keyboard display unit.
    pub country_code: KDUCountryCode,
}

impl CharacterSetSelectionModel {
    /// Every field is inside its domain.
    pub open spec fn valid(self) -> bool {
        true
    }
}

impl View for CharacterSetSelection {
    type V = CharacterSetSelectionModel;

    closed spec fn view(&self) -> CharacterSetSelectionModel {
        CharacterSetSelectionModel {
            number_of_bits: self.number_of_bits,
            language_support: self.language_support,
            country_code: self.country_code,
        }
    }
}

impl CharacterSetSelection {
    /// A record always holds a valid model.
    #[verifier::type_invariant]
    pub open spec fn well_formed(&self) -> bool {
        self@.valid()
    }

    /// Makes the record from its fields.
    pub fn new(
        number_of_bits: BitSupport,
        language_support: Encoding,
        country_code: KDUCountryCode,
    ) -> (r: CharacterSetSelection)
        ensures
            r@ == (
                CharacterSetSelectionModel {
                    number_of_bits: number_of_bits,
                    language_support: language_support,
                    country_code: country_code,
                }
            ),
    {
        CharacterSetSelection { number_of_bits, language_support, country_code }
    }

    /// The number of data bits.
    pub fn number_of_bits(&self) -> (r: BitSupport)
        ensures
            r == self@.number_of_bits,
    {
        self.number_of_bits
    }

    /// The code page.
    pub fn language_support(&self) -> (r: Encoding)
        ensures
            r == self@.language_support,
    {
        self.language_support
    }

    /// The country of the keyboard display unit.
    pub fn country_code(&self) -> (r: KDUCountryCode)
        ensures
            r == self@.country_code,
    {
        self.country_code
    }
}

/// Draws a black line (`LO`).
#[derive(Clone, Copy, Debug, PartialEq, Eq)]
pub struct LineDraw {
    h_start: i32,
    v_start: i32,
    h_length: i32,
    v_length: i32,
}

/// The model of [`LineDraw`]: what the record holds.
pub struct LineDrawModel {
    /// Horizontal start position, in dots.
    pub h_start: int,
    /// Vertical start position, in dots.
    pub v_start: int,
    /// Horizontal length, in dots.
    pub h_length: int,
    /// Vertical length, in dots.
    pub v_length: int,
}

impl LineDrawModel {
    /// Every field is inside its domain.
    pub open spec fn valid(self) -> bool {
        &&& is_number(self.h_start)
        &&& is_number(self.v_start)
        &&& is_number(self.h_length)
        &&& is_number(self.v_length)
    }
}

impl View for LineDraw {
    type V = LineDrawModel;

    closed spec fn view(&self) -> LineDrawModel {
        LineDrawModel {
            h_start: self.h_start as int,
            v_start: self.v_start as int,
            h_length: self.h_length as int,
            v_length: self.v_length as int,
        }
    }
}

impl LineDraw {
    /// A record always holds a valid model.
    #[verifier::type_invariant]
    pub open spec fn well_formed(&self) -> bool {
        self@.valid()
    }

    /// Makes the record from its fields, or `None` where a field is outside
    /// its domain.
    pub fn new(h_start: i32, v_start: i32, h_length: i32, v_length: i32) -> (r: Option<LineDraw>)
        ensures
            r is Some <==> (
                LineDrawModel {
                    h_start: h_start as int,
                    v_start: v_start as int,
                    h_length: h_length as int,
                    v_length: v_length as int,
                }
            ).valid(),
            r is Some ==> r->Some_0@ == (
                LineDrawModel {
                    h_start: h_start as int,
                    v_start: v_start as int,
                    h_length: h_length as int,
                    v_length: v_length as int,
                }
            ),
    {
        if 0 <= h_start && 0 <= v_start && 0 <= h_length && 0 <= v_length {
            Some(LineDraw { h_start, v_start, h_length, v_length })
        } else {
            None
        }
    }

    /// Horizontal start position, in dots.
    pub fn h_start(&self) -> (r: i32)
        ensures
            r == self@.h_start,
    {
        self.h_start
    }

    /// Vertical start position, in dots.
    pub fn v_start(&self) -> (r: i32)
        ensures
            r == self@.v_start,
    {
        self.v_start
    }

    /// Horizontal length, in dots.
    pub fn h_length(&self) -> (r: i32)
        ensures
            r == self@.h_length,
    {
        self.h_length
    }

    /// Vertical length, in dots.
    pub fn v_length(&self) -> (r: i32)
        ensures
            r == self@.v_length,
    {
        self.v_length
    }
}

/// Prints the image buffer (`P`).
#[derive(Clone, Copy, Debug, PartialEq, Eq)]
pub struct Print {
    nmbr_of_sets: i32,
    nmbr_of_copies: i32,
}

/// The model of [`Print`]: what the record holds.
pub struct PrintModel {
    /// The number of label sets: 1 to 65535.
    pub nmbr_of_sets: int,
    /// The number of copies of each label: 1 to 65535. A command that does
    /// not give it asks for 1.
    pub nmbr_of_copies: int,
}

impl PrintModel {
    /// Every field is inside its domain.
    pub open spec fn valid(self) -> bool {
        &&& 1 <= self.nmbr_of_sets <= 65535
        &&& 1 <= self.nmbr_of_copies <= 65535
    }
}

impl View for Print {
    type V = PrintModel;

    closed spec fn view(&self) -> PrintModel {
        PrintModel {
            nmbr_of_sets: self.nmbr_of_sets as int,
            nmbr_of_copies: self.nmbr_of_copies as int,
        }
    }
}

impl Print {
    /// A record always holds a valid model.
    #[verifier::type_invariant]
    pub open spec fn well_formed(&self) -> bool {
        self@.valid()
    }

    /// Makes the record from its fields, or `None` where a field is outside
    /// its domain.
    pub fn new(nmbr_of_sets: i32, nmbr_of_copies: i32) -> (r: Option<Print>)
        ensures
            r is Some <==> (
                PrintModel {
                    nmbr_of_sets: nmbr_of_sets as int,
                    nmbr_of_copies: nmbr_of_copies as int,
                }
            ).valid(),
            r is Some ==> r->Some_0@ == (
                PrintModel {
                    nmbr_of_sets: nmbr_of_sets as int,
                    nmbr_of_copies: nmbr_of_copies as int,
                }
            ),
    {
        if 1 <= nmbr_of_sets && nmbr_of_sets <= 65535
            && 1 <= nmbr_of_copies && nmbr_of_copies <= 65535
        {
            Some(Print { nmbr_of_sets, nmbr_of_copies })
        } else {
            None
        }
    }

    /// The number of label sets: 1 to 65535.
    pub fn nmbr_of_sets(&self) -> (r: i32)
        ensures
            r == self@.nmbr_of_sets,
    {
        self.nmbr_of_sets
    }

    /// The number of copies of each label: 1 to 65535. A command that does
    /// not give it asks for 1.
    pub fn nmbr_of_copies(&self) -> (r: i32)
        ensures
            r == self@.nmbr_of_copies,
    {
        self.nmbr_of_copies
    }
}

/// Sets the width of the printable area (`q`).
#[derive(Clone, Copy, Debug, PartialEq, Eq)]
pub struct SetFormWidth {
    label_width: i32,
}

/// The model of [`SetFormWidth`]: what the record holds.
pub struct SetFormWidthModel {
    /// The width, in dots.
    pub label_width: int,
}

impl SetFormWidthModel {
    /// Every field is inside its domain.
    pub open spec fn valid(self) -> bool {
        &&& is_number(self.label_width)
    }
}

impl View for SetFormWidth {
    type V = SetFormWidthModel;

    closed spec fn view(&self) -> SetFormWidthModel {
        SetFormWidthModel {
            label_width: self.label_width as int,
        }
    }
}

impl SetFormWidth {
    /// A record always holds a valid model.
    #[verifier::type_invariant]
    pub open spec fn well_formed(&self) -> bool {
        self@.valid()
    }

    /// Makes the record from its fields, or `None` where a field is outside
    /// its domain.
    pub fn new(label_width: i32) -> (r: Option<SetFormWidth>)
        ensures
            r is Some <==> (SetFormWidthModel { label_width: label_width as int }).valid(),
            r is Some ==> r->Some_0@ == (SetFormWidthModel { label_width: label_width as int }),
    {
        if 0 <= label_width {
            Some(SetFormWidth { label_width })
        } else {
            None
        }
    }

    /// The width, in dots.
    pub fn label_width(&self) -> (r: i32)
        ensures
            r == self@.label_width,
    {
        self.label_width
    }
}

/// Sets the form length (`Q`).
#[derive(Clone, Copy, Debug, PartialEq, Eq)]
pub struct SetFormLength {
    label_length: u16,
    gap_length: u16,
    offset_length: u16,
}

/// The model of [`SetFormLength`]: what the record holds.
pub struct SetFormLengthModel {
    /// Length of a label, in dots.
    pub label_length: int,
    /// Length of the gap between labels, in dots.
    pub gap_length: int,
    /// Offset length, in dots.
    pub offset_length: int,
}

impl SetFormLengthModel {
    /// Every field is inside its domain.
    pub open spec fn valid(self) -> bool {
        &&& 0 <= self.label_length <= 0xFFFF
        &&& 0 <= self.gap_length <= 0xFFFF
        &&& 0 <= self.offset_length <= 0xFFFF
    }
}

impl View for SetFormLength {
    type V = SetFormLengthModel;

    closed spec fn view(&self) -> SetFormLengthModel {
        SetFormLengthModel {
            label_length: self.label_length as int,
            gap_length: self.gap_length as int,
            offset_length: self.offset_length as int,
        }
    }
}

impl SetFormLength {
    /// A record always holds a valid model.
    #[verifier::type_invariant]
    pub open spec fn well_formed(&self) -> bool {
        self@.valid()
    }

    /// Makes the record from its fields.
    pub fn new(label_length: u16, gap_length: u16, offset_length: u16) -> (r: SetFormLength)
        ensures
            r@ == (
                SetFormLengthModel {
                    label_length: label_length as int,
                    gap_length: gap_length as int,
                    offset_length: offset_length as int,
                }
            ),
    {
        SetFormLength { label_length, gap_length, offset_length }
    }

    /// Length of a label, in dots.
    pub fn label_length(&self) -> (r: u16)
        ensures
            r == self@.label_length,
    {
        self.label_length
    }

    /// Length of the gap between labels, in dots.
    pub fn gap_length(&self) -> (r: u16)
        ensures
            r == self@.gap_length,
    {
        self.gap_length
    }

    /// Offset length, in dots.
    pub fn offset_length(&self) -> (r: u16)
        ensures
            r == self@.offset_length,
    {
        self.offset_length
    }
}

/// Selects the print speed (`S`). What a value means depends on the printer
/// model.
#[derive(Clone, Copy, Debug, PartialEq, Eq)]
pub struct SpeedSelect {
    speed: u8,
}

/// The model of [`SpeedSelect`]: what the record holds.
pub struct SpeedSelectModel {
    /// The speed.
    pub speed: int,
}

impl SpeedSelectModel {
    /// Every field is inside its domain.
    pub open spec fn valid(self) -> bool {
        &&& 0 <= self.speed <= 0xFF
    }
}

impl View for SpeedSelect {
    type V = SpeedSelectModel;

    closed spec fn view(&self) -> SpeedSelectModel {
        SpeedSelectModel {
            speed: self.speed as int,
        }
    }
}

impl SpeedSelect {
    /// A record always holds a valid model.
    #[verifier::type_invariant]
    pub open spec fn well_formed(&self) -> bool {
        self@.valid()
    }

    /// Makes the record from its fields.
    pub fn new(speed: u8) -> (r: SpeedSelect)
        ensures
            r@ == (SpeedSelectModel { speed: speed as int }),
    {
        SpeedSelect { speed }
    }

    /// The speed.
    pub fn speed(&self) -> (r: u8)
        ensures
            r == self@.speed,
    {
        self.speed
    }
}

/// Enables or disables the Windows mode (`W`).
#[derive(Clone, Copy, Debug, PartialEq, Eq)]
pub struct WindowsMode {
    enabled: bool,
}

/// The model of [`WindowsMode`]: what the record holds.
pub struct WindowsModeModel {
    /// Enabled (`Y`) or disabled (`N`).
    pub enabled: bool,
}

impl WindowsModeModel {
    /// Every field is inside its domain.
    pub open spec fn valid(self) -> bool {
        true
    }
}

impl View for WindowsMode {
    type V = WindowsModeModel;

    closed spec fn view(&self) -> WindowsModeModel {
        WindowsModeModel {
            enabled: self.enabled,
        }
    }
}

impl WindowsMode {
    /// A record always holds a valid model.
    #[verifier::type_invariant]
    pub open spec fn well_formed(&self) -> bool {
        self@.valid()
    }

    /// Makes the record from its fields.
    pub fn new(enabled: bool) -> (r: WindowsMode)
        ensures
            r@ == (WindowsModeModel { enabled: enabled }),
    {
        WindowsMode { enabled }
    }

    /// Enabled (`Y`) or disabled (`N`).
    pub fn enabled(&self) -> (r: bool)
        ensures
            r == self@.enabled,
    {
        self.enabled
    }
}

/// Draws a box (`X`).
#[derive(Clone, Copy, Debug, PartialEq, Eq)]
pub struct BoxDraw {
    h_start: i32,
    v_start: i32,
    line_thickness: i32,
    h_end: i32,
    v_end: i32,
}

/// The model of [`BoxDraw`]: what the record holds.
pub struct BoxDrawModel {
    /// Horizontal start position, in dots.
    pub h_start: int,
    /// Vertical start position, in dots.
    pub v_start: int,
    /// Thickness of the lines, in dots.
    pub line_thickness: int,
    /// Horizontal end position, in dots.
    pub h_end: int,
    /// Vertical end position, in dots.
    pub v_end: int,
}

impl BoxDrawModel {
    /// Every field is inside its domain.
    pub open spec fn valid(self) -> bool {
        &&& is_number(self.h_start)
        &&& is_number(self.v_start)
        &&& is_number(self.line_thickness)
        &&& is_number(self.h_end)
        &&& is_number(self.v_end)
    }
}

impl View for BoxDraw {
    type V = BoxDrawModel;

    closed spec fn view(&self) -> BoxDrawModel {
        BoxDrawModel {
            h_start: self.h_start as int,
            v_start: self.v_start as int,
            line_thickness: self.line_thickness as int,
            h_end: self.h_end as int,
            v_end: self.v_end as int,
        }
    }
}

impl BoxDraw {
    /// A record always holds a valid model.
    #[verifier::type_invariant]
    pub open spec fn well_formed(&self) -> bool {
        self@.valid()
    }

    /// Makes the record from its fields, or `None` where a field is outside
    /// its domain.
    pub fn new(
        h_start: i32,
        v_start: i32,
        line_thickness: i32,
        h_end: i32,
        v_end: i32,
    ) -> (r: Option<BoxDraw>)
        ensures
            r is Some <==> (
                BoxDrawModel {
                    h_start: h_start as int,
                    v_start: v_start as int,
                    line_thickness: line_thickness as int,
                    h_end: h_end as int,
                    v_end: v_end as int,
                }
            ).valid(),
            r is Some ==> r->Some_0@ == (
                BoxDrawModel {
                    h_start: h_start as int,
                    v_start: v_start as int,
                    line_thickness: line_thickness as int,
                    h_end: h_end as int,
                    v_end: v_end as int,
                }
            ),
    {
        if 0 <= h_start && 0 <= v_start && 0 <= line_thickness && 0 <= h_end && 0 <= v_end {
            Some(BoxDraw { h_start, v_start, line_thickness, h_end, v_end })
        } else {
            None
        }
    }

    /// Horizontal start position, in dots.
    pub fn h_start(&self) -> (r: i32)
        ensures
            r == self@.h_start,
    {
        self.h_start
    }

    /// Vertical start position, in dots.
    pub fn v_start(&self) -> (r: i32)
        ensures
            r == self@.v_start,
    {
        self.v_start
    }

    /// Thickness of the lines, in dots.
    pub fn line_thickness(&self) -> (r: i32)
        ensures
            r == self@.line_thickness,
    {
        self.line_thickness
    }

    /// Horizontal end position, in dots.
    pub fn h_end(&self) -> (r: i32)
        ensures
            r == self@.h_end,
    {
        self.h_end
    }

    /// Vertical end position, in dots.
    pub fn v_end(&self) -> (r: i32)
        ensures
            r == self@.v_end,
    {
        self.v_end
    }
}

/// Selects the print direction (`Z`).
#[derive(Clone, Copy, Debug, PartialEq, Eq)]
pub struct PrintDirection {
    orientation: char,
}

/// The model of [`PrintDirection`]: what the record holds.
pub struct PrintDirectionModel {
    /// Printing from the top (`T`) or from the bottom (`B`).
    pub orientation: char,
}

impl PrintDirectionModel {
    /// Every field is inside its domain.
    pub open spec fn valid(self) -> bool {
        &&& (self.orientation == 'T' || self.orientation == 'B')
    }
}

impl View for PrintDirection {
    type V = PrintDirectionModel;

    closed spec fn view(&self) -> PrintDirectionModel {
        PrintDirectionModel {
            orientation: self.orientation,
        }
    }
}

impl PrintDirection {
    /// A record always holds a valid model.
    #[verifier::type_invariant]
    pub open spec fn well_formed(&self) -> bool {
        self@.valid()
    }

    /// Makes the record from its fields, or `None` where a field is outside
    /// its domain.
    pub fn new(orientation: char) -> (r: Option<PrintDirection>)
        ensures
            r is Some <==> (PrintDirectionModel { orientation: orientation }).valid(),
            r is Some ==> r->Some_0@ == (PrintDirectionModel { orientation: orientation }),
    {
        if (orientation == 'T' || orientation == 'B') {
            Some(PrintDirection { orientation })
        } else {
            None
        }
    }

    /// Printing from the top (`T`) or from the bottom (`B`).
    pub fn orientation(&self) -> (r: char)
        ensures
            r == self@.orientation,
    {
        self.orientation
    }
}

/// Clears the image buffer (`N`).
#[derive(Clone, Copy, Debug, PartialEq, Eq, Structural)]
pub struct ClearImageBuffer;

/// Prints the printer configuration (`U`). Decoded so that a stream which
/// holds it can be read; it carries nothing.
#[derive(Clone, Copy, Debug, PartialEq, Eq, Structural)]
pub struct PrintConfiguration;

/// A decoded command: one variant per supported command letter.
#[derive(Debug, PartialEq, Eq)]
pub enum Command {
    AsciiText(AsciiText),
    BarCodeStandard(BarCodeStandard),
    BarCode2D(BarCode2D),
    Density(Density),
    Graphics(Graphics),
    CharacterSetSelection(CharacterSetSelection),
    LineDraw(LineDraw),
    ClearImageBuffer,
    Print(Print),
    SetFormWidth(SetFormWidth),
    SetFormLength(SetFormLength),
    SpeedSelect(SpeedSelect),
    PrintConfiguration,
    WindowsMode(WindowsMode),
    BoxDraw(BoxDraw),
    PrintDirection(PrintDirection),
}

/// The model of [`Command`]: the model of the record that it holds.
pub enum CommandModel {
    AsciiText(AsciiTextModel),
    BarCodeStandard(BarCodeStandardModel),
    BarCode2D(BarCode2DModel),
    Density(DensityModel),
    Graphics(GraphicsModel),
    CharacterSetSelection(CharacterSetSelectionModel),
    LineDraw(LineDrawModel),
    ClearImageBuffer,
    Print(PrintModel),
    SetFormWidth(SetFormWidthModel),
    SetFormLength(SetFormLengthModel),
    SpeedSelect(SpeedSelectModel),
    PrintConfiguration,
    WindowsMode(WindowsModeModel),
    BoxDraw(BoxDrawModel),
    PrintDirection(PrintDirectionModel),
}

impl CommandModel {
    /// Every field of the command is inside its domain.
    pub open spec fn valid(self) -> bool {
        match self {
            CommandModel::AsciiText(m) => m.valid(),
            CommandModel::BarCodeStandard(m) => m.valid(),
            CommandModel::BarCode2D(m) => m.valid(),
            CommandModel::Density(m) => m.valid(),
            CommandModel::Graphics(m) => m.valid(),
            CommandModel::CharacterSetSelection(m) => m.valid(),
            CommandModel::LineDraw(m) => m.valid(),
            CommandModel::ClearImageBuffer => true,
            CommandModel::Print(m) => m.valid(),
            CommandModel::SetFormWidth(m) => m.valid(),
            CommandModel::SetFormLength(m) => m.valid(),
            CommandModel::SpeedSelect(m) => m.valid(),
            CommandModel::PrintConfiguration => true,
            CommandModel::WindowsMode(m) => m.valid(),
            CommandModel::BoxDraw(m) => m.valid(),
            CommandModel::PrintDirection(m) => m.valid(),
        }
    }
}

impl View for Command {
    type V = CommandModel;

    open spec fn view(&self) -> CommandModel {
        match self {
            Command::AsciiText(c) => CommandModel::AsciiText(c@),
            Command::BarCodeStandard(c) => CommandModel::BarCodeStandard(c@),
            Command::BarCode2D(c) => CommandModel::BarCode2D(c@),
            Command::Density(c) => CommandModel::Density(c@),
            Command::Graphics(c) => CommandModel::Graphics(c@),
            Command::CharacterSetSelection(c) => CommandModel::CharacterSetSelection(c@),
            Command::LineDraw(c) => CommandModel::LineDraw(c@),
            Command::ClearImageBuffer => CommandModel::ClearImageBuffer,
            Command::Print(c) => CommandModel::Print(c@),
            Command::SetFormWidth(c) => CommandModel::SetFormWidth(c@),
            Command::SetFormLength(c) => CommandModel::SetFormLength(c@),
            Command::SpeedSelect(c) => CommandModel::SpeedSelect(c@),
            Command::PrintConfiguration => CommandModel::PrintConfiguration,
            Command::WindowsMode(c) => CommandModel::WindowsMode(c@),
            Command::BoxDraw(c) => CommandModel::BoxDraw(c@),
            Command::PrintDirection(c) => CommandModel::PrintDirection(c@),
        }
    }
}

} // verus!
