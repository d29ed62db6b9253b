//! The dimension guard: is the rendering surface large enough for the grid.

use vstd::prelude::*;

verus! {

/// Width and height of a rendering surface, in character cells.
#[derive(Clone, Copy, Debug, PartialEq, Eq, Structural)]
pub struct Dimensions {
    pub width: u16,
    pub height: u16,
}

/// The minimum surface that renders one element cell, borders included.
pub const MINIMUM_CELL_WIDTH: u16 = 12;

/// The minimum height of one element cell, borders included.
pub const MINIMUM_CELL_HEIGHT: u16 = 6;

/// The minimum surface for the whole table: eighteen columns of minimum
/// cells.
pub const MINIMUM_WINDOW_WIDTH: u16 = 18 * MINIMUM_CELL_WIDTH;

/// The minimum height for the whole table: nine rows of minimum cells.
pub const MINIMUM_WINDOW_HEIGHT: u16 = 9 * MINIMUM_CELL_HEIGHT;

/// Whether a surface is large enough for the table.
pub open spec fn sufficient(d: Dimensions) -> bool {
    d.width >= MINIMUM_WINDOW_WIDTH && d.height >= MINIMUM_WINDOW_HEIGHT
}

/// The character for one decimal digit.
pub open spec fn decimal_digit(d: int) -> char
    recommends
        0 <= d <= 9,
{
    if d == 0 {
        '0'
    } else if d == 1 {
        '1'
    } else if d == 2 {
        '2'
    } else if d == 3 {
        '3'
    } else if d == 4 {
        '4'
    } else if d == 5 {
        '5'
    } else if d == 6 {
        '6'
    } else if d == 7 {
        '7'
    } else if d == 8 {
        '8'
    } else {
        '9'
    }
}

/// The decimal rendering of a non-negative number, most significant digit
/// first.
pub open spec fn decimal_of(n: int) -> Seq<char>
    recommends
        0 <= n,
    decreases n,
{
    if n < 10 {
        seq![decimal_digit(n)]
    } else {
        decimal_of(n / 10).push(decimal_digit(n % 10))
    }
}

/// A surface rendered as its width and height in decimal, joined by an x.
pub open spec fn dims_text(d: Dimensions) -> Seq<char> {
    decimal_of(d.width as int) + seq!['x'] + decimal_of(d.height as int)
}

/// The message a too-small surface earns: the actual size, then the
/// required one.
pub open spec fn shortfall_message(actual: Dimensions, required: Dimensions) -> Seq<char> {
    "insufficient dimensions: is "@ + dims_text(actual) + " but should be at least "@ + dims_text(
        required,
    )
}

/// Relies on std's `format!` over `u16` values: each renders as its decimal
/// digits, most significant first, with no sign or padding.
#[verifier::external_body]
fn format_shortfall(actual: Dimensions, required: Dimensions) -> (r: String)
    ensures
        r@ == shortfall_message(actual, required),
{
    format!(
        "insufficient dimensions: is {}x{} but should be at least {}x{}",
        actual.width, actual.height, required.width, required.height,
    )
}

/// Check that the rendering surface can hold the table: passes exactly when
/// both dimensions reach the minimum, and otherwise reports the actual and
/// the required size.  A failure is recoverable; the caller re-checks on the
/// next draw.
pub fn test_sufficient_dimensions(dimensions: Dimensions) -> (r: Result<(), String>)
    ensures
        r is Ok <==> sufficient(dimensions),
        r matches Err(msg) ==> msg@ == shortfall_message(
            dimensions,
            (Dimensions { width: MINIMUM_WINDOW_WIDTH, height: MINIMUM_WINDOW_HEIGHT }),
        ),
{
    if dimensions.height < MINIMUM_WINDOW_HEIGHT || dimensions.width < MINIMUM_WINDOW_WIDTH {
        Err(
            format_shortfall(
                dimensions,
                Dimensions { width: MINIMUM_WINDOW_WIDTH, height: MINIMUM_WINDOW_HEIGHT },
            ),
        )
    } else {
        Ok(())
    }
}

} // verus!
