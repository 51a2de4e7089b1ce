//! Spreadsheet-style ("A1") cell addresses.
use vstd::prelude::*;
use vstd::string::StrSliceExecFns;
use vstd::string::StringExecFns;

verus! {

/// Zero-based column index of a cell.
pub type Column = usize;

/// Zero-based row index of a cell.
pub type Row = usize;

/// Number of columns the encoder can name: the leading letter of a
/// two-letter address is the quotient by 26, which must stay within the
/// alphabet.
pub const MAX_COLUMNS: usize = 701;

/// The letter at 1-based position `i` of the alphabet (`1` is `'A'`).
pub open spec fn letter(i: int) -> char {
    "ABCDEFGHIJKLMNOPQRSTUVWXYZ"@[i - 1]
}

/// The decimal digit for `d` in `0..10`.
pub open spec fn digit(d: int) -> char {
    "0123456789"@[d]
}

/// Decimal notation of `n`, most significant digit first.
pub open spec fn decimal(n: nat) -> Seq<char>
    decreases n,
{
    if n < 10 {
        seq![digit(n as int)]
    } else {
        decimal(n / 10) + seq![digit((n % 10) as int)]
    }
}

/// Letters for the 1-based column number `c`. Below 26 a single letter;
/// from 26 on the quotient by 26 is taken as a letter of its own, followed
/// by the letter of the remainder when that is not zero. Column 26 thus
/// reads "A", never "Z".
pub open spec fn column_letters(c: int) -> Seq<char> {
    if c < 26 {
        seq![letter(c)]
    } else if c % 26 == 0 {
        seq![letter(c / 26)]
    } else {
        seq![letter(c / 26), letter(c % 26)]
    }
}

/// The address of the cell at zero-based `(row, column)`.
pub open spec fn cell_address(row: int, column: int) -> Seq<char> {
    column_letters(column + 1) + decimal((row + 1) as nat)
}

/// One-character string holding the letter at 1-based position `i`.
fn letter_str(i: usize) -> (r: &'static str)
    requires
        1 <= i <= 26,
    ensures
        r@ == seq![letter(i as int)],
{
    let alphabet = "ABCDEFGHIJKLMNOPQRSTUVWXYZ";
    proof {
        reveal_strlit("ABCDEFGHIJKLMNOPQRSTUVWXYZ");
    }
    let r = alphabet.substring_char(i - 1, i);
    assert(r@ =~= seq![letter(i as int)]);
    r
}

/// Decimal notation of `n` as a string.
pub fn decimal_string(n: usize) -> (r: String)
    ensures
        r@ == decimal(n as nat),
    decreases n,
{
    let digits = "0123456789";
    proof {
        reveal_strlit("0123456789");
    }
    if n < 10 {
        let d = digits.substring_char(n, n + 1);
        assert(d@ =~= seq![digit(n as int)]);
        String::from_str(d)
    } else {
        let mut r = decimal_string(n / 10);
        let d = digits.substring_char(n % 10, n % 10 + 1);
        assert(d@ =~= seq![digit((n % 10) as int)]);
        r.append(d);
        r
    }
}

/// Spreadsheet address of the zero-based cell `(row, column)`: the column
/// letters of `column + 1` followed by `row + 1` in decimal.
pub fn convert_row_column_to_letter(row: Row, column: Column) -> (r: String)
    requires
        row < usize::MAX,
        column < MAX_COLUMNS,
    ensures
        r@ == cell_address(row as int, column as int),
{
    let c = column + 1;
    let mut r = String::new();
    if c < 26 {
        r.append(letter_str(c));
    } else {
        r.append(letter_str(c / 26));
        if c % 26 > 0 {
            r.append(letter_str(c % 26));
        }
    }
    let digits = decimal_string(row + 1);
    r.append(digits.as_str());
    assert(r@ =~= cell_address(row as int, column as int));
    r
}

/// For the first twenty-five columns the address is the single letter at
/// position `column + 1`, followed by `row + 1`.
pub proof fn lemma_single_letter_address(row: Row, column: Column)
    requires
        row < usize::MAX,
        column <= 24,
    ensures
        cell_address(row as int, column as int) == seq![letter(column + 1)] + decimal(
            (row + 1) as nat,
        ),
{
}

} // verus!
