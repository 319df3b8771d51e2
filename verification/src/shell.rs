use vstd::prelude::*;
use vstd::string::StringExecFns;

verus! {

/// The character for one decimal digit.
pub open spec fn dec_digit(d: int) -> char {
    if d == 0 {
        '0'
    } else if d == 1 {
        '1'
    } else if d == 2 {
        '2'
    } else if d == 3 {
        '3'
    } else if d == 4 {
        '4'
    } else if d == 5 {
        '5'
    } else if d == 6 {
        '6'
    } else if d == 7 {
        '7'
    } else if d == 8 {
        '8'
    } else {
        '9'
    }
}

/// The decimal digits of a nonnegative number, most significant first.
pub open spec fn dec_string_of(n: int) -> Seq<char>
    decreases n,
{
    if n < 10 {
        seq![dec_digit(n)]
    } else {
        dec_string_of(n / 10) + seq![dec_digit(n % 10)]
    }
}

/// Relies on u64's Display implementation through ToString: an unsigned
/// integer prints as its decimal digits.
#[verifier::external_body]
fn u64_to_string(n: u64) -> (r: String)
    ensures
        r@ == dec_string_of(n as int),
{
    n.to_string()
}

/// A byte count shortened for the status bar: whole mebibytes as "MB",
/// else whole kibibytes as "KB", else bytes as "B", always rounding down.
pub open spec fn byte_unit_spec(n: int) -> Seq<char> {
    if n / 1024 == 0 {
        dec_string_of(n) + "B"@
    } else if n / 1024 / 1024 == 0 {
        dec_string_of(n / 1024) + "KB"@
    } else {
        dec_string_of(n / 1024 / 1024) + "MB"@
    }
}

pub fn format_byte_unit(number: u64) -> (r: String)
    ensures
        r@ == byte_unit_spec(number as int),
{
    proof {
        reveal_strlit("B");
        reveal_strlit("KB");
        reveal_strlit("MB");
    }
    let e: u64 = 1024;
    if number / e > 0 {
        if (number / e) / e > 0 {
            let mut s = u64_to_string((number / e) / e);
            s.append("MB");
            return s;
        }
        let mut s = u64_to_string(number / e);
        s.append("KB");
        return s;
    }
    let mut s = u64_to_string(number);
    s.append("B");
    s
}

/// Helper for `stride_spec`: the first index at or after `i` whose vertical
/// offset differs from the first child's, or the last index when none does.
pub open spec fn stride_from(ys: Seq<i32>, i: int) -> int
    decreases ys.len() - i,
{
    if i >= ys.len() {
        ys.len() - 1
    } else if ys[i] != ys[0] {
        i
    } else {
        stride_from(ys, i + 1)
    }
}

/// How many children a grid lays out per row, judged from the children's
/// vertical offsets: the index of the first child on a lower row. A list of
/// fewer than two children reports 0 or 1 respectively.
pub open spec fn stride_spec(ys: Seq<i32>) -> int {
    if ys.len() < 1 {
        0
    } else if ys.len() == 1 {
        1
    } else {
        stride_from(ys, 1)
    }
}

/// The grid stride: given each child's vertical offset in layout order,
/// the number of children per row.
pub fn flow_box_get_stride(ys: &Vec<i32>) -> (r: usize)
    ensures
        r == stride_spec(ys@),
{
    if ys.len() < 1 {
        return 0;
    }
    if ys.len() == 1 {
        return 1;
    }
    let y = ys[0];
    let mut i: usize = 1;
    while i < ys.len()
        invariant
            1 <= i <= ys@.len(),
            ys@.len() >= 2,
            y == ys@[0],
            stride_spec(ys@) == stride_from(ys@, i as int),
        decreases ys@.len() - i,
    {
        if ys[i] != y {
            return i;
        }
        i = i + 1;
    }
    ys.len() - 1
}

} // verus!
