use vstd::prelude::*;

verus! {

/// The ASCII decimal digits of `n`, most significant first, without leading zeros.
pub open spec fn decimal(n: nat) -> Seq<u8>
    decreases n,
{
    if n < 10 {
        seq![(48 + n) as u8]
    } else {
        decimal(n / 10).push((48 + n % 10) as u8)
    }
}

/// The number that the ASCII decimal digits `s` spell, most significant first.
pub open spec fn digits_value(s: Seq<u8>) -> int
    decreases s.len(),
{
    if s.len() == 0 {
        0
    } else {
        digits_value(s.drop_last()) * 10 + (s.last() - 48)
    }
}

/// Whether every byte of `s` is an ASCII decimal digit.
pub open spec fn all_digits(s: Seq<u8>) -> bool {
    forall|i: int| 0 <= i < s.len() ==> 48 <= #[trigger] s[i] <= 57
}

/// The decimal spelling of `n` is a non-empty run of digits that reads back
/// as `n`.
pub proof fn law_decimal_reads_back(n: nat)
    ensures
        decimal(n).len() >= 1,
        all_digits(decimal(n)),
        digits_value(decimal(n)) == n,
    decreases n,
{
    if n >= 10 {
        law_decimal_reads_back(n / 10);
        let d = decimal(n);
        assert(d.drop_last() =~= decimal(n / 10));
        assert(d.last() == 48 + n % 10);
        assert forall|i: int| 0 <= i < d.len() implies 48 <= #[trigger] d[i] <= 57 by {
            if i < d.len() - 1 {
                assert(d[i] == decimal(n / 10)[i]);
            }
        }
        assert(digits_value(d) == digits_value(decimal(n / 10)) * 10 + (d.last() - 48));
        assert((n / 10) * 10 + n % 10 == n);
    } else {
        let d = decimal(n);
        assert(d.drop_last() =~= Seq::<u8>::empty());
        assert(digits_value(d.drop_last()) == 0);
        assert(d.last() == 48 + n);
    }
}

/// The header of a plain-text (P3) PPM image of `width` by `height` pixels
/// whose channels run up to 255: `P3`, a newline, the width, a space, the
/// height, a newline, `255` and a newline.
pub open spec fn ppm_header_spec(width: nat, height: nat) -> Seq<u8> {
    seq![80u8, 51u8, 10u8] + decimal(width) + seq![32u8] + decimal(height) + seq![10u8, 50u8, 53u8, 53u8, 10u8]
}

/// Appends the decimal digits of `n` to `out`.
fn push_decimal(out: &mut Vec<u8>, n: u32)
    ensures
        final(out)@ == old(out)@ + decimal(n as nat),
    decreases n,
{
    if n >= 10 {
        push_decimal(out, n / 10);
    }
    let digit: u8 = (n % 10) as u8;
    out.push(48u8 + digit);
    assert(final(out)@ =~= old(out)@ + decimal(n as nat));
}

/// The header reads back: after `P3` and a newline come the digits of the
/// width, a space, the digits of the height, and a newline followed by `255`
/// and a newline; the first number is the width and the second the height.
pub proof fn law_header_reads_back(width: nat, height: nat)
    ensures
        ({
            let hdr = ppm_header_spec(width, height);
            let w = decimal(width).len() as int;
            let h = decimal(height).len() as int;
            &&& hdr.len() == 3 + w + 1 + h + 5
            &&& hdr.subrange(0, 3) == seq![80u8, 51u8, 10u8]
            &&& all_digits(hdr.subrange(3, 3 + w))
            &&& digits_value(hdr.subrange(3, 3 + w)) == width
            &&& hdr[3 + w] == 32u8
            &&& all_digits(hdr.subrange(4 + w, 4 + w + h))
            &&& digits_value(hdr.subrange(4 + w, 4 + w + h)) == height
            &&& hdr.subrange(4 + w + h, hdr.len() as int) == seq![10u8, 50u8, 53u8, 53u8, 10u8]
        }),
{
    law_decimal_reads_back(width);
    law_decimal_reads_back(height);
    let hdr = ppm_header_spec(width, height);
    let w = decimal(width).len() as int;
    let h = decimal(height).len() as int;
    assert(hdr.subrange(3, 3 + w) =~= decimal(width));
    assert(hdr.subrange(4 + w, 4 + w + h) =~= decimal(height));
    assert(hdr.subrange(0, 3) =~= seq![80u8, 51u8, 10u8]);
    assert(hdr.subrange(4 + w + h, hdr.len() as int) =~= seq![10u8, 50u8, 53u8, 53u8, 10u8]);
}

/// The bytes of the PPM header for a `width` by `height` image.
pub fn ppm_header(width: u32, height: u32) -> (header: Vec<u8>)
    ensures
        header@ == ppm_header_spec(width as nat, height as nat),
        header@ == seq![80u8, 51u8, 10u8] + decimal(width as nat) + seq![32u8] + decimal(height as nat)
            + seq![10u8, 50u8, 53u8, 53u8, 10u8],
{
    let mut out: Vec<u8> = Vec::new();
    out.push(80u8);
    out.push(51u8);
    out.push(10u8);
    push_decimal(&mut out, width);
    out.push(32u8);
    push_decimal(&mut out, height);
    out.push(10u8);
    out.push(50u8);
    out.push(53u8);
    out.push(53u8);
    out.push(10u8);
    assert(out@ =~= ppm_header_spec(width as nat, height as nat));
    out
}

/// The rows of an image of `height` rows in the order they are rendered and
/// written: from the top row, `height - 1`, down to row 0.
pub open spec fn render_order(height: nat) -> Seq<u32> {
    Seq::new(height, |k: int| (height - 1 - k) as u32)
}

/// The rows of an image of `height` rows in rendering order.
pub fn render_rows(height: u32) -> (rows: Vec<u32>)
    requires
        height >= 1,
    ensures
        rows@ == render_order(height as nat),
{
    let mut rows: Vec<u32> = Vec::new();
    let mut j: u32 = height;
    while j > 0
        invariant
            j <= height,
            rows@.len() == height - j,
            forall|k: int| 0 <= k < rows@.len() ==> #[trigger] rows@[k] == height - 1 - k,
        decreases j,
    {
        j = j - 1;
        rows.push(j);
    }
    assert(rows@ =~= render_order(height as nat));
    rows
}

/// Every row of the image is rendered exactly once, and a row is rendered
/// before every row below it.
pub proof fn law_rows_each_once(height: u32)
    ensures
        render_order(height as nat).len() == height,
        forall|r: u32| r < height ==> #[trigger] render_order(height as nat).contains(r),
        forall|a: int, b: int| 0 <= a < b < height ==> render_order(height as nat)[a] > render_order(height as nat)[b],
{
    let rows = render_order(height as nat);
    assert forall|r: u32| r < height implies #[trigger] rows.contains(r) by {
        assert(rows[height - 1 - r] == r);
    }
}

} // verus!
