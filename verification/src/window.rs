//! The window extractor: the trailing price window that ends just before a
//! given bar, or a signal of insufficient history.

use vstd::prelude::*;
use crate::bar::Bar;

verus! {

/// Which price of a bar a window draws on.
#[derive(Clone, Copy, Debug, PartialEq, Eq, Structural)]
pub enum PriceField {
    Close,
    High,
    Low,
}

/// The selected price of one bar.
pub open spec fn field_of(b: Bar, f: PriceField) -> i64 {
    match f {
        PriceField::Close => b.close,
        PriceField::High => b.high,
        PriceField::Low => b.low,
    }
}

/// The trailing window of `length` values of `field` that ends at
/// `end` (exclusive, so the bar at `end` itself is never included), or
/// `None` when the window would run before the start of the series.
pub open spec fn window_spec(s: Seq<Bar>, end: int, length: int, f: PriceField) -> Option<Seq<i64>> {
    if end < length {
        None
    } else {
        Some(Seq::new(length as nat, |k: int| field_of(s[end - length + k], f)))
    }
}

/// Extracts the trailing window of `length` values of `field` ending at
/// `end_index_exclusive`, strictly before the bar at that index. Returns
/// `None` exactly when fewer than `length` bars precede it.
pub fn window(series: &Vec<Bar>, end_index_exclusive: usize, length: usize, field: PriceField) -> (r: Option<
    Vec<i64>,
>)
    requires
        end_index_exclusive <= series@.len(),
    ensures
        r is Some <==> end_index_exclusive >= length,
        r matches Some(w) ==> Some(w@) == window_spec(
            series@,
            end_index_exclusive as int,
            length as int,
            field,
        ),
{
    if end_index_exclusive < length {
        return None;
    }
    let start = end_index_exclusive - length;
    let mut w: Vec<i64> = Vec::new();
    let mut k: usize = 0;
    while k < length
        invariant
            w@.len() == k,
            k <= length,
            start == end_index_exclusive - length,
            end_index_exclusive <= series@.len(),
            length <= end_index_exclusive,
            forall|j: int| 0 <= j < k ==> w@[j] == field_of(series@[start + j], field),
        decreases length - k,
    {
        let b = &series[start + k];
        let v = match field {
            PriceField::Close => b.close,
            PriceField::High => b.high,
            PriceField::Low => b.low,
        };
        w.push(v);
        k += 1;
    }
    proof {
        let expect = window_spec(series@, end_index_exclusive as int, length as int, field);
        assert(w@ =~= expect->Some_0);
    }
    Some(w)
}

} // verus!
