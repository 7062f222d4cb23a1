use vstd::prelude::*;

verus! {

/// The axis extents of a latency histogram: `x` buckets of latency and a
/// count axis that reaches `y`.
#[derive(Clone, Copy, Debug, PartialEq, Eq, Structural)]
pub struct Dimensions {
    pub x: u32,
    pub y: u32,
}

impl Dimensions {
    /// The extents as given.
    pub fn new(x: u32, y: u32) -> (d: Dimensions)
        ensures
            d.x == x,
            d.y == y,
    {
        Dimensions { x, y }
    }
}

impl Default for Dimensions {
    /// About three hundred buckets and a count axis up to a thousand.
    fn default() -> (d: Dimensions)
        ensures
            d.x == 300,
            d.y == 1000,
    {
        Dimensions { x: 300, y: 1000 }
    }
}

/// The extents to draw with: those given, else the defaults.
pub fn dimensions_or_default(dimensions: Option<Dimensions>) -> (d: Dimensions)
    ensures
        dimensions matches Some(g) ==> d == g,
        dimensions is None ==> d.x == 300 && d.y == 1000,
{
    match dimensions {
        Some(g) => g,
        None => Dimensions::default(),
    }
}

/// Narrows a series of durations to the 32-bit values that a histogram
/// plots. Fails where any duration does not fit in 32 bits.
pub fn plot_values(values: &Vec<u128>) -> (r: Option<Vec<u32>>)
    ensures
        r is Some <==> (forall|i: int| 0 <= i < values@.len() ==> #[trigger] values@[i] <= u32::MAX),
        r matches Some(out) ==> out@.len() == values@.len() && (forall|i: int|
            0 <= i < values@.len() ==> #[trigger] out@[i] == values@[i]),
{
    let mut out: Vec<u32> = Vec::with_capacity(values.len());
    let mut i: usize = 0;
    while i < values.len()
        invariant
            i <= values@.len(),
            out@.len() == i,
            forall|k: int| 0 <= k < i ==> #[trigger] out@[k] == values@[k],
            forall|k: int| 0 <= k < i ==> #[trigger] values@[k] <= u32::MAX,
        decreases values@.len() - i,
    {
        let v = values[i];
        if v > u32::MAX as u128 {
            return None;
        }
        out.push(v as u32);
        i = i + 1;
    }
    Some(out)
}

} // verus!
