use std::collections::HashMap;

use vstd::prelude::*;

use crate::image::Images;
use crate::pixel::{chan, Pixels};

verus! {

/// How many of the first `n` pixels of `s` carry value `v` on channel
/// `c`.
pub open spec fn count_channel(s: Seq<Pixels>, c: int, v: u8, n: int) -> nat
    decreases n,
{
    if n <= 0 {
        0
    } else {
        count_channel(s, c, v, n - 1) + (if chan(s[n - 1], c) == v as int {
            1nat
        } else {
            0nat
        })
    }
}

/// A channel value cannot occur more often than there are pixels.
proof fn lemma_count_channel_le(s: Seq<Pixels>, c: int, v: u8, n: int)
    requires
        0 <= n,
    ensures
        count_channel(s, c, v, n) <= n,
    decreases n,
{
    if n > 0 {
        lemma_count_channel_le(s, c, v, n - 1);
    }
}

/// The red, green and blue intensity histograms of a buffer: one map per
/// channel from each intensity 0..=255 to the number of pixels that
/// carry it, absent intensities counted zero.
pub fn compute_histogram(image: &Images) -> (r: Vec<HashMap<u8, u32>>)
    requires
        image.image_data@.len() <= u32::MAX,
    ensures
        r@.len() == 3,
        forall|v: u8| #[trigger] r@[0]@.contains_key(v),
        forall|v: u8| #[trigger] r@[1]@.contains_key(v),
        forall|v: u8| #[trigger] r@[2]@.contains_key(v),
        forall|v: u8| #[trigger] r@[0]@[v] == count_channel(
            image.image_data@,
            0,
            v,
            image.image_data@.len() as int,
        ),
        forall|v: u8| #[trigger] r@[1]@[v] == count_channel(
            image.image_data@,
            1,
            v,
            image.image_data@.len() as int,
        ),
        forall|v: u8| #[trigger] r@[2]@[v] == count_channel(
            image.image_data@,
            2,
            v,
            image.image_data@.len() as int,
        ),
{
    let mut red_histogram_map: HashMap<u8, u32> = HashMap::new();
    let mut green_histogram_map: HashMap<u8, u32> = HashMap::new();
    let mut blue_histogram_map: HashMap<u8, u32> = HashMap::new();
    let mut k: u32 = 0;
    while k < 256
        invariant
            0 <= k <= 256,
            forall|v: u8| v < k ==> #[trigger] red_histogram_map@.contains_key(v),
            forall|v: u8| v < k ==> #[trigger] red_histogram_map@[v] == 0,
            forall|v: u8| v < k ==> #[trigger] green_histogram_map@.contains_key(v),
            forall|v: u8| v < k ==> #[trigger] green_histogram_map@[v] == 0,
            forall|v: u8| v < k ==> #[trigger] blue_histogram_map@.contains_key(v),
            forall|v: u8| v < k ==> #[trigger] blue_histogram_map@[v] == 0,
        decreases 256 - k,
    {
        red_histogram_map.insert(k as u8, 0);
        green_histogram_map.insert(k as u8, 0);
        blue_histogram_map.insert(k as u8, 0);
        k = k + 1;
    }
    let n = image.image_data.len();
    let mut i: usize = 0;
    while i < n
        invariant
            n == image.image_data@.len(),
            n <= u32::MAX,
            0 <= i <= n,
            forall|v: u8| #[trigger] red_histogram_map@.contains_key(v),
            forall|v: u8| #[trigger] green_histogram_map@.contains_key(v),
            forall|v: u8| #[trigger] blue_histogram_map@.contains_key(v),
            forall|v: u8| #[trigger] red_histogram_map@[v] == count_channel(
                image.image_data@,
                0,
                v,
                i as int,
            ),
            forall|v: u8| #[trigger] green_histogram_map@[v] == count_channel(
                image.image_data@,
                1,
                v,
                i as int,
            ),
            forall|v: u8| #[trigger] blue_histogram_map@[v] == count_channel(
                image.image_data@,
                2,
                v,
                i as int,
            ),
        decreases n - i,
    {
        let p = image.image_data[i];
        proof {
            lemma_count_channel_le(image.image_data@, 0, p.red, i as int);
            lemma_count_channel_le(image.image_data@, 1, p.green, i as int);
            lemma_count_channel_le(image.image_data@, 2, p.blue, i as int);
        }
        let red_count: u32 = *red_histogram_map.get(&p.red).unwrap();
        red_histogram_map.insert(p.red, red_count + 1);
        let green_count: u32 = *green_histogram_map.get(&p.green).unwrap();
        green_histogram_map.insert(p.green, green_count + 1);
        let blue_count: u32 = *blue_histogram_map.get(&p.blue).unwrap();
        blue_histogram_map.insert(p.blue, blue_count + 1);
        i = i + 1;
    }
    let mut r: Vec<HashMap<u8, u32>> = Vec::new();
    r.push(red_histogram_map);
    r.push(green_histogram_map);
    r.push(blue_histogram_map);
    r
}

} // verus!
