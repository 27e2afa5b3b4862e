use vstd::prelude::*;

use crate::math::{fits_i32, int_abs};

verus! {

/// One image of a cursor theme: its nominal size, its pixel extent, its
/// hotspot, how long it shows in an animation, and its pixels.
#[derive(Clone, Debug, PartialEq, Eq)]
pub struct CursorImage {
    pub size: u32,
    pub width: u32,
    pub height: u32,
    pub xhot: u32,
    pub yhot: u32,
    pub delay: u32,
    pub pixels_rgba: Vec<u8>,
    pub pixels_argb: Vec<u8>,
}

/// A `u32` read as an `i32` with the same bits.
pub open spec fn as_i32_bits(v: u32) -> int {
    if v <= i32::MAX {
        v as int
    } else {
        v - 0x1_0000_0000
    }
}

/// How far an image's nominal size is from the wanted size, compared as
/// `i32`s.
pub open spec fn size_gap(size: u32, image_size: u32) -> int {
    int_abs(as_i32_bits(size) - as_i32_bits(image_size))
}

/// Whether the size gap of an image is computed without overflow.
pub open spec fn gap_fits(size: u32, image_size: u32) -> bool {
    let d = as_i32_bits(size) - as_i32_bits(image_size);
    fits_i32(d) && d != i32::MIN
}

/// Whether `n` is the first image with the smallest size gap.
pub open spec fn is_nearest(size: u32, images: Seq<CursorImage>, n: int) -> bool {
    &&& 0 <= n < images.len()
    &&& forall|j: int| 0 <= j < images.len() ==> size_gap(size, images[n].size) <= size_gap(size, #[trigger] images[j].size)
    &&& forall|j: int| 0 <= j < n ==> size_gap(size, images[n].size) < size_gap(size, #[trigger] images[j].size)
}

/// The first image with the smallest size gap.
pub open spec fn nearest_image(size: u32, images: Seq<CursorImage>) -> int {
    choose|n: int| is_nearest(size, images, n)
}

/// Whether two images have the same pixel extent.
pub open spec fn same_extent(a: CursorImage, b: CursorImage) -> bool {
    a.width == b.width && a.height == b.height
}

/// Whether `idx` lists, in increasing order, exactly the images with the
/// extent of image `n`.
pub open spec fn lists_same_extent(images: Seq<CursorImage>, n: int, idx: Seq<usize>) -> bool {
    &&& forall|t: int| 0 <= t < idx.len() ==> #[trigger] idx[t] < images.len()
        && same_extent(images[idx[t] as int], images[n])
    &&& forall|a: int, b: int| 0 <= a < b < idx.len() ==> #[trigger] idx[a] < #[trigger] idx[b]
    &&& forall|j: int| 0 <= j < images.len() && same_extent(#[trigger] images[j], images[n])
        ==> idx.contains(j as usize)
}

/// The total delay of the listed images.
pub open spec fn delay_total(images: Seq<CursorImage>, idx: Seq<usize>) -> int
    decreases idx.len(),
{
    if idx.len() == 0 {
        0
    } else {
        images[idx[0] as int].delay + delay_total(images, idx.drop_first())
    }
}

/// The position in `idx` of the animation frame that shows `m` milliseconds
/// into the animation.
pub open spec fn frame_slot(images: Seq<CursorImage>, idx: Seq<usize>, m: int) -> int
    decreases idx.len(),
{
    if idx.len() == 0 {
        0
    } else if m < images[idx[0] as int].delay {
        0
    } else {
        1 + frame_slot(images, idx.drop_first(), m - images[idx[0] as int].delay)
    }
}

/// Whether every size gap is computed without overflow.
pub open spec fn gaps_fit(size: u32, images: Seq<CursorImage>) -> bool {
    forall|j: int| 0 <= j < images.len() ==> gap_fits(size, #[trigger] images[j].size)
}

/// There is exactly one first nearest image.
pub proof fn lemma_nearest_unique(size: u32, images: Seq<CursorImage>, a: int, b: int)
    requires
        is_nearest(size, images, a),
        is_nearest(size, images, b),
    ensures
        a == b,
{
    let ga = size_gap(size, images[a].size);
    let gb = size_gap(size, images[b].size);
    assert(ga <= gb);
    assert(gb <= ga);
    if a < b {
        assert(gb < ga);
    }
    if b < a {
        assert(ga < gb);
    }
}

/// A non-empty list of images has a first nearest image.
pub proof fn lemma_nearest_exists(size: u32, images: Seq<CursorImage>)
    requires
        images.len() > 0,
    ensures
        is_nearest(size, images, nearest_image(size, images)),
    decreases images.len(),
{
    if images.len() == 1 {
        assert(is_nearest(size, images, 0));
    } else {
        let front = images.drop_last();
        lemma_nearest_exists(size, front);
        let n = nearest_image(size, front);
        let last = images.len() - 1;
        assert forall|j: int| 0 <= j < last implies #[trigger] images[j] == front[j] by {}
        if size_gap(size, images[last].size) < size_gap(size, front[n].size) {
            assert forall|j: int| 0 <= j < images.len() implies size_gap(size, images[last].size) <= size_gap(size, #[trigger] images[j].size) by {
                if j < last {
                    assert(front[j] == images[j]);
                }
            }
            assert forall|j: int| 0 <= j < last implies size_gap(size, images[last].size) < size_gap(size, #[trigger] images[j].size) by {
                assert(front[j] == images[j]);
            }
            assert(is_nearest(size, images, last));
        } else {
            assert forall|j: int| 0 <= j < images.len() implies size_gap(size, images[n].size) <= size_gap(size, #[trigger] images[j].size) by {
                if j < last {
                    assert(front[j] == images[j]);
                }
            }
            assert forall|j: int| 0 <= j < n implies size_gap(size, images[n].size) < size_gap(size, #[trigger] images[j].size) by {
                assert(front[j] == images[j]);
            }
            assert(is_nearest(size, images, n));
        }
    }
}

/// Reads a `u32` as an `i32` with the same bits.
fn bits_as_i32(v: u32) -> (r: i32)
    ensures
        r == as_i32_bits(v),
{
    if v <= 0x7fff_ffff {
        v as i32
    } else {
        ((v as i64) - 0x1_0000_0000) as i32
    }
}

/// The indices, in increasing order, of the images with the extent of the
/// image whose nominal size is nearest `size` (the first such image on a tie).
pub fn nearest_images(size: u32, images: &Vec<CursorImage>) -> (r: Vec<usize>)
    requires
        images@.len() > 0,
        gaps_fit(size, images@),
    ensures
        lists_same_extent(images@, nearest_image(size, images@), r@),
        r@.len() > 0,
{
    let mut n: usize = 0;
    let mut best: i32 = crate::math::abs_i32(bits_as_i32(size) - bits_as_i32(images[0].size));
    let mut j: usize = 1;
    while j < images.len()
        invariant
            images@.len() > 0,
            gaps_fit(size, images@),
            1 <= j <= images@.len(),
            n < j,
            best == size_gap(size, images@[n as int].size),
            forall|k: int| 0 <= k < j ==> size_gap(size, images@[n as int].size) <= size_gap(size, #[trigger] images@[k].size),
            forall|k: int| 0 <= k < n ==> size_gap(size, images@[n as int].size) < size_gap(size, #[trigger] images@[k].size),
        decreases images@.len() - j,
    {
        assert(gap_fits(size, images@[j as int].size));
        let gap = crate::math::abs_i32(bits_as_i32(size) - bits_as_i32(images[j].size));
        if gap < best {
            n = j;
            best = gap;
        }
        j = j + 1;
    }
    proof {
        lemma_nearest_unique(size, images@, n as int, nearest_image(size, images@));
    }
    let width = images[n].width;
    let height = images[n].height;
    let mut out: Vec<usize> = Vec::new();
    let mut k: usize = 0;
    while k < images.len()
        invariant
            0 <= k <= images@.len(),
            n < images@.len(),
            width == images@[n as int].width,
            height == images@[n as int].height,
            forall|t: int| 0 <= t < out@.len() ==> #[trigger] out@[t] < k
                && same_extent(images@[out@[t] as int], images@[n as int]),
            forall|a: int, b: int| 0 <= a < b < out@.len() ==> #[trigger] out@[a] < #[trigger] out@[b],
            forall|i: int| 0 <= i < k && same_extent(#[trigger] images@[i], images@[n as int])
                ==> out@.contains(i as usize),
            k > n ==> out@.contains(n),
        decreases images@.len() - k,
    {
        if images[k].width == width && images[k].height == height {
            let ghost before = out@;
            out.push(k);
            proof {
                assert forall|i: int| 0 <= i < k + 1 && same_extent(#[trigger] images@[i], images@[n as int])
                    implies out@.contains(i as usize) by {
                    if i < k {
                        let t = choose|t: int| 0 <= t < before.len() && before[t] == i as usize;
                        assert(out@[t] == i as usize);
                    } else {
                        assert(out@[out@.len() - 1] == i as usize);
                    }
                }
                if k > n {
                    let t = choose|t: int| 0 <= t < before.len() && before[t] == n;
                    assert(out@[t] == n);
                }
            }
        }
        k = k + 1;
    }
    proof {
        let t = choose|t: int| 0 <= t < out@.len() && out@[t] == n;
    }
    out
}

/// Two increasing lists of the same indices are the same list.
proof fn lemma_increasing_unique(a: Seq<usize>, b: Seq<usize>)
    requires
        forall|i: int, j: int| 0 <= i < j < a.len() ==> #[trigger] a[i] < #[trigger] a[j],
        forall|i: int, j: int| 0 <= i < j < b.len() ==> #[trigger] b[i] < #[trigger] b[j],
        forall|x: usize| a.contains(x) <==> b.contains(x),
    ensures
        a == b,
    decreases a.len(),
{
    if a.len() == 0 {
        if b.len() > 0 {
            assert(b.contains(b[0]));
        }
        assert(a =~= b);
    } else {
        assert(a.contains(a[0]));
        let k = choose|k: int| 0 <= k < b.len() && b[k] == a[0];
        assert(b.contains(b[0]));
        let j = choose|j: int| 0 <= j < a.len() && a[j] == b[0];
        if k > 0 {
            assert(b[0] < b[k]);
            if j > 0 {
                assert(a[0] < a[j]);
            }
        }
        assert(a[0] == b[0]);
        let a1 = a.drop_first();
        let b1 = b.drop_first();
        assert forall|x: usize| a1.contains(x) <==> b1.contains(x) by {
            if a1.contains(x) {
                let i = choose|i: int| 0 <= i < a1.len() && a1[i] == x;
                assert(a[i + 1] == x && a[0] < a[i + 1]);
                assert(a.contains(x));
                let t = choose|t: int| 0 <= t < b.len() && b[t] == x;
                assert(t != 0);
                assert(b1[t - 1] == x);
            }
            if b1.contains(x) {
                let i = choose|i: int| 0 <= i < b1.len() && b1[i] == x;
                assert(b[i + 1] == x && b[0] < b[i + 1]);
                assert(b.contains(x));
                let t = choose|t: int| 0 <= t < a.len() && a[t] == x;
                assert(t != 0);
                assert(a1[t - 1] == x);
            }
        }
        lemma_increasing_unique(a1, b1);
        assert(a.len() == b.len());
        assert forall|i: int| 0 <= i < a.len() implies a[i] == b[i] by {
            if i > 0 {
                assert(a[i] == a1[i - 1]);
                assert(b[i] == b1[i - 1]);
            }
        }
        assert(a =~= b);
    }
}

/// The list of the images of a given extent is unique, so the frame that
/// `frame` picks is determined by its arguments.
pub proof fn lemma_same_extent_list_unique(images: Seq<CursorImage>, n: int, a: Seq<usize>, b: Seq<usize>)
    requires
        0 <= n < images.len(),
        lists_same_extent(images, n, a),
        lists_same_extent(images, n, b),
    ensures
        a == b,
{
    assert forall|x: usize| a.contains(x) <==> b.contains(x) by {
        if a.contains(x) {
            let t = choose|t: int| 0 <= t < a.len() && a[t] == x;
            assert(same_extent(images[x as int], images[n]));
            assert(images[x as int] == images[x as int as int]);
        }
        if b.contains(x) {
            let t = choose|t: int| 0 <= t < b.len() && b[t] == x;
            assert(same_extent(images[x as int], images[n]));
        }
    }
    lemma_increasing_unique(a, b);
}

/// A time within the animation falls on one of its frames.
proof fn lemma_frame_slot_bound(images: Seq<CursorImage>, idx: Seq<usize>, m: int)
    requires
        0 <= m < delay_total(images, idx),
    ensures
        0 <= frame_slot(images, idx, m) < idx.len(),
    decreases idx.len(),
{
    if idx.len() > 0 && m >= images[idx[0] as int].delay {
        lemma_frame_slot_bound(images, idx.drop_first(), m - images[idx[0] as int].delay);
    }
}

/// The frame shown is always one of the images with the extent of the
/// image nearest the wanted size.
pub proof fn lemma_frame_in_nearest_group(millis: u32, size: u32, images: Seq<CursorImage>, r: int)
    requires
        is_frame(millis, size, images, r),
    ensures
        0 <= r < images.len(),
        same_extent(images[r], images[nearest_image(size, images)]),
{
    let idx = choose|idx: Seq<usize>| #![trigger lists_same_extent(images, nearest_image(size, images), idx)] {
        &&& lists_same_extent(images, nearest_image(size, images), idx)
        &&& idx.len() > 0
        &&& r == if delay_total(images, idx) == 0 {
            idx[0] as int
        } else {
            idx[frame_slot(images, idx, (millis as int) % delay_total(images, idx))] as int
        }
    };
    if delay_total(images, idx) != 0 {
        lemma_delay_total_nonneg(images, idx);
        let m = (millis as int) % delay_total(images, idx);
        lemma_frame_slot_bound(images, idx, m);
        let t = frame_slot(images, idx, m);
        assert(idx[t] < images.len());
    } else {
        assert(idx[0] < images.len());
    }
}

/// The frame shown `m` milliseconds into the animation (`m` less than its
/// length) is the one whose time slot holds `m`: the delays of the frames
/// before it add up to at most `m`, and adding its own delay exceeds `m`.
pub proof fn lemma_frame_slot_holds_the_time(images: Seq<CursorImage>, idx: Seq<usize>, m: int)
    requires
        0 <= m < delay_total(images, idx),
    ensures
        0 <= frame_slot(images, idx, m) < idx.len(),
        delay_total(images, idx.take(frame_slot(images, idx, m))) <= m,
        m < delay_total(images, idx.take(frame_slot(images, idx, m) + 1)),
    decreases idx.len(),
{
    lemma_frame_slot_bound(images, idx, m);
    let d0 = images[idx[0] as int].delay;
    let t = frame_slot(images, idx, m);
    assert(idx.take(0) =~= Seq::<usize>::empty());
    if m < d0 {
        assert(idx.take(1).drop_first() =~= Seq::<usize>::empty());
    } else {
        let rest = idx.drop_first();
        lemma_frame_slot_holds_the_time(images, rest, m - d0);
        let t2 = frame_slot(images, rest, m - d0);
        assert(idx.take(t2 + 1).drop_first() =~= rest.take(t2));
        assert(idx.take(t2 + 2).drop_first() =~= rest.take(t2 + 1));
        assert(idx.take(t2 + 1)[0] == idx[0]);
        assert(idx.take(t2 + 2)[0] == idx[0]);
    }
}

/// The image shown at `millis` is listed in the nearest group at a position
/// whose time slot holds the time into the loop, `millis` modulo the loop's
/// length; when no image has a delay it is the first of the group.
pub proof fn lemma_frame_shows_its_time(millis: u32, size: u32, images: Seq<CursorImage>, r: int)
    requires
        is_frame(millis, size, images, r),
    ensures
        exists|idx: Seq<usize>, t: int| #![trigger lists_same_extent(images, nearest_image(size, images), idx), idx[t]]
            lists_same_extent(images, nearest_image(size, images), idx) && 0 <= t < idx.len() && r == idx[t] && (
            delay_total(images, idx) == 0 ==> t == 0) && (delay_total(images, idx) > 0 ==> delay_total(
                images,
                idx.take(t),
            ) <= (millis as int) % delay_total(images, idx) < delay_total(images, idx.take(t + 1))),
{
    let idx = choose|idx: Seq<usize>| #![trigger lists_same_extent(images, nearest_image(size, images), idx)] {
        &&& lists_same_extent(images, nearest_image(size, images), idx)
        &&& idx.len() > 0
        &&& r == if delay_total(images, idx) == 0 {
            idx[0] as int
        } else {
            idx[frame_slot(images, idx, (millis as int) % delay_total(images, idx))] as int
        }
    };
    lemma_delay_total_nonneg(images, idx);
    if delay_total(images, idx) != 0 {
        let m = (millis as int) % delay_total(images, idx);
        lemma_frame_slot_holds_the_time(images, idx, m);
        let t = frame_slot(images, idx, m);
        assert(r == idx[t]);
    } else {
        assert(r == idx[0]);
    }
}

/// Splitting off the first listed image splits the total delay.
proof fn lemma_delay_total_skip(images: Seq<CursorImage>, idx: Seq<usize>, t: int)
    requires
        0 <= t < idx.len(),
    ensures
        delay_total(images, idx.skip(t)) == images[idx[t] as int].delay + delay_total(images, idx.skip(t + 1)),
{
    assert(idx.skip(t).drop_first() =~= idx.skip(t + 1));
}

/// Adding a listed image at the end adds its delay.
proof fn lemma_delay_total_push(images: Seq<CursorImage>, idx: Seq<usize>, x: usize)
    ensures
        delay_total(images, idx.push(x)) == delay_total(images, idx) + images[x as int].delay,
    decreases idx.len(),
{
    if idx.len() > 0 {
        assert(idx.push(x).drop_first() =~= idx.drop_first().push(x));
        lemma_delay_total_push(images, idx.drop_first(), x);
    } else {
        assert(idx.push(x).drop_first() =~= idx);
    }
}

/// Total delays are never negative.
proof fn lemma_delay_total_nonneg(images: Seq<CursorImage>, idx: Seq<usize>)
    ensures
        delay_total(images, idx) >= 0,
    decreases idx.len(),
{
    if idx.len() > 0 {
        lemma_delay_total_nonneg(images, idx.drop_first());
    }
}

/// The index of the image to show `millis` milliseconds into the animation
/// of the images nearest `size`: the animation of those images loops, each
/// showing for its delay; when none has a delay, the first is shown.
pub fn frame(millis: u32, size: u32, images: &Vec<CursorImage>) -> (r: usize)
    requires
        frame_fits(size, images@),
    ensures
        r < images@.len(),
        is_frame(millis, size, images@, r as int),
{
    let nearest = nearest_images(size, images);
    let mut total: u32 = 0;
    let mut i: usize = 0;
    while i < nearest.len()
        invariant
            0 <= i <= nearest@.len(),
            lists_same_extent(images@, nearest_image(size, images@), nearest@),
            delay_total(images@, nearest@) <= u32::MAX,
            total == delay_total(images@, nearest@.take(i as int)),
        decreases nearest@.len() - i,
    {
        proof {
            assert(nearest@.take(i + 1) =~= nearest@.take(i as int).push(nearest@[i as int]));
            lemma_delay_total_push(images@, nearest@.take(i as int), nearest@[i as int]);
            lemma_delay_total_nonneg(images@, nearest@.skip(i + 1));
            assert(nearest@ =~= nearest@.take(i + 1) + nearest@.skip(i + 1));
            lemma_delay_total_split(images@, nearest@.take(i + 1), nearest@.skip(i + 1));
        }
        total = total + images[nearest[i]].delay;
        i = i + 1;
    }
    proof {
        assert(nearest@.take(nearest@.len() as int) =~= nearest@);
    }
    if total == 0 {
        return nearest[0];
    }
    let mut m: u32 = millis % total;
    let ghost m0: int = m as int;
    let mut t: usize = 0;
    proof {
        assert(nearest@.skip(0) =~= nearest@);
    }
    while t < nearest.len()
        invariant
            0 <= t <= nearest@.len(),
            lists_same_extent(images@, nearest_image(size, images@), nearest@),
            total == delay_total(images@, nearest@),
            total > 0,
            m0 == (millis as int) % (total as int),
            m < delay_total(images@, nearest@.skip(t as int)),
            frame_slot(images@, nearest@, m0) == t + frame_slot(images@, nearest@.skip(t as int), m as int),
        decreases nearest@.len() - t,
    {
        proof {
            lemma_delay_total_skip(images@, nearest@, t as int);
            assert(nearest@.skip(t as int).drop_first() =~= nearest@.skip(t + 1));
        }
        let delay = images[nearest[t]].delay;
        if m < delay {
            return nearest[t];
        }
        m = m - delay;
        t = t + 1;
    }
    proof {
        assert(nearest@.skip(t as int).len() == 0);
    }
    nearest[0]
}

/// The total delay of two lists one after the other is the sum of theirs.
proof fn lemma_delay_total_split(images: Seq<CursorImage>, a: Seq<usize>, b: Seq<usize>)
    ensures
        delay_total(images, a + b) == delay_total(images, a) + delay_total(images, b),
    decreases a.len(),
{
    if a.len() > 0 {
        assert((a + b).drop_first() =~= a.drop_first() + b);
        lemma_delay_total_split(images, a.drop_first(), b);
    }
}

/// The value of a string of decimal digits.
pub open spec fn decimal_value(digits: Seq<char>) -> int
    decreases digits.len(),
{
    if digits.len() == 0 {
        0
    } else {
        decimal_value(digits.drop_last()) * 10 + (digits.last() as int - '0' as int)
    }
}

/// Whether a character is a decimal digit.
pub open spec fn is_decimal_digit(c: char) -> bool {
    '0' <= c <= '9'
}

/// Whether every character is a decimal digit.
pub open spec fn all_decimal(digits: Seq<char>) -> bool {
    forall|i: int| 0 <= i < digits.len() ==> is_decimal_digit(#[trigger] digits[i])
}

/// The string without a leading `+`.
pub open spec fn unsigned_digits(s: Seq<char>) -> Seq<char> {
    if s.len() > 0 && s[0] == '+' {
        s.drop_first()
    } else {
        s
    }
}

/// What parsing a string as a `u32` gives: an optional `+`, then one or more
/// decimal digits whose value fits in a `u32`.
pub open spec fn parsed_u32(s: Seq<char>) -> Option<u32> {
    let digits = unsigned_digits(s);
    if digits.len() == 0 || !all_decimal(digits) {
        None
    } else if decimal_value(digits) > u32::MAX {
        None
    } else {
        Some(decimal_value(digits) as u32)
    }
}

proof fn lemma_decimal_value_monotone(digits: Seq<char>, k: int)
    requires
        0 <= k <= digits.len(),
        forall|i: int| 0 <= i < digits.len() ==> is_decimal_digit(#[trigger] digits[i]),
    ensures
        0 <= decimal_value(digits.take(k)) <= decimal_value(digits),
    decreases digits.len(),
{
    if digits.len() > 0 {
        if k == digits.len() {
            assert(digits.take(k) =~= digits);
            lemma_decimal_value_monotone(digits.drop_last(), 0);
            assert(digits.drop_last().take(0) =~= Seq::<char>::empty());
        } else {
            lemma_decimal_value_monotone(digits.drop_last(), k);
            assert(digits.drop_last().take(k) =~= digits.take(k));
            lemma_decimal_value_monotone(digits.drop_last(), digits.len() - 1);
            assert(digits.drop_last().take(digits.len() - 1) =~= digits.drop_last());
        }
    }
}

/// Parses a string as a `u32` the way `str::parse::<u32>` does, keeping
/// only whether it succeeded.
pub fn parse_u32(s: &str) -> (r: Option<u32>)
    ensures
        r == parsed_u32(s@),
{
    let mut value: u32 = 0;
    let mut any_digit = false;
    let mut at_start = true;
    let ghost sq = s@;
    let ghost skip: int = if sq.len() > 0 && sq[0] == '+' { 1 } else { 0 };
    let ghost digits = sq.skip(skip);
    let ghost mut count: int = 0;
    proof {
        assert(digits =~= unsigned_digits(sq));
    }
    for c in it: s.chars()
        invariant
            it.seq() == sq,
            sq == s@,
            digits == sq.skip(skip),
            digits == unsigned_digits(sq),
            skip == (if sq.len() > 0 && sq[0] == '+' { 1int } else { 0int }),
            at_start == (it.index() == 0),
            it.index() == 0 ==> count == 0,
            it.index() > 0 ==> count == it.index() - skip,
            any_digit == (count > 0),
            0 <= count <= digits.len(),
            forall|i: int| 0 <= i < count ==> is_decimal_digit(#[trigger] digits[i]),
            value == decimal_value(digits.take(count)),
    {
        proof {
            assert(c == sq[it.index()]);
        }
        if at_start && c == '+' {
            at_start = false;
        } else {
            at_start = false;
            proof {
                assert(skip + count == it.index());
                assert(digits[count] == c);
            }
            if !('0' <= c && c <= '9') {
                proof {
                    assert(!is_decimal_digit(digits[count]));
                }
                return None;
            }
            let d: u32 = (c as u32) - ('0' as u32);
            proof {
                assert(digits.take(count + 1).drop_last() =~= digits.take(count));
                assert(digits.take(count + 1).last() == c);
            }
            if value > 429496729 || (value == 429496729 && d > 5) {
                proof {
                    assert(decimal_value(digits.take(count + 1)) == value * 10 + d);
                    assert(value * 10 + d > u32::MAX);
                    if all_decimal(digits) {
                        lemma_decimal_value_monotone(digits, count + 1);
                    }
                }
                return None;
            }
            value = value * 10 + d;
            any_digit = true;
            proof {
                count = count + 1;
            }
        }
    }
    if !any_digit {
        return None;
    }
    proof {
        assert(digits.take(count) =~= digits);
    }
    Some(value)
}

/// Whether `r` is the image that `frame` picks `millis` milliseconds into
/// the animation of the images nearest `size`.
pub open spec fn is_frame(millis: u32, size: u32, images: Seq<CursorImage>, r: int) -> bool {
    exists|idx: Seq<usize>| #![trigger lists_same_extent(images, nearest_image(size, images), idx)] {
        &&& lists_same_extent(images, nearest_image(size, images), idx)
        &&& idx.len() > 0
        &&& r == if delay_total(images, idx) == 0 {
            idx[0] as int
        } else {
            idx[frame_slot(images, idx, (millis as int) % delay_total(images, idx))] as int
        }
    }
}

/// Whether `frame` can run on these images without overflow.
pub open spec fn frame_fits(size: u32, images: Seq<CursorImage>) -> bool {
    &&& images.len() > 0
    &&& gaps_fit(size, images)
    &&& forall|idx: Seq<usize>| lists_same_extent(images, nearest_image(size, images), idx)
        ==> delay_total(images, idx) <= u32::MAX
}

/// The fields of an image as plain values: nominal size, width, height,
/// hotspot, delay, and the two pixel buffers.
pub open spec fn image_fields(i: CursorImage) -> (u32, u32, u32, u32, u32, u32, Seq<u8>, Seq<u8>) {
    (i.size, i.width, i.height, i.xhot, i.yhot, i.delay, i.pixels_rgba@, i.pixels_argb@)
}

/// The fields of each image of a list.
pub open spec fn images_fields(images: Seq<CursorImage>) -> Seq<(u32, u32, u32, u32, u32, u32, Seq<u8>, Seq<u8>)> {
    images.map_values(|i: CursorImage| image_fields(i))
}

/// The images that `xcursor::parser::parse_xcursor` reads from the bytes of
/// a cursor file, as plain fields, or `None` when the bytes are not a
/// well-formed cursor file.
pub uninterp spec fn xcursor_parse(data: Seq<u8>) -> Option<Seq<(u32, u32, u32, u32, u32, u32, Seq<u8>, Seq<u8>)>>;

/// Reads the images of a cursor file with `xcursor::parser::parse_xcursor`.
///
/// Claimed of the outside function: its result depends on the bytes alone,
/// it is `None` exactly when `xcursor_parse` is, and otherwise it holds one
/// image per entry of `xcursor_parse`, in order, with the same fields. What
/// the parser accepts and the images it builds are left to that name; that
/// an allocation of the declared pixel buffer may fail is not stated.
#[verifier::external_body]
fn parse_cursor_file(data: &[u8]) -> (r: Option<Vec<CursorImage>>)
    ensures
        r is Some == xcursor_parse(data@) is Some,
        r matches Some(v) ==> images_fields(v@) == xcursor_parse(data@)->0,
{
    xcursor::parser::parse_xcursor(data).map(|images| {
        images.into_iter().map(|i| CursorImage {
            size: i.size,
            width: i.width,
            height: i.height,
            xhot: i.xhot,
            yhot: i.yhot,
            delay: i.delay,
            pixels_rgba: i.pixels_rgba,
            pixels_argb: i.pixels_argb,
        }).collect()
    })
}

/// The fields of the image shown when a theme has no usable cursor.
pub open spec fn fallback_fields(pixels_rgba: Seq<u8>) -> (u32, u32, u32, u32, u32, u32, Seq<u8>, Seq<u8>) {
    (32, 64, 64, 1, 1, 1, pixels_rgba, Seq::empty())
}

/// The image shown when a theme has no usable cursor: a 64×64 image of
/// nominal size 32 with its hotspot at `(1, 1)`.
pub fn fallback_image(pixels_rgba: Vec<u8>) -> (r: CursorImage)
    ensures
        image_fields(r) == fallback_fields(pixels_rgba@),
{
    let r = CursorImage {
        size: 32,
        width: 64,
        height: 64,
        xhot: 1,
        yhot: 1,
        delay: 1,
        pixels_rgba,
        pixels_argb: Vec::new(),
    };
    assert(r.pixels_argb@ =~= Seq::<u8>::empty());
    r
}

/// The cursor size that the `XCURSOR_SIZE` setting gives: the setting read
/// as a `u32`, or 24 when it is unset or not a number.
pub open spec fn size_from_setting(size_setting: Option<&str>) -> u32 {
    match size_setting {
        Some(s) => match parsed_u32(s@) {
            Some(v) => v,
            None => 24,
        },
        None => 24,
    }
}

/// The pointer's images and its nominal size.
pub struct Cursor {
    icons: Vec<CursorImage>,
    size: u32,
}

impl Cursor {
    /// The images of the cursor.
    pub closed spec fn images(&self) -> Seq<CursorImage> {
        self.icons@
    }

    /// The nominal size of the cursor.
    pub closed spec fn nominal_size(&self) -> u32 {
        self.size
    }

    /// A cursor from the images of a theme's cursor file, or from the
    /// fallback image when there is no file or it does not parse, with the
    /// size that the `XCURSOR_SIZE` setting gives, or 24 when it is unset or
    /// not a number.
    pub fn load(theme_file: Option<&[u8]>, size_setting: Option<&str>, fallback_rgba: Vec<u8>) -> (c: Cursor)
        ensures
            match theme_file {
                Some(data) if xcursor_parse(data@) is Some => images_fields(c.images()) == xcursor_parse(data@)->0,
                _ => images_fields(c.images()) == seq![fallback_fields(fallback_rgba@)],
            },
            c.nominal_size() == size_from_setting(size_setting),
    {
        let parsed = match theme_file {
            Some(data) => parse_cursor_file(data),
            None => None,
        };
        Cursor::with_images(parsed, size_setting, fallback_rgba)
    }

    /// A cursor from a theme's images, or from the fallback image when the
    /// theme has none, with the size that the `XCURSOR_SIZE` setting gives,
    /// or 24 when it is unset or not a number.
    pub fn with_images(theme_icons: Option<Vec<CursorImage>>, size_setting: Option<&str>, fallback_rgba: Vec<u8>) -> (c: Cursor)
        ensures
            match theme_icons {
                Some(icons) => c.images() == icons@,
                None => images_fields(c.images()) == seq![fallback_fields(fallback_rgba@)],
            },
            c.nominal_size() == size_from_setting(size_setting),
    {
        let size = match size_setting {
            Some(s) => match parse_u32(s) {
                Some(v) => v,
                None => 24,
            },
            None => 24,
        };
        let icons = match theme_icons {
            Some(icons) => icons,
            None => {
                let mut v: Vec<CursorImage> = Vec::new();
                v.push(fallback_image(fallback_rgba));
                assert(images_fields(v@) =~= seq![fallback_fields(fallback_rgba@)]);
                v
            },
        };
        Cursor { icons, size }
    }

    /// Whether `get_image` can run with this scale without overflow.
    pub fn can_get_image(&self, scale: u32) -> (r: bool)
        ensures
            r == (self.nominal_size() * scale <= u32::MAX && frame_fits(
                (self.nominal_size() * scale) as u32,
                self.images(),
            )),
    {
        let s64: u64 = self.size as u64;
        let k64: u64 = scale as u64;
        assert(s64 * k64 <= 0xffff_fffe_0000_0001) by (nonlinear_arith)
            requires
                s64 <= 0xffff_ffff,
                k64 <= 0xffff_ffff,
        ;
        let product: u64 = s64 * k64;
        if product > 0xffff_ffff {
            return false;
        }
        let size = product as u32;
        assert(size == (self.nominal_size() * scale) as u32);
        assert(self.images() == self.icons@);
        if self.icons.len() == 0 {
            return false;
        }
        let mut j: usize = 0;
        while j < self.icons.len()
            invariant
                0 <= j <= self.icons@.len(),
                size == (self.nominal_size() * scale) as u32,
                self.nominal_size() * scale <= u32::MAX,
                self.images() == self.icons@,
                forall|k: int| 0 <= k < j ==> gap_fits(size, #[trigger] self.icons@[k].size),
            decreases self.icons@.len() - j,
        {
            let d: i64 = (bits_as_i32(size) as i64) - (bits_as_i32(self.icons[j].size) as i64);
            if !(-0x8000_0000 < d && d <= 0x7fff_ffff) {
                proof {
                    assert(!gap_fits(size, self.icons@[j as int].size));
                }
                return false;
            }
            j = j + 1;
        }
        let nearest = nearest_images(size, &self.icons);
        let mut total: u64 = 0;
        let mut i: usize = 0;
        while i < nearest.len()
            invariant
                0 <= i <= nearest@.len(),
                size == (self.nominal_size() * scale) as u32,
                self.nominal_size() * scale <= u32::MAX,
                self.images() == self.icons@,
                lists_same_extent(self.icons@, nearest_image(size, self.icons@), nearest@),
                total == delay_total(self.icons@, nearest@.take(i as int)),
                total <= u32::MAX,
            decreases nearest@.len() - i,
        {
            proof {
                assert(nearest@.take(i + 1) =~= nearest@.take(i as int).push(nearest@[i as int]));
                lemma_delay_total_push(self.icons@, nearest@.take(i as int), nearest@[i as int]);
            }
            total = total + self.icons[nearest[i]].delay as u64;
            if total > 0xffff_ffff {
                proof {
                    lemma_delay_total_nonneg(self.icons@, nearest@.skip(i + 1));
                    assert(nearest@ =~= nearest@.take(i + 1) + nearest@.skip(i + 1));
                    lemma_delay_total_split(self.icons@, nearest@.take(i + 1), nearest@.skip(i + 1));
                    assert(delay_total(self.icons@, nearest@) > u32::MAX);
                    assert(lists_same_extent(self.icons@, nearest_image(size, self.icons@), nearest@));
                }
                return false;
            }
            i = i + 1;
        }
        proof {
            assert(nearest@.take(nearest@.len() as int) =~= nearest@);
            assert forall|idx: Seq<usize>| lists_same_extent(self.icons@, nearest_image(size, self.icons@), idx)
                implies delay_total(self.icons@, idx) <= u32::MAX by {
                lemma_nearest_exists(size, self.icons@);
                lemma_same_extent_list_unique(self.icons@, nearest_image(size, self.icons@), idx, nearest@);
            }
        }
        true
    }

    /// The image to show at `time_millis` milliseconds on an output of the
    /// given scale: the frame of the animation of the images nearest the
    /// scaled nominal size, the time counted in wrapping 32-bit milliseconds.
    pub fn get_image(&self, scale: u32, time_millis: u128) -> (r: &CursorImage)
        requires
            self.nominal_size() * scale <= u32::MAX,
            frame_fits((self.nominal_size() * scale) as u32, self.images()),
        ensures
            exists|i: int| is_frame(time_millis as u32, (self.nominal_size() * scale) as u32, self.images(), i)
                && *r == self.images()[i],
    {
        let size = self.size * scale;
        let millis = time_millis as u32;
        let i = frame(millis, size, &self.icons);
        &self.icons[i]
    }
}

} // verus!
