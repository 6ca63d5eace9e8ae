//! Colour clean-up for the strip and the record layout of the screen-sync
//! packet.

use vstd::prelude::*;

verus! {

/// Threshold below which a screen colour is sent as black.
pub const SYNC_BLACK_THRESHOLD: u8 = 20;

/// A channel at or below this value counts as weak.
pub const WEAK_LEVEL: u8 = 50;

/// A channel at or above this value counts as dominant.
pub const DOMINANT_LEVEL: u8 = 200;

/// Below this sum of the three channels an LED colour counts as black.
pub const BLACK_SUM_THRESHOLD: u16 = 15;

pub open spec fn is_weak(v: u8) -> bool {
    v <= WEAK_LEVEL
}

/// A dominant channel raised by half, capped at 255.
pub open spec fn boosted(v: u8) -> u8 {
    if v * 3 / 2 > 255 {
        255
    } else {
        (v * 3 / 2) as u8
    }
}

/// What `convert_to_black` makes of a colour: black when every channel is
/// at or below the threshold; a pure, boosted primary when one channel is
/// dominant and the other two are weak; the colour unchanged otherwise.
pub open spec fn black_converted(r: u8, g: u8, b: u8, threshold: u8) -> (u8, u8, u8) {
    if r <= threshold && g <= threshold && b <= threshold {
        (0, 0, 0)
    } else if r >= DOMINANT_LEVEL && is_weak(g) && is_weak(b) {
        (boosted(r), 0, 0)
    } else if g >= DOMINANT_LEVEL && is_weak(r) && is_weak(b) {
        (0, boosted(g), 0)
    } else if b >= DOMINANT_LEVEL && is_weak(r) && is_weak(g) {
        (0, 0, boosted(b))
    } else {
        (r, g, b)
    }
}

fn boost(v: u8) -> (r: u8)
    ensures
        r == boosted(v),
{
    let raised: u16 = (v as u16 * 3) / 2;
    if raised > 255 {
        255
    } else {
        raised as u8
    }
}

/// Cleans up a colour before it is sent: near-black becomes black, and a
/// colour with one dominant and two weak channels becomes a pure primary.
pub fn convert_to_black(r: u8, g: u8, b: u8, threshold: u8) -> (out: (u8, u8, u8))
    ensures
        out == black_converted(r, g, b, threshold),
{
    if r <= threshold && g <= threshold && b <= threshold {
        return (0, 0, 0);
    }
    let weak_r = r <= WEAK_LEVEL;
    let weak_g = g <= WEAK_LEVEL;
    let weak_b = b <= WEAK_LEVEL;
    if r >= DOMINANT_LEVEL && weak_g && weak_b {
        (boost(r), 0, 0)
    } else if g >= DOMINANT_LEVEL && weak_r && weak_b {
        (0, boost(g), 0)
    } else if b >= DOMINANT_LEVEL && weak_r && weak_g {
        (0, 0, boost(b))
    } else {
        (r, g, b)
    }
}

/// The black cut-off treats the three channels alike: exchanging two
/// channels, or rotating them, before the conversion gives the converted
/// colour with its channels exchanged or rotated the same way. So the order
/// in which a strip expects its channels does not change what it shows.
pub proof fn law_black_conversion_ignores_channel_order(r: u8, g: u8, b: u8, threshold: u8)
    ensures
        ({
            let c = black_converted(r, g, b, threshold);
            let swapped = black_converted(g, r, b, threshold);
            let rotated = black_converted(g, b, r, threshold);
            &&& swapped == (c.1, c.0, c.2)
            &&& rotated == (c.1, c.2, c.0)
        }),
{
}

/// What the black cut-off does, in numbers: a colour whose channels are
/// all at or below the threshold becomes black; otherwise a colour with one
/// channel at 200 or more and the other two at 50 or less becomes that
/// channel alone, raised by half and capped at 255; every other colour is
/// left exactly as it is. So a colour is only ever darkened to black when
/// all of it is dark.
pub proof fn law_black_conversion_in_numbers(r: u8, g: u8, b: u8, threshold: u8)
    ensures
        ({
            let out = black_converted(r, g, b, threshold);
            let dark = r <= threshold && g <= threshold && b <= threshold;
            let raised = |v: u8| if (v as int) * 3 / 2 > 255 {
                255int
            } else {
                (v as int) * 3 / 2
            };
            &&& dark ==> out == (0u8, 0u8, 0u8)
            &&& !dark ==> out != (0u8, 0u8, 0u8)
            &&& !dark && r >= 200 && g <= 50 && b <= 50 ==> out.0 as int == raised(r)
                && out.1 == 0 && out.2 == 0
            &&& !dark && g >= 200 && r <= 50 && b <= 50 ==> out.1 as int == raised(g)
                && out.0 == 0 && out.2 == 0
            &&& !dark && b >= 200 && r <= 50 && g <= 50 ==> out.2 as int == raised(b)
                && out.0 == 0 && out.1 == 0
            &&& !dark && !(r >= 200 && g <= 50 && b <= 50) && !(g >= 200 && r <= 50 && b <= 50)
                && !(b >= 200 && r <= 50 && g <= 50) ==> out == (r, g, b)
        }),
{
}

/// Number of an LED in a packet: its position counted from one, kept to
/// its low eight bits.
pub open spec fn led_number(i: int) -> u8 {
    ((i + 1) % 256) as u8
}

/// A packet record: the LED number, the three channels, the LED number again.
pub open spec fn led_record(idx: u8, r: u8, g: u8, b: u8) -> Seq<u8> {
    seq![idx, r, g, b, idx]
}

/// Appends one LED record to a packet.
pub fn push_led_record(data: &mut Vec<u8>, idx: u8, r: u8, g: u8, b: u8)
    ensures
        final(data)@ == old(data)@ + led_record(idx, r, g, b),
{
    data.push(idx);
    data.push(r);
    data.push(g);
    data.push(b);
    data.push(idx);
}

/// The screen-sync packet of a row of colours: record `i` holds LED number
/// `i + 1` and colour `i` passed through `convert_to_black` with the sync
/// threshold.
pub open spec fn sync_packet_spec(colors: Seq<(u8, u8, u8)>) -> Seq<u8>
    decreases colors.len(),
{
    if colors.len() == 0 {
        seq![]
    } else {
        let i = colors.len() - 1;
        let c = colors[i];
        let k = black_converted(c.0, c.1, c.2, SYNC_BLACK_THRESHOLD);
        sync_packet_spec(colors.drop_last()) + led_record(led_number(i), k.0, k.1, k.2)
    }
}

/// The screen-sync packet has five bytes per LED; record `i` starts at byte
/// `5 * i` and holds the LED number `(i + 1) mod 256`, the colour passed
/// through the cut-off with threshold 20, and the LED number again.
pub proof fn law_sync_packet_layout(colors: Seq<(u8, u8, u8)>)
    ensures
        sync_packet_spec(colors).len() == 5 * colors.len(),
        forall|i: int|
            0 <= i < colors.len() ==> {
                let k = black_converted(colors[i].0, colors[i].1, colors[i].2, 20);
                &&& #[trigger] sync_packet_spec(colors)[5 * i] as int == (i + 1) % 256
                &&& sync_packet_spec(colors)[5 * i + 1] == k.0
                &&& sync_packet_spec(colors)[5 * i + 2] == k.1
                &&& sync_packet_spec(colors)[5 * i + 3] == k.2
                &&& sync_packet_spec(colors)[5 * i + 4] as int == (i + 1) % 256
            },
    decreases colors.len(),
{
    if colors.len() > 0 {
        let prefix = colors.drop_last();
        law_sync_packet_layout(prefix);
        assert forall|i: int| 0 <= i < prefix.len() implies prefix[i] == colors[i] by {}
    }
}

/// Builds the screen-sync packet: five bytes per LED, as `sync_packet_spec`
/// says.
pub fn sync_packet(colors: &Vec<(u8, u8, u8)>) -> (data: Vec<u8>)
    requires
        colors.len() * 5 <= usize::MAX,
    ensures
        data@ == sync_packet_spec(colors@),
        data@.len() == 5 * colors@.len(),
{
    let mut data: Vec<u8> = Vec::with_capacity(colors.len() * 5);
    let mut i: usize = 0;
    while i < colors.len()
        invariant
            i <= colors.len(),
            data@ == sync_packet_spec(colors@.take(i as int)),
        decreases colors.len() - i,
    {
        let (r, g, b) = colors[i];
        let (cr, cg, cb) = convert_to_black(r, g, b, SYNC_BLACK_THRESHOLD);
        let idx = ((i + 1) % 256) as u8;
        push_led_record(&mut data, idx, cr, cg, cb);
        proof {
            assert(colors@.take(i + 1).drop_last() == colors@.take(i as int));
        }
        i = i + 1;
    }
    proof {
        assert(colors@.take(colors@.len() as int) == colors@);
        law_sync_packet_layout(colors@);
    }
    data
}

/// A colour counts as black when its three channels sum to less than 15.
pub open spec fn is_black_color(c: (u8, u8, u8)) -> bool {
    c.0 + c.1 + c.2 < BLACK_SUM_THRESHOLD
}

/// A colour is black exactly when its three channels, added without any
/// wrap-around, stay below 15; in particular a colour with any channel of
/// 15 or more is never black, and one whose channels are all at most 4
/// always is.
pub proof fn law_black_is_a_small_channel_sum(c: (u8, u8, u8))
    ensures
        is_black_color(c) <==> (c.0 as int) + (c.1 as int) + (c.2 as int) < 15,
        c.0 >= 15 || c.1 >= 15 || c.2 >= 15 ==> !is_black_color(c),
        c.0 <= 4 && c.1 <= 4 && c.2 <= 4 ==> is_black_color(c),
{
}

/// Whether every LED colour of a frame is black.
pub fn frame_is_black(colors: &Vec<(u8, u8, u8)>) -> (r: bool)
    ensures
        r == (forall|i: int| 0 <= i < colors@.len() ==> is_black_color(#[trigger] colors@[i])),
{
    let mut i: usize = 0;
    while i < colors.len()
        invariant
            i <= colors.len(),
            forall|j: int| 0 <= j < i ==> is_black_color(#[trigger] colors@[j]),
        decreases colors.len() - i,
    {
        let (r, g, b) = colors[i];
        if r as u16 + g as u16 + b as u16 >= BLACK_SUM_THRESHOLD {
            return false;
        }
        i = i + 1;
    }
    true
}

/// The packet that shows a row of colours as they are: record `i` holds
/// LED number `i + 1` and colour `i`.
pub open spec fn frame_packet_spec(colors: Seq<(u8, u8, u8)>) -> Seq<u8>
    decreases colors.len(),
{
    if colors.len() == 0 {
        seq![]
    } else {
        let i = colors.len() - 1;
        let c = colors[i];
        frame_packet_spec(colors.drop_last()) + led_record(led_number(i), c.0, c.1, c.2)
    }
}

/// Builds the packet that shows a row of colours unchanged.
pub fn frame_packet(colors: &Vec<(u8, u8, u8)>) -> (data: Vec<u8>)
    requires
        colors.len() * 5 <= usize::MAX,
    ensures
        data@ == frame_packet_spec(colors@),
{
    let mut data: Vec<u8> = Vec::with_capacity(colors.len() * 5);
    let mut i: usize = 0;
    while i < colors.len()
        invariant
            i <= colors.len(),
            data@ == frame_packet_spec(colors@.take(i as int)),
        decreases colors.len() - i,
    {
        let (r, g, b) = colors[i];
        let idx = ((i + 1) % 256) as u8;
        push_led_record(&mut data, idx, r, g, b);
        proof {
            assert(colors@.take(i + 1).drop_last() == colors@.take(i as int));
        }
        i = i + 1;
    }
    proof {
        assert(colors@.take(colors@.len() as int) == colors@);
    }
    data
}

/// The plain packet has five bytes per LED; record `i` starts at byte
/// `5 * i` and holds the LED number `(i + 1) mod 256`, colour `i` unchanged,
/// and the LED number again.
pub proof fn law_frame_packet_layout(colors: Seq<(u8, u8, u8)>)
    ensures
        frame_packet_spec(colors).len() == 5 * colors.len(),
        forall|i: int|
            0 <= i < colors.len() ==> {
                &&& #[trigger] frame_packet_spec(colors)[5 * i] as int == (i + 1) % 256
                &&& frame_packet_spec(colors)[5 * i + 1] == colors[i].0
                &&& frame_packet_spec(colors)[5 * i + 2] == colors[i].1
                &&& frame_packet_spec(colors)[5 * i + 3] == colors[i].2
                &&& frame_packet_spec(colors)[5 * i + 4] as int == (i + 1) % 256
            },
    decreases colors.len(),
{
    if colors.len() > 0 {
        let prefix = colors.drop_last();
        law_frame_packet_layout(prefix);
        assert forall|i: int| 0 <= i < prefix.len() implies prefix[i] == colors[i] by {}
    }
}

/// The screen-sync packet is the plain packet of the converted colours:
/// the sync path only adds the black cut-off.
pub proof fn law_sync_packet_is_converted_frame(colors: Seq<(u8, u8, u8)>)
    ensures
        sync_packet_spec(colors) == frame_packet_spec(
            colors.map_values(
                |c: (u8, u8, u8)| black_converted(c.0, c.1, c.2, SYNC_BLACK_THRESHOLD),
            ),
        ),
    decreases colors.len(),
{
    let f = |c: (u8, u8, u8)| black_converted(c.0, c.1, c.2, SYNC_BLACK_THRESHOLD);
    if colors.len() > 0 {
        law_sync_packet_is_converted_frame(colors.drop_last());
        assert(colors.drop_last().map_values(f) == colors.map_values(f).drop_last());
    } else {
        assert(colors.map_values(f).len() == 0);
    }
}

/// Offsets of the records of a packet of `len` bytes whose colour bytes may
/// be reworked: every fifth offset from zero, as long as a whole record of
/// five bytes fits.
pub open spec fn record_offsets(len: nat) -> Seq<usize> {
    Seq::new(len / 5, |k: int| (5 * k) as usize)
}

/// Lists the record offsets of a packet of `len` bytes; the colour bytes of
/// the record at offset `i` are `i + 1`, `i + 2` and `i + 3`.
pub fn record_starts(len: usize) -> (r: Vec<usize>)
    ensures
        r@ == record_offsets(len as nat),
        forall|i: usize| i < len ==> (#[trigger] r@.contains(i) <==> i % 5 == 0 && i + 4 < len),
{
    let mut r: Vec<usize> = Vec::new();
    let mut i: usize = 0;
    while i < len && len - i > 4
        invariant
            i % 5 == 0,
            i <= len,
            i / 5 <= len / 5,
            r@.len() == i / 5,
            forall|k: int| 0 <= k < r@.len() ==> r@[k] == 5 * k,
        decreases len - i,
    {
        r.push(i);
        i = i + 5;
    }
    assert(r@.len() == len / 5);
    assert(r@ == record_offsets(len as nat));
    assert forall|j: usize| j < len implies (#[trigger] r@.contains(j) <==> j % 5 == 0 && j + 4
        < len) by {
        if j % 5 == 0 && j + 4 < len {
            assert(r@[(j / 5) as int] == j);
        }
        if r@.contains(j) {
            let k = choose|k: int| 0 <= k < r@.len() && r@[k] == j;
            assert(r@[k] == 5 * k);
        }
    }
    r
}

} // verus!
