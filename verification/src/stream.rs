use vstd::prelude::*;

use crate::video_recorder::{Condition, Frame};

verus! {

/// The pixel layouts the capture pipeline can normalize to RGBA8. Whatever
/// else a stream negotiates, its buffers are dropped.
#[derive(Debug, Clone, Copy, PartialEq, Eq, Structural)]
pub enum PixelFormat {
    Rgb,
    Rgba,
    Rgbx,
    Bgrx,
}

/// The concrete layout a stream settled on during format negotiation,
/// updated from inside the capture loop on a format-changed notification.
/// `format` is `None` until a supported layout was negotiated.
#[derive(Debug, Clone, Copy, PartialEq, Eq, Structural)]
pub struct StreamDescriptor {
    pub node_id: u32,
    pub format: Option<PixelFormat>,
    pub width: u32,
    pub height: u32,
}

/// How many pixels of an RGB source buffer can be copied: all `npix` of the
/// target, unless the source has fewer complete 3-byte pixels.
pub open spec fn spec_filled(src_len: nat, npix: nat) -> nat {
    let full = src_len / 3;
    if npix < full {
        npix
    } else {
        full
    }
}

/// Expansion of a 3-byte-per-pixel RGB buffer to `npix` RGBA pixels: copied
/// channels keep their bytes, every alpha byte is 255, and pixels past the
/// end of the source stay zero.
pub open spec fn spec_rgb_expand(src: Seq<u8>, npix: nat) -> Seq<u8> {
    Seq::new(
        4 * npix,
        |k: int|
            {
                let p = k / 4;
                let j = k % 4;
                if p < spec_filled(src.len(), npix) {
                    if j == 3 {
                        255u8
                    } else {
                        src[3 * p + j]
                    }
                } else {
                    0u8
                }
            },
    )
}

/// Per-pixel swap of channels 0 and 2 over every complete 4-byte pixel;
/// a trailing partial pixel is left as it is.
pub open spec fn spec_swap_bgrx(src: Seq<u8>) -> Seq<u8> {
    Seq::new(
        src.len(),
        |k: int|
            {
                let p = k / 4;
                let j = k % 4;
                if p < src.len() / 4 {
                    if j == 0 {
                        src[4 * p + 2]
                    } else if j == 2 {
                        src[4 * p]
                    } else {
                        src[k]
                    }
                } else {
                    src[k]
                }
            },
    )
}

/// What one negotiated buffer normalizes to, if anything: RGB sources are
/// expanded, RGBA and RGBx pass through, BGRx gets its channels swapped.
/// A four-byte-per-pixel buffer whose length does not match the negotiated
/// geometry is dropped, keeping every produced frame's length at
/// width·height·4.
pub open spec fn spec_convert(format: PixelFormat, w: nat, h: nat, data: Seq<u8>) -> Option<
    Seq<u8>,
> {
    let npix = w * h;
    match format {
        PixelFormat::Rgb => Some(spec_rgb_expand(data, npix)),
        PixelFormat::Rgba => if data.len() == 4 * npix {
            Some(data)
        } else {
            None
        },
        PixelFormat::Rgbx => if data.len() == 4 * npix {
            Some(data)
        } else {
            None
        },
        PixelFormat::Bgrx => if data.len() == 4 * npix {
            Some(spec_swap_bgrx(data))
        } else {
            None
        },
    }
}

/// Expands an RGB source buffer to `npix` RGBA pixels.
pub fn rgb_to_rgba(src: &Vec<u8>, npix: usize) -> (r: Vec<u8>)
    requires
        4 * npix <= usize::MAX,
    ensures
        r@ == spec_rgb_expand(src@, npix as nat),
{
    let full: usize = src.len() / 3;
    let filled: usize = if npix < full {
        npix
    } else {
        full
    };
    let mut r: Vec<u8> = Vec::new();
    let mut p: usize = 0;
    while p < filled
        invariant
            filled == spec_filled(src@.len(), npix as nat),
            filled <= npix,
            4 * npix <= usize::MAX,
            p <= filled,
            r@.len() == 4 * p,
            forall|k: int|
                0 <= k < 4 * p ==> r@[k] == spec_rgb_expand(src@, npix as nat)[k],
        decreases filled - p,
    {
        assert(3 * p + 2 < src@.len()) by {
            assert(p < src@.len() / 3);
        };
        r.push(src[3 * p]);
        r.push(src[3 * p + 1]);
        r.push(src[3 * p + 2]);
        r.push(255);
        p = p + 1;
    }
    while p < npix
        invariant
            filled == spec_filled(src@.len(), npix as nat),
            filled <= p <= npix,
            4 * npix <= usize::MAX,
            r@.len() == 4 * p,
            forall|k: int|
                0 <= k < 4 * p ==> r@[k] == spec_rgb_expand(src@, npix as nat)[k],
        decreases npix - p,
    {
        r.push(0);
        r.push(0);
        r.push(0);
        r.push(0);
        p = p + 1;
    }
    proof {
        assert(r@ =~= spec_rgb_expand(src@, npix as nat));
    }
    r
}

/// Swaps channels 0 and 2 of every complete 4-byte pixel, in place.
pub fn swap_bgrx(data: &mut Vec<u8>)
    ensures
        final(data)@ == spec_swap_bgrx(old(data)@),
{
    let npix: usize = data.len() / 4;
    let mut p: usize = 0;
    while p < npix
        invariant
            npix == old(data)@.len() / 4,
            old(data)@.len() <= usize::MAX,
            data@.len() == old(data)@.len(),
            p <= npix,
            forall|k: int|
                0 <= k < data@.len() ==> data@[k] == (if k / 4 < p {
                    spec_swap_bgrx(old(data)@)[k]
                } else {
                    old(data)@[k]
                }),
        decreases npix - p,
    {
        assert(4 * p + 3 < data@.len()) by {
            assert(p < old(data)@.len() / 4);
        };
        let a: u8 = data[4 * p];
        let c: u8 = data[4 * p + 2];
        data.set(4 * p, c);
        data.set(4 * p + 2, a);
        p = p + 1;
        proof {
            assert forall|k: int| 0 <= k < data@.len() implies data@[k] == (if k / 4 < p {
                spec_swap_bgrx(old(data)@)[k]
            } else {
                old(data)@[k]
            }) by {
                if k / 4 == p - 1 {
                    assert(4 * (p - 1) <= k < 4 * (p - 1) + 4);
                }
            };
        }
    }
    proof {
        assert(data@ =~= spec_swap_bgrx(old(data)@));
    }
}

/// Normalizes one negotiated buffer to RGBA8 for a `width`×`height` frame,
/// or reports that it must be dropped.
pub fn convert_to_rgba(format: PixelFormat, width: u32, height: u32, data: &Vec<u8>) -> (r: Option<
    Vec<u8>,
>)
    ensures
        4 * (width * height) <= usize::MAX ==> (match spec_convert(
            format,
            width as nat,
            height as nat,
            data@,
        ) {
            Some(b) => r matches Some(v) && v@ == b,
            None => r is None,
        }),
        4 * (width * height) > usize::MAX ==> r is None,
{
    let npix: usize = match (width as usize).checked_mul(height as usize) {
        Some(n) => n,
        None => {
            return None;
        },
    };
    if npix > usize::MAX / 4 {
        return None;
    }
    match format {
        PixelFormat::Rgb => Some(rgb_to_rgba(data, npix)),
        PixelFormat::Rgba => {
            if data.len() == 4 * npix {
                Some(data.clone())
            } else {
                None
            }
        },
        PixelFormat::Rgbx => {
            if data.len() == 4 * npix {
                Some(data.clone())
            } else {
                None
            }
        },
        PixelFormat::Bgrx => {
            if data.len() == 4 * npix {
                let mut buf = data.clone();
                swap_bgrx(&mut buf);
                Some(buf)
            } else {
                None
            }
        },
    }
}

/// What one buffer yields for delivery: a converted byte sequence exactly
/// when the recorder is running, the buffer's layout is supported, and the
/// geometry is sane; nothing otherwise. Buffers seen while Init, Paused or
/// Stopped are decoded and discarded, so nothing is ever delivered outside
/// a running window.
pub open spec fn spec_deliverable(
    cond: Condition,
    format: Option<PixelFormat>,
    w: nat,
    h: nat,
    data: Seq<u8>,
) -> Option<Seq<u8>> {
    if cond == Condition::Running && 4 * (w * h) <= usize::MAX {
        match format {
            Some(f) => spec_convert(f, w, h, data),
            None => None,
        }
    } else {
        None
    }
}

/// Handles one dequeued buffer: converts it to canonical RGBA8 and gates
/// delivery on the current condition. The returned frame, when any, is the
/// one to push on the output channel.
pub fn process_buffer(
    cond: Condition,
    format: Option<PixelFormat>,
    width: u32,
    height: u32,
    data: &Vec<u8>,
) -> (r: Option<Frame>)
    ensures
        match spec_deliverable(cond, format, width as nat, height as nat, data@) {
            Some(b) => r matches Some(f) && f.width == width && f.height == height && f.raw@ == b
                && f.wf(),
            None => r is None,
        },
{
    if !cond.is_running() {
        return None;
    }
    let f = match format {
        Some(f) => f,
        None => {
            return None;
        },
    };
    match convert_to_rgba(f, width, height, data) {
        Some(buf) => {
            proof {
                lemma_convert_len(f, width as nat, height as nat, data@);
            }
            Some(Frame::new(width, height, buf))
        },
        None => None,
    }
}

/// A converted buffer always has the canonical length width·height·4.
pub proof fn lemma_convert_len(format: PixelFormat, w: nat, h: nat, data: Seq<u8>)
    ensures
        match spec_convert(format, w, h, data) {
            Some(b) => b.len() == 4 * (w * h),
            None => true,
        },
{
}

/// Law: a full RGB buffer of `npix` pixels expands to exactly 4·npix bytes,
/// every pixel's alpha byte is 255, and its first three bytes are the
/// source pixel's bytes, unchanged.
pub proof fn lemma_rgb_expand_exact(src: Seq<u8>, npix: nat)
    requires
        src.len() == 3 * npix,
    ensures
        spec_rgb_expand(src, npix).len() == 4 * npix,
        forall|k: int|
            0 <= k < 4 * npix && k % 4 == 3 ==> #[trigger] spec_rgb_expand(src, npix)[k] == 255,
        forall|k: int|
            0 <= k < 4 * npix && k % 4 < 3 ==> #[trigger] spec_rgb_expand(src, npix)[k] == src[3
                * (k / 4) + k % 4],
{
    assert(spec_filled(src.len(), npix) == npix) by {
        vstd::arithmetic::div_mod::lemma_fundamental_div_mod_converse(
            src.len() as int,
            3,
            npix as int,
            0,
        );
    };
    assert forall|k: int| 0 <= k < 4 * npix && k % 4 == 3 implies #[trigger] spec_rgb_expand(
        src,
        npix,
    )[k] == 255 by {
        vstd::arithmetic::div_mod::lemma_fundamental_div_mod(k, 4);
    };
    assert forall|k: int| 0 <= k < 4 * npix && k % 4 < 3 implies #[trigger] spec_rgb_expand(
        src,
        npix,
    )[k] == src[3 * (k / 4) + k % 4] by {
        vstd::arithmetic::div_mod::lemma_fundamental_div_mod(k, 4);
    };
}

/// Law: the BGRx conversion swaps channels 0 and 2 of every complete pixel
/// and leaves channels 1 and 3 alone.
pub proof fn lemma_swap_bgrx_pixelwise(src: Seq<u8>)
    ensures
        spec_swap_bgrx(src).len() == src.len(),
        forall|k: int|
            0 <= k < 4 * (src.len() / 4) && k % 4 == 0 ==> #[trigger] spec_swap_bgrx(src)[k]
                == src[k + 2],
        forall|k: int|
            0 <= k < 4 * (src.len() / 4) && k % 4 == 2 ==> #[trigger] spec_swap_bgrx(src)[k]
                == src[k - 2],
        forall|k: int|
            0 <= k < src.len() && k % 4 != 0 && k % 4 != 2 ==> #[trigger] spec_swap_bgrx(src)[k]
                == src[k],
{
    assert forall|k: int|
        0 <= k < 4 * (src.len() / 4) && k % 4 == 0 implies #[trigger] spec_swap_bgrx(src)[k]
        == src[k + 2] by {
        vstd::arithmetic::div_mod::lemma_fundamental_div_mod(k, 4);
        vstd::arithmetic::div_mod::lemma_fundamental_div_mod(src.len() as int, 4);
        assert(k / 4 < src.len() / 4);
        assert(4 * (k / 4) + 2 == k + 2);
    };
    assert forall|k: int|
        0 <= k < 4 * (src.len() / 4) && k % 4 == 2 implies #[trigger] spec_swap_bgrx(src)[k]
        == src[k - 2] by {
        vstd::arithmetic::div_mod::lemma_fundamental_div_mod(k, 4);
        vstd::arithmetic::div_mod::lemma_fundamental_div_mod(src.len() as int, 4);
        assert(k / 4 < src.len() / 4);
        assert(4 * (k / 4) == k - 2);
    };
    assert forall|k: int|
        0 <= k < src.len() && k % 4 != 0 && k % 4 != 2 implies #[trigger] spec_swap_bgrx(src)[k]
        == src[k] by {
        vstd::arithmetic::div_mod::lemma_fundamental_div_mod(k, 4);
    };
}

/// Law: converting a byte sequence as BGRx twice returns the original
/// sequence; the swap is its own inverse.
pub proof fn lemma_swap_bgrx_involutive(src: Seq<u8>)
    ensures
        spec_swap_bgrx(spec_swap_bgrx(src)) == src,
{
    let t = spec_swap_bgrx(src);
    assert forall|k: int| 0 <= k < src.len() implies spec_swap_bgrx(t)[k] == src[k] by {
        let p = k / 4;
        let j = k % 4;
        vstd::arithmetic::div_mod::lemma_fundamental_div_mod(k, 4);
        if p < src.len() / 4 {
            vstd::arithmetic::div_mod::lemma_fundamental_div_mod_converse(4 * p + 2, 4, p, 2);
            vstd::arithmetic::div_mod::lemma_fundamental_div_mod_converse(4 * p, 4, p, 0);
        }
    };
    assert(spec_swap_bgrx(t) =~= src);
}

/// Law: nothing is delivered outside a running window; a buffer seen while
/// the condition is Init, Paused or Stopped yields no frame.
pub proof fn lemma_no_delivery_unless_running(
    cond: Condition,
    format: Option<PixelFormat>,
    w: nat,
    h: nat,
    data: Seq<u8>,
)
    ensures
        cond != Condition::Running ==> spec_deliverable(cond, format, w, h, data) is None,
{
}

/// What the event loop does on receiving a condition over its control
/// channel.
#[derive(Debug, Clone, Copy, PartialEq, Eq, Structural)]
pub struct ControlAction {
    /// Whether the stream is to be active afterwards.
    pub activate: bool,
    /// Whether pending buffers are flushed.
    pub flush: bool,
    /// Whether the loop terminates, ending the capture thread.
    pub quit: bool,
}

/// The control rule of the capture event loop: activate exactly while
/// running, flush on pause and on stop, and quit only on stop.
pub fn control_action(cond: Condition) -> (r: ControlAction)
    ensures
        r.activate == (cond == Condition::Running),
        r.flush == (cond == Condition::Paused || cond == Condition::Stopped),
        r.quit == (cond == Condition::Stopped),
{
    match cond {
        Condition::Init => ControlAction { activate: false, flush: false, quit: false },
        Condition::Running => ControlAction { activate: true, flush: false, quit: false },
        Condition::Paused => ControlAction { activate: false, flush: true, quit: false },
        Condition::Stopped => ControlAction { activate: false, flush: true, quit: true },
    }
}

/// The fixed negotiation proposal a stream advertises on attach.
#[derive(Debug, PartialEq, Eq)]
pub struct StreamProposal {
    /// Candidate pixel formats, in preference order.
    pub formats: Vec<PixelFormat>,
    /// Default, minimum and maximum frame sizes, as (width, height).
    pub size_default: (u32, u32),
    pub size_min: (u32, u32),
    pub size_max: (u32, u32),
    /// Default, minimum and maximum framerates, as (numerator, denominator).
    pub framerate_default: (u32, u32),
    pub framerate_min: (u32, u32),
    pub framerate_max: (u32, u32),
}

/// The proposal the pipeline always advertises: RGB, RGBA, RGBx and BGRx
/// candidates, sizes from 1×1 to 4096×4096, and framerates from 0 to 1000
/// with a preferred rate of 24.
pub fn stream_proposal() -> (r: StreamProposal)
    ensures
        r.formats@ == seq![
            PixelFormat::Rgb,
            PixelFormat::Rgba,
            PixelFormat::Rgbx,
            PixelFormat::Bgrx,
        ],
        r.size_default == (128u32, 128u32),
        r.size_min == (1u32, 1u32),
        r.size_max == (4096u32, 4096u32),
        r.framerate_default == (24u32, 1u32),
        r.framerate_min == (0u32, 1u32),
        r.framerate_max == (1000u32, 1u32),
{
    let mut formats: Vec<PixelFormat> = Vec::new();
    formats.push(PixelFormat::Rgb);
    formats.push(PixelFormat::Rgba);
    formats.push(PixelFormat::Rgbx);
    formats.push(PixelFormat::Bgrx);
    proof {
        assert(formats@ =~= seq![
            PixelFormat::Rgb,
            PixelFormat::Rgba,
            PixelFormat::Rgbx,
            PixelFormat::Bgrx,
        ]);
    }
    StreamProposal {
        formats,
        size_default: (128, 128),
        size_min: (1, 1),
        size_max: (4096, 4096),
        framerate_default: (24, 1),
        framerate_min: (0, 1),
        framerate_max: (1000, 1),
    }
}

} // verus!
