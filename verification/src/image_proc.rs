//! Scaling and channel order of 32-bit pixel buffers.

use resize::Pixel::RGBA8;
use resize::Type::Triangle;
use rgb::FromSlice;
use vstd::prelude::*;

verus! {

/// The byte that the position `i` of a buffer of `len` bytes gets its value from when the first
/// and third channel of every whole pixel change places.
pub open spec fn swap_index(len: int, i: int) -> int {
    if i - i % 4 + 4 > len {
        i
    } else if i % 4 == 0 {
        i + 2
    } else if i % 4 == 2 {
        i - 2
    } else {
        i
    }
}

/// The buffer `s` with the red and blue channels of every whole pixel exchanged.
pub open spec fn swapped(s: Seq<u8>) -> Seq<u8> {
    Seq::new(s.len(), |i: int| s[swap_index(s.len() as int, i)])
}

/// The number of bytes of an image of `width` by `height` pixels.
pub open spec fn image_bytes(width: int, height: int) -> int {
    width * height * 4
}

/// The triangle-filtered rescaling of the RGBA image `src`, `src_w` by `src_h` pixels, to
/// `dst_w` by `dst_h` pixels, every channel on its own, as `resize::Resizer::resize` computes it.
pub uninterp spec fn resampled(
    src: Seq<u8>,
    src_w: int,
    src_h: int,
    dst_w: int,
    dst_h: int,
) -> Seq<u8>;

/// Whether the intermediate image of a rescaling, `dst_w` pixels wide and `src_h` high, and a square
/// of `dst_w` pixels can be counted in a `usize`. With 64-bit addresses they always can.
pub open spec fn scratch_fits(src_h: int, dst_w: int) -> bool {
    dst_w * src_h <= usize::MAX && dst_w * dst_w <= usize::MAX
}

/// What kept a rescaling from being done.
#[derive(Clone, Copy, Debug, PartialEq, Eq, Structural)]
pub enum ResampleFailure {
    /// The filter for the two sizes could not be set up.
    Setup,
    /// The pixels could not be processed.
    Run,
}

/// Sets up a resampler with `resize::new` and runs it with `resize::Resizer::resize`, over the
/// bytes read as pixels by `rgb::FromSlice::as_rgba` and `as_rgba_mut`.
///
/// Claimed of the two calls: when both succeed the destination holds the rescaled image, which
/// depends on the source bytes and the four sizes alone; when either fails, nothing has been
/// written. The four channels are rescaled alike and apart from each other, so that exchanging red
/// and blue before a rescaling comes to the same as exchanging them after it. Whether the calls
/// succeed depends on the memory that is left, and is not claimed.
#[verifier::external_body]
fn resample(
    src: &[u8],
    src_w: usize,
    src_h: usize,
    dst: &mut [u8],
    dst_w: usize,
    dst_h: usize,
) -> (r: Result<(), ResampleFailure>)
    requires
        0 < src_w <= u32::MAX,
        0 < src_h <= u32::MAX,
        0 < dst_w <= u32::MAX,
        0 < dst_h <= u32::MAX,
        scratch_fits(src_h as int, dst_w as int),
        src@.len() == image_bytes(src_w as int, src_h as int),
        old(dst)@.len() == image_bytes(dst_w as int, dst_h as int),
    ensures
        final(dst)@.len() == old(dst)@.len(),
        r is Ok ==> final(dst)@ == resampled(
            src@,
            src_w as int,
            src_h as int,
            dst_w as int,
            dst_h as int,
        ),
        r is Ok ==> resampled(
            swapped(src@),
            src_w as int,
            src_h as int,
            dst_w as int,
            dst_h as int,
        ) == swapped(final(dst)@),
        r is Err ==> final(dst)@ == old(dst)@,
{
    match resize::new(src_w, src_h, dst_w, dst_h, RGBA8, Triangle) {
        Ok(mut resizer) => match resizer.resize(src.as_rgba(), dst.as_rgba_mut()) {
            Ok(()) => Ok(()),
            Err(_) => Err(ResampleFailure::Run),
        },
        Err(_) => Err(ResampleFailure::Setup),
    }
}

/// Whether a rescaling of `src` between the given sizes has been run and has come to `failure`.
pub closed spec fn rescaling_failed(
    src: Seq<u8>,
    src_w: int,
    src_h: int,
    dst_w: int,
    dst_h: int,
    failure: ResampleFailure,
) -> bool {
    exists|bytes: &[u8], dst: &mut [u8]|
        bytes@ == src && #[trigger] call_ensures(
            resample,
            (bytes, src_w as usize, src_h as usize, dst, dst_w as usize, dst_h as usize),
            Err(failure),
        )
}

/// A failed rescaling is nothing but an outcome of the resampler, run on these bytes and sizes. Like
/// the resampler itself, this is for this module alone to speak of.
proof fn failures_come_from_the_resampler(
    src: Seq<u8>,
    src_w: int,
    src_h: int,
    dst_w: int,
    dst_h: int,
    failure: ResampleFailure,
)
    requires
        rescaling_failed(src, src_w, src_h, dst_w, dst_h, failure),
    ensures
        exists|bytes: &[u8], dst: &mut [u8]|
            bytes@ == src && #[trigger] call_ensures(
                resample,
                (bytes, src_w as usize, src_h as usize, dst, dst_w as usize, dst_h as usize),
                Err(failure),
            ),
{
}

/// Runs `resampler` on the given images, so that what comes of it is known to be its doing.
fn run<F: Fn(&[u8], usize, usize, &mut [u8], usize, usize) -> Result<(), ResampleFailure>>(
    resampler: F,
    src: &[u8],
    src_w: usize,
    src_h: usize,
    dst: &mut [u8],
    dst_w: usize,
    dst_h: usize,
) -> (r: Result<(), ResampleFailure>)
    requires
        forall|d: &mut [u8]|
            d@ == old(dst)@ ==> #[trigger] call_requires(
                resampler,
                (src, src_w, src_h, d, dst_w, dst_h),
            ),
    ensures
        exists|d: &mut [u8]|
            #[trigger] call_ensures(resampler, (src, src_w, src_h, d, dst_w, dst_h), r) && d@
                == old(dst)@ && final(d)@ == final(dst)@,
{
    resampler(src, src_w, src_h, dst, dst_w, dst_h)
}

/// Rescales `src` into `dst`.
fn rescale(src: &[u8], src_w: u32, src_h: u32, dst: &mut [u8], dst_w: u32, dst_h: u32) -> (r: Result<
    (),
    ResampleFailure,
>)
    requires
        0 < src_w,
        0 < src_h,
        0 < dst_w,
        0 < dst_h,
        scratch_fits(src_h as int, dst_w as int),
        src@.len() == image_bytes(src_w as int, src_h as int),
        old(dst)@.len() == image_bytes(dst_w as int, dst_h as int),
    ensures
        final(dst)@.len() == old(dst)@.len(),
        r is Ok ==> {
            let scaled = resampled(
                src@,
                src_w as int,
                src_h as int,
                dst_w as int,
                dst_h as int,
            );
            &&& final(dst)@ == scaled
            &&& resampled(
                swapped(src@),
                src_w as int,
                src_h as int,
                dst_w as int,
                dst_h as int,
            ) == swapped(scaled)
        },
        r matches Err(failure) ==> {
            &&& final(dst)@ == old(dst)@
            &&& rescaling_failed(
                src@,
                src_w as int,
                src_h as int,
                dst_w as int,
                dst_h as int,
                failure,
            )
        },
{
    let r = run(
        resample,
        src,
        src_w as usize,
        src_h as usize,
        dst,
        dst_w as usize,
        dst_h as usize,
    );
    proof {
        let d = choose|d: &mut [u8]| #[trigger]
            call_ensures(
                resample,
                (src, src_w as usize, src_h as usize, d, dst_w as usize, dst_h as usize),
                r,
            ) && d@ == old(dst)@ && final(d)@ == final(dst)@;
        assert(call_ensures(
            resample,
            (
                src,
                src_w as int as usize,
                src_h as int as usize,
                d,
                dst_w as int as usize,
                dst_h as int as usize,
            ),
            r,
        ));
    }
    r
}

/// Exchanges the red and blue channels of every whole pixel of `pixels`, in place.
pub fn swap_red_blue(pixels: &mut [u8])
    ensures
        final(pixels)@ == swapped(old(pixels)@),
{
    let len: usize = pixels.len();
    let ghost before = pixels@;
    let mut i: usize = 0;
    while len - i >= 4
        invariant
            len == pixels@.len(),
            before.len() == len,
            i <= len,
            i % 4 == 0,
            forall|j: int| 0 <= j < i ==> #[trigger] pixels@[j] == before[swap_index(len as int, j)],
            forall|j: int| i <= j < len ==> #[trigger] pixels@[j] == before[j],
        decreases len - i,
    {
        let red: u8 = pixels[i];
        let blue: u8 = pixels[i + 2];
        pixels[i] = blue;
        pixels[i + 2] = red;
        i = i + 4;
    }
}

/// Writes into `dst` the pixels of `src` with their red and blue channels exchanged.
pub fn copy_swapped(src: &[u8], dst: &mut [u8])
    requires
        src@.len() == old(dst)@.len(),
        src@.len() % 4 == 0,
    ensures
        final(dst)@ == swapped(src@),
{
    let len: usize = src.len();
    let mut i: usize = 0;
    while i < len
        invariant
            len == src@.len(),
            len == dst@.len(),
            len % 4 == 0,
            i <= len,
            i % 4 == 0,
            forall|j: int| 0 <= j < i ==> #[trigger] dst@[j] == src@[swap_index(len as int, j)],
        decreases len - i,
    {
        dst[i] = src[i + 2];
        dst[i + 1] = src[i + 1];
        dst[i + 2] = src[i];
        dst[i + 3] = src[i + 3];
        i = i + 4;
    }
}

/// The number of bytes of an image of `width` by `height` pixels, if a `usize` can hold it.
pub fn image_len(width: usize, height: usize) -> (r: Option<usize>)
    ensures
        r == (if image_bytes(width as int, height as int) <= usize::MAX {
            Some(image_bytes(width as int, height as int) as usize)
        } else {
            None
        }),
{
    match width.checked_mul(height) {
        Some(pixels) => pixels.checked_mul(4),
        None => {
            assert(width * height * 4 >= width * height) by (nonlinear_arith)
                requires
                    width * height >= 0,
            ;
            None
        },
    }
}

/// Completes a rescaling with the given outcome: on success the red and blue channels of `dst`
/// change places, on failure `dst` stays as it is and the error names the step that failed.
pub fn finish_resample(outcome: Result<(), ResampleFailure>, dst: &mut [u8]) -> (r: Result<
    (),
    &'static str,
>)
    ensures
        outcome is Ok ==> r is Ok && final(dst)@ == swapped(old(dst)@),
        outcome matches Err(failure) ==> {
            &&& r matches Err(message)
            &&& message@ == failure_message(failure)
            &&& final(dst)@ == old(dst)@
        },
{
    match outcome {
        Ok(()) => {
            swap_red_blue(dst);
            Ok(())
        },
        Err(ResampleFailure::Setup) => Err("Failed to initialize resizer"),
        Err(ResampleFailure::Run) => Err("Resizing failed"),
    }
}

/// The error text for a rescaling that failed.
pub open spec fn failure_message(failure: ResampleFailure) -> Seq<char> {
    match failure {
        ResampleFailure::Setup => "Failed to initialize resizer"@,
        ResampleFailure::Run => "Resizing failed"@,
    }
}

/// The reason for which a conversion is refused before any pixel is read, if there is one: a size
/// that is zero, then a size that cannot be addressed, then a buffer of another length than its
/// size asks for; the source comes before the destination.
pub open spec fn rejection(
    src_len: int,
    src_w: int,
    src_h: int,
    dst_len: int,
    dst_w: int,
    dst_h: int,
) -> Option<Seq<char>> {
    if src_w == 0 || src_h == 0 || dst_w == 0 || dst_h == 0 {
        Some("Dimensions cannot be zero"@)
    } else if image_bytes(src_w, src_h) > usize::MAX {
        Some("Overflow calculating source buffer size"@)
    } else if image_bytes(dst_w, dst_h) > usize::MAX {
        Some("Overflow calculating destination buffer size"@)
    } else if src_len != image_bytes(src_w, src_h) {
        Some("Source buffer size does not match dimensions"@)
    } else if dst_len != image_bytes(dst_w, dst_h) {
        Some("Destination buffer size does not match dimensions"@)
    } else {
        None
    }
}

/// Whether a conversion is accepted and its two sizes differ.
pub open spec fn rescales(
    src_len: int,
    src_w: int,
    src_h: int,
    dst_len: int,
    dst_w: int,
    dst_h: int,
) -> bool {
    &&& rejection(src_len, src_w, src_h, dst_len, dst_w, dst_h) is None
    &&& !(src_w == dst_w && src_h == dst_h)
}

/// What a conversion of `src` into a buffer that held `before` may come to: the result `r`, with
/// `after` in the buffer. A rescaled image is the same whether red and blue have been exchanged
/// after the rescaling or before it. Where an accepted conversion fails, the rescaling of this very
/// image to this very size has been run and has failed.
pub open spec fn converted(
    src: Seq<u8>,
    src_w: int,
    src_h: int,
    before: Seq<u8>,
    dst_w: int,
    dst_h: int,
    after: Seq<u8>,
    r: Result<(), &'static str>,
) -> bool {
    &&& after.len() == before.len()
    &&& match rejection(src.len() as int, src_w, src_h, before.len() as int, dst_w, dst_h) {
        Some(reason) => (r matches Err(message) && message@ == reason) && after == before,
        None => if src_w == dst_w && src_h == dst_h {
            r is Ok && after == swapped(src)
        } else {
            match r {
                Ok(()) => {
                    &&& after == swapped(resampled(src, src_w, src_h, dst_w, dst_h))
                    &&& after == resampled(swapped(src), src_w, src_h, dst_w, dst_h)
                },
                Err(message) => {
                    &&& after == before
                    &&& exists|failure: ResampleFailure|
                        message@ == failure_message(failure) && #[trigger] rescaling_failed(
                            src,
                            src_w,
                            src_h,
                            dst_w,
                            dst_h,
                            failure,
                        )
                },
            }
        },
    }
}

/// Exchanging the red and blue channels twice gives back the buffer.
pub proof fn swapping_twice_restores(s: Seq<u8>)
    ensures
        swapped(swapped(s)) == s,
{
    let n = s.len() as int;
    assert forall|i: int| 0 <= i < n implies #[trigger] swapped(swapped(s))[i] == s[i] by {
        let j = swap_index(n, i);
        assert(0 <= j < n && swap_index(n, j) == i);
    }
    assert(swapped(swapped(s)) =~= s);
}

/// Exchanging the red and blue channels leaves green and alpha where they are.
pub proof fn swapping_keeps_green_and_alpha(s: Seq<u8>, pixel: int)
    requires
        0 <= pixel,
        pixel * 4 + 3 < s.len(),
    ensures
        swapped(s)[pixel * 4] == s[pixel * 4 + 2],
        swapped(s)[pixel * 4 + 1] == s[pixel * 4 + 1],
        swapped(s)[pixel * 4 + 2] == s[pixel * 4],
        swapped(s)[pixel * 4 + 3] == s[pixel * 4 + 3],
{
}

/// The bytes behind the last whole pixel stay where they are, and no byte is lost or added.
pub proof fn swapping_keeps_an_incomplete_pixel(s: Seq<u8>, i: int)
    requires
        0 <= i < s.len(),
        s.len() - s.len() % 4 <= i,
    ensures
        swapped(s).len() == s.len(),
        swapped(s)[i] == s[i],
{
}

/// What a successful conversion has written, pixel by pixel: the pixel of the source, or of the
/// rescaled source where the sizes differ, with its first and third byte exchanged and its second
/// and fourth kept.
pub proof fn conversion_exchanges_red_and_blue(
    src: Seq<u8>,
    src_w: int,
    src_h: int,
    before: Seq<u8>,
    dst_w: int,
    dst_h: int,
    after: Seq<u8>,
    r: Result<(), &'static str>,
    p: int,
)
    requires
        converted(src, src_w, src_h, before, dst_w, dst_h, after, r),
        r is Ok,
        0 <= p,
        4 * p + 3 < before.len(),
    ensures
        after.len() == before.len(),
        src_w == dst_w && src_h == dst_h ==> {
            &&& after[4 * p] == src[4 * p + 2]
            &&& after[4 * p + 1] == src[4 * p + 1]
            &&& after[4 * p + 2] == src[4 * p]
            &&& after[4 * p + 3] == src[4 * p + 3]
        },
        !(src_w == dst_w && src_h == dst_h) ==> {
            let scaled = resampled(src, src_w, src_h, dst_w, dst_h);
            &&& scaled.len() == before.len()
            &&& after[4 * p] == scaled[4 * p + 2]
            &&& after[4 * p + 1] == scaled[4 * p + 1]
            &&& after[4 * p + 2] == scaled[4 * p]
            &&& after[4 * p + 3] == scaled[4 * p + 3]
        },
{
    if src_w == dst_w && src_h == dst_h {
        swapping_keeps_green_and_alpha(src, p);
    } else {
        swapping_keeps_green_and_alpha(resampled(src, src_w, src_h, dst_w, dst_h), p);
    }
}

/// Which conversions are done: those of sizes above zero between buffers of four bytes for each
/// pixel. Among them one without a change of size always succeeds, and one with a change of size
/// fails only where the rescaling does; every other conversion is refused.
pub proof fn fitting_conversions_are_done(
    src: Seq<u8>,
    src_w: int,
    src_h: int,
    before: Seq<u8>,
    dst_w: int,
    dst_h: int,
    after: Seq<u8>,
    r: Result<(), &'static str>,
)
    requires
        converted(src, src_w, src_h, before, dst_w, dst_h, after, r),
        0 <= src_w,
        0 <= src_h,
        0 <= dst_w,
        0 <= dst_h,
        src.len() <= usize::MAX,
        before.len() <= usize::MAX,
    ensures
        ({
            let fits = 0 < src_w && 0 < src_h && 0 < dst_w && 0 < dst_h && src.len() == src_w
                * src_h * 4 && before.len() == dst_w * dst_h * 4;
            &&& r is Ok ==> fits
            &&& fits && src_w == dst_w && src_h == dst_h ==> r is Ok
            &&& fits && r is Err ==> {
                &&& !(src_w == dst_w && src_h == dst_h)
                &&& {
                    ||| r->Err_0@ == "Failed to initialize resizer"@ && rescaling_failed(
                        src,
                        src_w,
                        src_h,
                        dst_w,
                        dst_h,
                        ResampleFailure::Setup,
                    )
                    ||| r->Err_0@ == "Resizing failed"@ && rescaling_failed(
                        src,
                        src_w,
                        src_h,
                        dst_w,
                        dst_h,
                        ResampleFailure::Run,
                    )
                }
                &&& after == before
            }
            &&& !fits ==> r is Err && after == before
        }),
{
}

/// Why a conversion is refused: the first of five faults that it has.
pub proof fn refusals_name_the_first_fault(
    src: Seq<u8>,
    src_w: int,
    src_h: int,
    before: Seq<u8>,
    dst_w: int,
    dst_h: int,
    after: Seq<u8>,
    r: Result<(), &'static str>,
)
    requires
        converted(src, src_w, src_h, before, dst_w, dst_h, after, r),
    ensures
        ({
            let zero = src_w == 0 || src_h == 0 || dst_w == 0 || dst_h == 0;
            let src_over = src_w * src_h * 4 > usize::MAX;
            let dst_over = dst_w * dst_h * 4 > usize::MAX;
            let src_off = src.len() != src_w * src_h * 4;
            let dst_off = before.len() != dst_w * dst_h * 4;
            &&& zero ==> r is Err && r->Err_0@ == "Dimensions cannot be zero"@
            &&& !zero && src_over ==> r is Err && r->Err_0@
                == "Overflow calculating source buffer size"@
            &&& !zero && !src_over && dst_over ==> r is Err && r->Err_0@
                == "Overflow calculating destination buffer size"@
            &&& !zero && !src_over && !dst_over && src_off ==> r is Err && r->Err_0@
                == "Source buffer size does not match dimensions"@
            &&& !zero && !src_over && !dst_over && !src_off && dst_off ==> r is Err && r->Err_0@
                == "Destination buffer size does not match dimensions"@
        }),
{
}

/// A conversion asks for scratch room only where its buffers fit its sizes and the sizes differ, and
/// an image takes four bytes for each pixel.
pub proof fn only_a_change_of_size_takes_scratch_room(
    src_len: int,
    src_w: int,
    src_h: int,
    dst_len: int,
    dst_w: int,
    dst_h: int,
)
    ensures
        image_bytes(src_w, src_h) == src_w * src_h * 4,
        rescales(src_len, src_w, src_h, dst_len, dst_w, dst_h) ==> {
            &&& !(src_w == dst_w && src_h == dst_h)
            &&& src_len == src_w * src_h * 4
            &&& dst_len == dst_w * dst_h * 4
        },
        dst_w * src_h <= usize::MAX && dst_w * dst_w <= usize::MAX ==> scratch_fits(src_h, dst_w),
{
}

/// Each way in which a rescaling can fail has a text of its own.
pub proof fn failures_have_their_own_texts(failure: ResampleFailure)
    ensures
        failure is Setup ==> failure_message(failure) == "Failed to initialize resizer"@,
        failure is Run ==> failure_message(failure) == "Resizing failed"@,
{
}

/// A conversion that reports an error has not touched the destination.
pub proof fn failing_conversion_writes_nothing(
    src: Seq<u8>,
    src_w: int,
    src_h: int,
    before: Seq<u8>,
    dst_w: int,
    dst_h: int,
    after: Seq<u8>,
    r: Result<(), &'static str>,
)
    requires
        converted(src, src_w, src_h, before, dst_w, dst_h, after, r),
        r is Err,
    ensures
        after == before,
{
}

/// An accepted image that is converted without a change of size, and then converted once more
/// into a buffer of its own length, comes out as it went in.
pub proof fn converting_twice_restores(
    src: Seq<u8>,
    w: int,
    h: int,
    first_before: Seq<u8>,
    first_after: Seq<u8>,
    first: Result<(), &'static str>,
    second_before: Seq<u8>,
    second_after: Seq<u8>,
    second: Result<(), &'static str>,
)
    requires
        rejection(src.len() as int, w, h, first_before.len() as int, w, h) is None,
        converted(src, w, h, first_before, w, h, first_after, first),
        second_before.len() == src.len(),
        converted(first_after, w, h, second_before, w, h, second_after, second),
    ensures
        first is Ok,
        second is Ok,
        second_after == src,
{
    swapping_twice_restores(src);
}

/// An image whose red and blue have been exchanged beforehand is converted into what the image itself
/// is converted into, with red and blue exchanged: the channels are treated alike, with or without
/// a change of size.
pub proof fn conversion_treats_red_and_blue_alike(
    src: Seq<u8>,
    src_w: int,
    src_h: int,
    dst_w: int,
    dst_h: int,
    before: Seq<u8>,
    after: Seq<u8>,
    r: Result<(), &'static str>,
    exchanged_before: Seq<u8>,
    exchanged_after: Seq<u8>,
    exchanged_r: Result<(), &'static str>,
)
    requires
        converted(src, src_w, src_h, before, dst_w, dst_h, after, r),
        converted(
            swapped(src),
            src_w,
            src_h,
            exchanged_before,
            dst_w,
            dst_h,
            exchanged_after,
            exchanged_r,
        ),
        r is Ok,
        exchanged_r is Ok,
    ensures
        exchanged_after == swapped(after),
{
}

/// With 64-bit addresses no two sizes ask for more scratch room than can be counted.
pub proof fn scratch_always_fits_64_bit_addresses(src_h: u32, dst_w: u32)
    requires
        usize::BITS == 64,
    ensures
        scratch_fits(src_h as int, dst_w as int),
{
    assert(dst_w * src_h <= u32::MAX * u32::MAX) by (nonlinear_arith)
        requires
            0 <= dst_w <= u32::MAX,
            0 <= src_h <= u32::MAX,
    ;
    assert(dst_w * dst_w <= u32::MAX * u32::MAX) by (nonlinear_arith)
        requires
            0 <= dst_w <= u32::MAX,
    ;
}

/// Whether there is room to count the scratch pixels of a rescaling of an image `src_h` pixels
/// high to one `dst_w` pixels wide.
pub fn has_scratch_room(src_h: u32, dst_w: u32) -> (r: bool)
    ensures
        r == scratch_fits(src_h as int, dst_w as int),
{
    let width: usize = dst_w as usize;
    match width.checked_mul(src_h as usize) {
        Some(_) => width.checked_mul(width).is_some(),
        None => false,
    }
}

/// Checks the sizes of a conversion and the lengths of its buffers against each other.
pub fn check_sizes(
    src_len: usize,
    src_w: u32,
    src_h: u32,
    dst_len: usize,
    dst_w: u32,
    dst_h: u32,
) -> (r: Result<(), &'static str>)
    ensures
        match rejection(
            src_len as int,
            src_w as int,
            src_h as int,
            dst_len as int,
            dst_w as int,
            dst_h as int,
        ) {
            Some(reason) => r matches Err(message) && message@ == reason,
            None => r is Ok,
        },
{
    if src_w == 0 || src_h == 0 || dst_w == 0 || dst_h == 0 {
        return Err("Dimensions cannot be zero");
    }
    let src_needed: usize = match image_len(src_w as usize, src_h as usize) {
        Some(len) => len,
        None => return Err("Overflow calculating source buffer size"),
    };
    let dst_needed: usize = match image_len(dst_w as usize, dst_h as usize) {
        Some(len) => len,
        None => return Err("Overflow calculating destination buffer size"),
    };
    if src_len != src_needed {
        return Err("Source buffer size does not match dimensions");
    }
    if dst_len != dst_needed {
        return Err("Destination buffer size does not match dimensions");
    }
    Ok(())
}

/// Resizes a 32-bit pixel buffer (RGBA/BGRA) from `(src_w, src_h)` to `(dst_w, dst_h)`,
/// and swaps the red and blue channels (RGBA <-> BGRA).
///
/// Where the sizes agree the pixels are copied and the call cannot fail; a rescaling can still run
/// out of memory. Whatever the error, `dst` is left as it was.
pub fn resize_and_convert(
    src: &[u8],
    src_w: u32,
    src_h: u32,
    dst: &mut [u8],
    dst_w: u32,
    dst_h: u32,
) -> (r: Result<(), &'static str>)
    requires
        rescales(
            src@.len() as int,
            src_w as int,
            src_h as int,
            old(dst)@.len() as int,
            dst_w as int,
            dst_h as int,
        ) ==> scratch_fits(src_h as int, dst_w as int),
    ensures
        converted(
            src@,
            src_w as int,
            src_h as int,
            old(dst)@,
            dst_w as int,
            dst_h as int,
            final(dst)@,
            r,
        ),
{
    match check_sizes(src.len(), src_w, src_h, dst.len(), dst_w, dst_h) {
        Ok(()) => {},
        Err(reason) => return Err(reason),
    }
    if src_w == dst_w && src_h == dst_h {
        copy_swapped(src, dst);
        Ok(())
    } else {
        let outcome = rescale(src, src_w, src_h, dst, dst_w, dst_h);
        finish_resample(outcome, dst)
    }
}

/// What exchanging red and blue in place does to each byte: the first and third of every whole pixel
/// change places, all others stay.
pub proof fn exchange_in_place_moves_two_bytes(pixels: &mut [u8], p: int, i: int)
    requires
        call_ensures(swap_red_blue, (pixels,), ()),
        0 <= p,
        0 <= i < 4,
        4 * p + i < old(pixels)@.len(),
    ensures
        final(pixels)@.len() == old(pixels)@.len(),
        4 * p + 3 < old(pixels)@.len() ==> {
            &&& final(pixels)@[4 * p] == old(pixels)@[4 * p + 2]
            &&& final(pixels)@[4 * p + 1] == old(pixels)@[4 * p + 1]
            &&& final(pixels)@[4 * p + 2] == old(pixels)@[4 * p]
            &&& final(pixels)@[4 * p + 3] == old(pixels)@[4 * p + 3]
        },
        4 * p + 3 >= old(pixels)@.len() ==> final(pixels)@[4 * p + i] == old(pixels)@[4 * p + i],
{
}

/// What copying with red and blue exchanged leaves in each pixel.
pub proof fn exchanging_copy_moves_two_bytes(src: &[u8], dst: &mut [u8], p: int)
    requires
        call_ensures(copy_swapped, (src, dst), ()),
        0 <= p,
        4 * p + 3 < src@.len(),
    ensures
        final(dst)@.len() == src@.len(),
        final(dst)@[4 * p] == src@[4 * p + 2],
        final(dst)@[4 * p + 1] == src@[4 * p + 1],
        final(dst)@[4 * p + 2] == src@[4 * p],
        final(dst)@[4 * p + 3] == src@[4 * p + 3],
{
    swapping_keeps_green_and_alpha(src@, p);
}

/// The length of an image is four bytes for each pixel, and is not given where it cannot be.
pub proof fn image_length_is_four_bytes_a_pixel(width: usize, height: usize, r: Option<usize>)
    requires
        call_ensures(image_len, (width, height), r),
    ensures
        r is Some <==> width * height * 4 <= usize::MAX,
        r matches Some(len) ==> len == width * height * 4,
{
}

/// There is scratch room for a rescaling if and only if both of its products can be counted.
pub proof fn scratch_room_is_for_two_products(src_h: u32, dst_w: u32, r: bool)
    requires
        call_ensures(has_scratch_room, (src_h, dst_w), r),
    ensures
        r <==> dst_w * src_h <= usize::MAX && dst_w * dst_w <= usize::MAX,
{
}

/// How a rescaling is completed: a successful one gets red and blue exchanged in each pixel, a failed
/// one is told by the step that failed and left alone.
pub proof fn completed_rescaling_is_exchanged(
    outcome: Result<(), ResampleFailure>,
    dst: &mut [u8],
    r: Result<(), &'static str>,
    p: int,
)
    requires
        call_ensures(finish_resample, (outcome, dst), r),
    ensures
        final(dst)@.len() == old(dst)@.len(),
        r is Ok <==> outcome is Ok,
        r is Ok && 0 <= p && 4 * p + 3 < old(dst)@.len() ==> {
            &&& final(dst)@[4 * p] == old(dst)@[4 * p + 2]
            &&& final(dst)@[4 * p + 1] == old(dst)@[4 * p + 1]
            &&& final(dst)@[4 * p + 2] == old(dst)@[4 * p]
            &&& final(dst)@[4 * p + 3] == old(dst)@[4 * p + 3]
        },
        r is Err ==> final(dst)@ == old(dst)@,
        outcome == Err::<(), ResampleFailure>(ResampleFailure::Setup) ==> r->Err_0@
            == "Failed to initialize resizer"@,
        outcome == Err::<(), ResampleFailure>(ResampleFailure::Run) ==> r->Err_0@
            == "Resizing failed"@,
{
}

/// Sizes and lengths pass the check if and only if no size is zero and both buffers have four bytes
/// for each pixel; else the first of five faults is named.
pub proof fn size_check_names_the_first_fault(
    src_len: usize,
    src_w: u32,
    src_h: u32,
    dst_len: usize,
    dst_w: u32,
    dst_h: u32,
    r: Result<(), &'static str>,
)
    requires
        call_ensures(check_sizes, (src_len, src_w, src_h, dst_len, dst_w, dst_h), r),
    ensures
        ({
            let zero = src_w == 0 || src_h == 0 || dst_w == 0 || dst_h == 0;
            let src_over = src_w * src_h * 4 > usize::MAX;
            let dst_over = dst_w * dst_h * 4 > usize::MAX;
            let src_off = src_len != src_w * src_h * 4;
            let dst_off = dst_len != dst_w * dst_h * 4;
            &&& r is Ok <==> !zero && !src_off && !dst_off
            &&& zero ==> r is Err && r->Err_0@ == "Dimensions cannot be zero"@
            &&& !zero && src_over ==> r is Err && r->Err_0@
                == "Overflow calculating source buffer size"@
            &&& !zero && !src_over && dst_over ==> r is Err && r->Err_0@
                == "Overflow calculating destination buffer size"@
            &&& !zero && !src_over && !dst_over && src_off ==> r is Err && r->Err_0@
                == "Source buffer size does not match dimensions"@
            &&& !zero && !src_over && !dst_over && !src_off && dst_off ==> r is Err && r->Err_0@
                == "Destination buffer size does not match dimensions"@
        }),
{
}

/// What a call for a conversion comes to. It is refused for the first fault in its sizes, if there is
/// one. Without a change of size it then succeeds, with one it fails only where the rescaling of
/// this very image has failed. On success each pixel is that of the image, or of the rescaled
/// image, with its first and third byte exchanged; on failure nothing has been written.
pub proof fn conversion_resizes_and_exchanges(
    src: &[u8],
    src_w: u32,
    src_h: u32,
    dst: &mut [u8],
    dst_w: u32,
    dst_h: u32,
    r: Result<(), &'static str>,
    p: int,
)
    requires
        call_ensures(resize_and_convert, (src, src_w, src_h, dst, dst_w, dst_h), r),
        src@.len() <= usize::MAX,
        old(dst)@.len() <= usize::MAX,
    ensures
        final(dst)@.len() == old(dst)@.len(),
        r is Err ==> final(dst)@ == old(dst)@,
        ({
            let zero = src_w == 0 || src_h == 0 || dst_w == 0 || dst_h == 0;
            let src_over = src_w * src_h * 4 > usize::MAX;
            let dst_over = dst_w * dst_h * 4 > usize::MAX;
            let src_off = src@.len() != src_w * src_h * 4;
            let dst_off = old(dst)@.len() != dst_w * dst_h * 4;
            let fits = !zero && !src_off && !dst_off;
            let same_size = src_w == dst_w && src_h == dst_h;
            let pixel = 0 <= p && 4 * p + 3 < old(dst)@.len();
            let scaled = resampled(
                src@,
                src_w as int,
                src_h as int,
                dst_w as int,
                dst_h as int,
            );
            &&& r is Ok ==> fits
            &&& fits && same_size ==> r is Ok
            &&& fits && r is Err ==> exists|failure: ResampleFailure| #[trigger]
                rescaling_failed(
                    src@,
                    src_w as int,
                    src_h as int,
                    dst_w as int,
                    dst_h as int,
                    failure,
                )
            &&& r is Ok && same_size && pixel ==> {
                &&& final(dst)@[4 * p] == src@[4 * p + 2]
                &&& final(dst)@[4 * p + 1] == src@[4 * p + 1]
                &&& final(dst)@[4 * p + 2] == src@[4 * p]
                &&& final(dst)@[4 * p + 3] == src@[4 * p + 3]
            }
            &&& r is Ok && !same_size && pixel ==> {
                &&& final(dst)@[4 * p] == scaled[4 * p + 2]
                &&& final(dst)@[4 * p + 1] == scaled[4 * p + 1]
                &&& final(dst)@[4 * p + 2] == scaled[4 * p]
                &&& final(dst)@[4 * p + 3] == scaled[4 * p + 3]
            }
            &&& zero ==> r->Err_0@ == "Dimensions cannot be zero"@
            &&& !zero && src_over ==> r->Err_0@ == "Overflow calculating source buffer size"@
            &&& !zero && !src_over && dst_over ==> r->Err_0@
                == "Overflow calculating destination buffer size"@
            &&& !zero && !src_over && !dst_over && src_off ==> r->Err_0@
                == "Source buffer size does not match dimensions"@
            &&& !zero && !src_over && !dst_over && !src_off && dst_off ==> r->Err_0@
                == "Destination buffer size does not match dimensions"@
        }),
{
    let w = src_w as int;
    let h = src_h as int;
    let after = final(dst)@;
    fitting_conversions_are_done(
        src@,
        w,
        h,
        old(dst)@,
        dst_w as int,
        dst_h as int,
        after,
        r,
    );
    if r is Ok && 0 <= p && 4 * p + 3 < old(dst)@.len() {
        conversion_exchanges_red_and_blue(
            src@,
            w,
            h,
            old(dst)@,
            dst_w as int,
            dst_h as int,
            after,
            r,
            p,
        );
    }
}

} // verus!
