//! Putting the captured pictures into the client's image, one after the other.

use crate::capture::{CaptureEvent, HookState, Phase};
use crate::hook::{MIN_HEIGHT, MIN_WIDTH};
use crate::image_proc::{
    check_sizes, conversion_exchanges_red_and_blue, converted, fitting_conversions_are_done,
    has_scratch_room, image_bytes, rejection, resampled, rescales, rescaling_failed,
    resize_and_convert, scratch_fits, ResampleFailure,
};
use crate::pw::{FrameData, FrameModel};
use vstd::prelude::*;

verus! {

/// The width and height that an image must stay below for pictures to be put into it.
pub const SIDE_LIMIT: i32 = 16384;

/// How many milliseconds to wait before looking for an image again.
pub const POLL_PAUSE_MS: u64 = 50;

/// How many milliseconds to wait between two pictures.
pub const FRAME_PAUSE_MS: u64 = 33;

/// An image of the client.
#[derive(Debug, Clone, Copy, PartialEq, Eq, Structural)]
pub struct ImageGeometry {
    /// Whether it has memory for its pixels.
    pub has_data: bool,
    pub width: i32,
    pub height: i32,
    pub bytes_per_line: i32,
}

/// Whether pictures can be put into `image`.
pub open spec fn usable(image: ImageGeometry) -> bool {
    &&& image.has_data
    &&& MIN_WIDTH <= image.width < SIDE_LIMIT
    &&& MIN_HEIGHT <= image.height < SIDE_LIMIT
}

/// What to do while there is no image yet.
#[derive(Debug, Clone, Copy, PartialEq, Eq, Structural)]
pub enum Poll {
    /// Leave: the pictures are no longer wanted.
    Leave,
    /// Look again after a pause.
    Wait,
    /// Put the pictures into this image from now on.
    Settle,
}

/// Decides what to do about the client's present image, as long as none has been settled on.
pub fn poll_image(running: bool, image: Option<ImageGeometry>) -> (r: Poll)
    ensures
        r == (if !running {
            Poll::Leave
        } else if image matches Some(image) && usable(image) {
            Poll::Settle
        } else {
            Poll::Wait
        }),
{
    if !running {
        return Poll::Leave;
    }
    match image {
        Some(image) => if image.has_data && image.width >= MIN_WIDTH as i32 && image.height
            >= MIN_HEIGHT as i32 && image.width < SIDE_LIMIT && image.height < SIDE_LIMIT {
            Poll::Settle
        } else {
            Poll::Wait
        },
        None => Poll::Wait,
    }
}

/// The pictures on their way into an image.
#[derive(Debug)]
pub struct Injector {
    width: u32,
    height: u32,
    staging: Vec<u8>,
    fresh: bool,
    injected: u64,
}

/// The contents of an [`Injector`].
pub struct InjectorModel {
    /// The size of the image in pixels.
    pub width: u32,
    pub height: u32,
    /// The bytes that go into the image next.
    pub staging: Seq<u8>,
    /// Whether they are a picture that has just been rendered.
    pub fresh: bool,
    /// How many pictures have gone into it.
    pub injected: u64,
}

impl View for Injector {
    type V = InjectorModel;

    closed spec fn view(&self) -> InjectorModel {
        InjectorModel {
            width: self.width,
            height: self.height,
            staging: self.staging@,
            fresh: self.fresh,
            injected: self.injected,
        }
    }
}

/// Whether there is room to count the scratch pixels in converting `frame` to the given width and
/// height.
pub open spec fn has_room(frame: FrameModel, dst_len: int, width: u32, height: u32) -> bool {
    rescales(
        frame.data.len() as int,
        frame.width as int,
        frame.height as int,
        dst_len,
        width as int,
        height as int,
    ) ==> scratch_fits(frame.height as int, width as int)
}

/// Whether there is room to count the scratch pixels in converting `frame` into `dst_len` bytes of
/// the given width and height.
pub fn has_room_for(frame: &FrameData, dst_len: usize, width: u32, height: u32) -> (r: bool)
    ensures
        r == has_room(frame@, dst_len as int, width, height),
{
    match check_sizes(frame.data.len(), frame.width, frame.height, dst_len, width, height) {
        Ok(()) => (frame.width == width && frame.height == height) || has_scratch_room(
            frame.height,
            width,
        ),
        Err(_) => true,
    }
}

/// What comes of converting `frame` into a buffer that held `before`: see [`converted`].
pub open spec fn frame_converted(
    frame: FrameModel,
    before: Seq<u8>,
    width: u32,
    height: u32,
    after: Seq<u8>,
    r: Result<(), &'static str>,
) -> bool {
    converted(
        frame.data,
        frame.width as int,
        frame.height as int,
        before,
        width as int,
        height as int,
        after,
        r,
    )
}

/// The contents of an optional picture.
pub open spec fn opt_frame(frame: Option<&FrameData>) -> Option<FrameModel> {
    match frame {
        Some(frame) => Some(frame@),
        None => None,
    }
}

/// What comes of rendering the latest picture, if there is one: the result `r`, with the injector
/// `before` turned into `after`.
pub open spec fn rendered(
    before: InjectorModel,
    latest: Option<FrameModel>,
    after: InjectorModel,
    r: Result<bool, &'static str>,
) -> bool {
    &&& after.width == before.width
    &&& after.height == before.height
    &&& after.injected == before.injected
    &&& after.staging.len() == before.staging.len()
    &&& after.fresh == (latest is Some && r is Ok)
    &&& match latest {
        None => r == Ok::<bool, &'static str>(false) && after.staging == before.staging,
        Some(frame) => {
            &&& r is Ok ==> r->Ok_0
            &&& frame_converted(
                frame,
                before.staging,
                before.width,
                before.height,
                after.staging,
                match r {
                    Ok(_) => Ok(()),
                    Err(message) => Err(message),
                },
            )
        },
    }
}

impl InjectorModel {
    /// Whether the bytes go into the image: they are a picture that has just been rendered, and
    /// pictures are still wanted.
    pub open spec fn writes(self, running: bool) -> bool {
        self.fresh && running
    }

    /// The injector once that has been decided.
    pub open spec fn after_commit(self, running: bool) -> InjectorModel {
        InjectorModel {
            fresh: false,
            injected: if self.writes(running) {
                (self.injected + 1) as u64
            } else {
                self.injected
            },
            ..self
        }
    }
}

/// A picture goes into the image if and only if the latest picture has been converted for it in the
/// same round and pictures are still wanted; the bytes that go in are those of this conversion.
pub proof fn only_the_picture_of_the_round_is_written(
    before: InjectorModel,
    latest: Option<FrameModel>,
    after: InjectorModel,
    r: Result<bool, &'static str>,
    running: bool,
)
    requires
        rendered(before, latest, after, r),
    ensures
        after.writes(running) <==> running && r == Ok::<bool, &'static str>(true),
        after.writes(running) ==> {
            &&& latest is Some
            &&& frame_converted(
                latest->0,
                before.staging,
                before.width,
                before.height,
                after.after_commit(running).staging,
                Ok(()),
            )
        },
{
}

/// No picture goes into the image twice: once it has been decided on, nothing does before the next
/// is rendered.
pub proof fn no_picture_is_written_twice(injector: InjectorModel, first: bool, second: bool)
    ensures
        !injector.after_commit(first).writes(second),
{
}

impl Injector {
    /// Settles on `image`, with nothing but zeros to go into it yet.
    pub fn settle(image: ImageGeometry) -> (r: Injector)
        requires
            usable(image),
            countable(image),
        ensures
            r@ == settled(image),
    {
        let len: usize = image.bytes_per_line as usize * image.height as usize;
        let staging: Vec<u8> = vec![0u8; len];
        assert(staging@ =~= Seq::new(len as nat, |i: int| 0u8));
        Injector {
            width: image.width as u32,
            height: image.height as u32,
            staging,
            fresh: false,
            injected: 0,
        }
    }

    /// Converts the latest picture, if there is one, for the image. Says whether there was; an error
    /// leaves what was there before.
    pub fn render(&mut self, latest: Option<&FrameData>) -> (r: Result<bool, &'static str>)
        requires
            latest matches Some(frame) ==> has_room(
                frame@,
                old(self)@.staging.len() as int,
                old(self)@.width,
                old(self)@.height,
            ),
        ensures
            rendered(old(self)@, opt_frame(latest), final(self)@, r),
    {
        self.fresh = false;
        match latest {
            Some(frame) => {
                let outcome = resize_and_convert(
                    frame.data.as_slice(),
                    frame.width,
                    frame.height,
                    self.staging.as_mut_slice(),
                    self.width,
                    self.height,
                );
                match outcome {
                    Ok(()) => {
                        self.fresh = true;
                        Ok(true)
                    },
                    Err(message) => Err(message),
                }
            },
            None => Ok(false),
        }
    }

    /// Decides whether the picture that has just been rendered goes into the image, and counts it
    /// if it does: only as long as the pictures are wanted, and each of them once.
    pub fn commit(&mut self, running: bool) -> (r: bool)
        requires
            old(self)@.injected < u64::MAX,
        ensures
            r == old(self)@.writes(running),
            final(self)@ == old(self)@.after_commit(running),
    {
        let writes = self.fresh && running;
        self.fresh = false;
        if writes {
            self.injected = self.injected + 1;
        }
        writes
    }

    /// The width and height of the image in pixels.
    pub fn size(&self) -> (r: (u32, u32))
        ensures
            r == (self@.width, self@.height),
    {
        (self.width, self.height)
    }

    /// The bytes that go into the image next.
    pub fn pixels(&self) -> (r: &[u8])
        ensures
            r@ == self@.staging,
    {
        self.staging.as_slice()
    }

    /// How many pictures have gone into the image.
    pub fn injected(&self) -> (r: u64)
        ensures
            r == self@.injected,
    {
        self.injected
    }
}

/// Putting pictures into the client's image, from the search for an image to the end.
#[derive(Debug)]
pub enum Injection {
    /// No image has been settled on yet.
    Seeking,
    /// Pictures go into the image that has been settled on.
    Injecting(Injector),
    /// Pictures are no longer wanted.
    Ended,
}

/// The contents of an [`Injection`].
pub enum InjectionModel {
    Seeking,
    Injecting(InjectorModel),
    Ended,
}

impl View for Injection {
    type V = InjectionModel;

    open spec fn view(&self) -> InjectionModel {
        match self {
            Injection::Seeking => InjectionModel::Seeking,
            Injection::Injecting(injector) => InjectionModel::Injecting(injector@),
            Injection::Ended => InjectionModel::Ended,
        }
    }
}

/// What an injection does next.
#[derive(Debug, Clone, Copy, PartialEq, Eq, Structural)]
pub enum InjectionStep {
    /// Pause for so many milliseconds, then look again.
    Pause(u64),
    /// Keep hold of the image that has just been looked at.
    Hold,
    /// Render the latest picture and put it into the image, then pause.
    Inject,
    /// End, and with the injection the capture and the session that it draws on.
    End,
}

impl InjectionStep {
    /// How many milliseconds to pause once this step is done.
    pub open spec fn pause(self) -> u64 {
        match self {
            InjectionStep::Pause(pause) => pause,
            InjectionStep::Inject => FRAME_PAUSE_MS,
            _ => 0,
        }
    }

    /// How many milliseconds to pause once this step is done: between two pictures, a thirtieth
    /// of a second, in whole milliseconds.
    pub fn pause_ms(self) -> (r: u64)
        ensures
            r == self.pause(),
    {
        match self {
            InjectionStep::Pause(pause) => pause,
            InjectionStep::Inject => FRAME_PAUSE_MS,
            _ => 0,
        }
    }
}

/// As long as pictures go into an image, thirty of the pauses between them fit into a second, and
/// another one does not.
pub proof fn pause_between_pictures_is_a_thirtieth_of_a_second(
    injection: InjectionModel,
    running: bool,
    image: Option<ImageGeometry>,
)
    requires
        injection.step(running, image) is Inject,
    ensures
        30 * injection.step(running, image).pause() <= 1000,
        31 * injection.step(running, image).pause() > 1000,
{
}

/// What has been settled on with `image`: nothing but zeros to go into it yet.
pub open spec fn settled(image: ImageGeometry) -> InjectorModel {
    InjectorModel {
        width: image.width as u32,
        height: image.height as u32,
        staging: Seq::new((image.bytes_per_line * image.height) as nat, |i: int| 0u8),
        fresh: false,
        injected: 0,
    }
}

/// Whether the bytes of `image` can be counted.
pub open spec fn countable(image: ImageGeometry) -> bool {
    image.bytes_per_line >= 0 && image.bytes_per_line * image.height <= usize::MAX
}

/// Whether an injection without an image settles on this one.
pub open spec fn settles(running: bool, image: Option<ImageGeometry>) -> bool {
    running && (image matches Some(image) && usable(image))
}

impl InjectionModel {
    /// The injection after it has looked whether pictures are wanted and what the client's image
    /// is.
    pub open spec fn after(self, running: bool, image: Option<ImageGeometry>) -> InjectionModel {
        if !running {
            InjectionModel::Ended
        } else if self is Seeking && settles(running, image) {
            InjectionModel::Injecting(settled(image->0))
        } else {
            self
        }
    }

    /// What it then does.
    pub open spec fn step(self, running: bool, image: Option<ImageGeometry>) -> InjectionStep {
        if !running || self is Ended {
            InjectionStep::End
        } else if self is Injecting {
            InjectionStep::Inject
        } else if settles(running, image) {
            InjectionStep::Hold
        } else {
            InjectionStep::Pause(POLL_PAUSE_MS)
        }
    }
}

impl Injection {
    /// Looks whether pictures are still wanted and, as long as no image has been settled on, at
    /// the client's present image, and decides what to do.
    pub fn advance(self, running: bool, image: Option<ImageGeometry>) -> (r: (
        Injection,
        InjectionStep,
    ))
        requires
            self@ is Seeking && settles(running, image) ==> countable(image->0),
        ensures
            r.0@ == self@.after(running, image),
            r.1 == self@.step(running, image),
    {
        match self {
            Injection::Seeking => match poll_image(running, image) {
                Poll::Leave => (Injection::Ended, InjectionStep::End),
                Poll::Wait => (Injection::Seeking, InjectionStep::Pause(POLL_PAUSE_MS)),
                Poll::Settle => match image {
                    Some(image) => {
                        let injector = Injector::settle(image);
                        (Injection::Injecting(injector), InjectionStep::Hold)
                    },
                    None => (Injection::Seeking, InjectionStep::Pause(POLL_PAUSE_MS)),
                },
            },
            Injection::Injecting(injector) => if running {
                (Injection::Injecting(injector), InjectionStep::Inject)
            } else {
                (Injection::Ended, InjectionStep::End)
            },
            Injection::Ended => (Injection::Ended, InjectionStep::End),
        }
    }

    /// Closes an injection that has ended, however far it had come: the capture and its session are
    /// let go of, for the caller to stop and to close.
    pub fn close<C, S>(self, state: &mut HookState<C, S>) -> (r: (Option<C>, Option<S>))
        requires
            self@ is Ended,
            old(state).wf(),
        ensures
            final(state).wf(),
            final(state)@ == old(state)@.after(CaptureEvent::TornDown),
            match old(state)@ {
                Phase::Capturing(capture, session) => r == (Some(capture), Some(session)),
                _ => r == (None::<C>, None::<S>),
            },
    {
        state.tear_down()
    }
}

/// A look at whether pictures are wanted, and at the client's image.
pub struct Look {
    pub running: bool,
    pub image: Option<ImageGeometry>,
}

/// The injection `start` after the given looks, in this order.
pub open spec fn after_looks(start: InjectionModel, looks: Seq<Look>) -> InjectionModel
    decreases looks.len(),
{
    if looks.len() == 0 {
        start
    } else {
        after_looks(start, looks.drop_last()).after(looks.last().running, looks.last().image)
    }
}

/// The session ends with the sharing that it served: as soon as pictures are no longer wanted,
/// whether or not an image has been found by then, the injection ends without another picture, and
/// what then closes it leaves neither a capture nor a session, so that both can be asked for anew.
pub proof fn session_ends_with_the_injection<C, S>(
    injection: InjectionModel,
    image: Option<ImageGeometry>,
    phase: Phase<C, S>,
)
    ensures
        injection.step(false, image) is End,
        injection.after(false, image) is Ended,
        phase.after(CaptureEvent::TornDown) is Idle,
{
}

/// An injection that has ended stays so, and nothing is put into an image any more.
pub proof fn ended_injection_stays_ended(looks: Seq<Look>, running: bool, image: Option<
    ImageGeometry,
>)
    ensures
        after_looks(InjectionModel::Ended, looks) is Ended,
        after_looks(InjectionModel::Ended, looks).step(running, image) is End,
    decreases looks.len(),
{
    if looks.len() > 0 {
        ended_injection_stays_ended(looks.drop_last(), running, image);
    }
}

/// Until the client has had an image that is usable, nothing is put into any.
pub proof fn nothing_is_injected_before_an_image_is_found(
    looks: Seq<Look>,
    running: bool,
    image: Option<ImageGeometry>,
)
    requires
        forall|i: int|
            0 <= i < looks.len() ==> !settles((#[trigger] looks[i]).running, looks[i].image),
    ensures
        !(after_looks(InjectionModel::Seeking, looks) is Injecting),
        !(after_looks(InjectionModel::Seeking, looks).step(running, image) is Inject),
    decreases looks.len(),
{
    if looks.len() > 0 {
        nothing_is_injected_before_an_image_is_found(looks.drop_last(), running, image);
        assert(looks[looks.len() - 1] == looks.last());
    }
}

/// What comes of filling an image of the given size that held `before` with the latest picture, if
/// there is one: the result `r`, with `after` in the image.
pub open spec fn filled(
    latest: Option<FrameModel>,
    before: Seq<u8>,
    width: u32,
    height: u32,
    after: Seq<u8>,
    r: Result<bool, &'static str>,
) -> bool {
    match latest {
        None => r == Ok::<bool, &'static str>(false) && after == before,
        Some(frame) => {
            &&& r is Ok ==> r->Ok_0
            &&& frame_converted(
                frame,
                before,
                width,
                height,
                after,
                match r {
                    Ok(_) => Ok(()),
                    Err(message) => Err(message),
                },
            )
        },
    }
}

/// Fills an image of the given size, on the spot, with the latest picture, if there is one and it
/// can be converted; else the image stays as it is. Says whether there was one.
pub fn fill_image(latest: Option<&FrameData>, dst: &mut [u8], width: u32, height: u32) -> (r:
    Result<bool, &'static str>)
    requires
        latest matches Some(frame) ==> has_room(frame@, old(dst)@.len() as int, width, height),
    ensures
        final(dst)@.len() == old(dst)@.len(),
        filled(opt_frame(latest), old(dst)@, width, height, final(dst)@, r),
{
    match latest {
        Some(frame) => {
            let outcome = resize_and_convert(
                frame.data.as_slice(),
                frame.width,
                frame.height,
                dst,
                width,
                height,
            );
            match outcome {
                Ok(()) => Ok(true),
                Err(message) => Err(message),
            }
        },
        None => Ok(false),
    }
}

/// Nothing is ever put into an image that keeps room between its lines: every conversion for it
/// is refused, and the bytes stay as they were.
pub proof fn padded_image_is_left_alone(
    image: ImageGeometry,
    frame: FrameModel,
    before: Seq<u8>,
    after: Seq<u8>,
    r: Result<(), &'static str>,
)
    requires
        usable(image),
        image.bytes_per_line != image.width * 4,
        before.len() == image.bytes_per_line * image.height,
        frame_converted(frame, before, image.width as u32, image.height as u32, after, r),
    ensures
        r is Err,
        after == before,
{
    let stride = image.bytes_per_line as int;
    let packed = image.width * 4;
    let height = image.height as int;
    assert(stride * height != packed * height) by (nonlinear_arith)
        requires
            stride != packed,
            height > 0,
    ;
    assert(packed * height == image_bytes(image.width as int, height)) by (nonlinear_arith)
        requires
            packed == image.width * 4,
            image_bytes(image.width as int, height) == image.width * height * 4,
    ;
}

/// A picture of any size above zero without gaps between its lines is accepted for a usable image
/// without gaps between its own.
pub proof fn packed_image_takes_whole_pictures(image: ImageGeometry, frame: FrameModel)
    requires
        usable(image),
        image.bytes_per_line == image.width * 4,
        image.bytes_per_line * image.height <= usize::MAX,
        frame.width > 0,
        frame.height > 0,
        frame.data.len() == image_bytes(frame.width as int, frame.height as int),
        frame.data.len() <= usize::MAX,
    ensures
        rejection(
            frame.data.len() as int,
            frame.width as int,
            frame.height as int,
            image.bytes_per_line * image.height,
            image.width as int,
            image.height as int,
        ) is None,
{
    let height = image.height as int;
    assert(image.bytes_per_line * height == image_bytes(image.width as int, height))
        by (nonlinear_arith)
        requires
            image.bytes_per_line == image.width * 4,
            image_bytes(image.width as int, height) == image.width * height * 4,
    ;
}

/// Pictures can be put into an image that has memory and is from 640 by 480 to less than 16384 by
/// 16384 pixels large, and into no other; it can be settled on where its bytes can be counted.
pub proof fn usable_images_are_neither_small_nor_huge(image: ImageGeometry)
    ensures
        usable(image) <==> image.has_data && 640 <= image.width && image.width < 16384 && 480
            <= image.height && image.height < 16384,
        0 <= image.bytes_per_line && image.bytes_per_line * image.height <= usize::MAX
            ==> countable(image),
{
}

/// What is settled on has the width and the height of the image, a zero for each of its bytes, no
/// picture to go in yet and none that has.
pub proof fn settling_takes_the_size_of_the_image(image: ImageGeometry, i: int)
    requires
        0 <= image.width,
        0 <= image.height,
        0 <= image.bytes_per_line,
    ensures
        settled(image).width == image.width,
        settled(image).height == image.height,
        settled(image).staging.len() == image.bytes_per_line * image.height,
        0 <= i < settled(image).staging.len() ==> settled(image).staging[i] == 0,
        !settled(image).fresh,
        settled(image).injected == 0,
{
    assert(0 <= image.bytes_per_line * image.height) by (nonlinear_arith)
        requires
            0 <= image.bytes_per_line,
            0 <= image.height,
    ;
}

/// While pictures are wanted and no image has been found, the first usable image is settled on at
/// once, with its own size; any other is passed over, and looked for again twenty times a second.
pub proof fn first_usable_image_is_settled_on(image: Option<ImageGeometry>)
    ensures
        ({
            let next = InjectionModel::Seeking.after(true, image);
            let step = InjectionModel::Seeking.step(true, image);
            if image matches Some(image) && image.has_data && 640 <= image.width && image.width
                < 16384 && 480 <= image.height && image.height < 16384 {
                &&& step is Hold
                &&& next matches InjectionModel::Injecting(injector)
                &&& injector.width == image->0.width
                &&& injector.height == image->0.height
                &&& injector == settled(image->0)
            } else {
                &&& step matches InjectionStep::Pause(pause)
                &&& 20 * pause == 1000
                &&& next is Seeking
            }
        }),
{
}

/// While pictures are wanted, an injection that has an image keeps it, whatever the client's image is
/// by then, and goes on putting pictures into it.
pub proof fn injection_keeps_its_image(injector: InjectorModel, image: Option<ImageGeometry>)
    ensures
        InjectionModel::Injecting(injector).after(true, image) == InjectionModel::Injecting(injector),
        InjectionModel::Injecting(injector).step(true, image) is Inject,
{
}

/// Only a pause and a picture take time; the pause is as long as it says.
pub proof fn steps_pause_as_long_as_they_say(step: InjectionStep)
    ensures
        step matches InjectionStep::Pause(pause) ==> step.pause() == pause,
        step is Hold || step is End ==> step.pause() == 0,
{
}

/// The contents of an injection are those of its injector, where it has one; those of an optional
/// picture are the picture's.
pub proof fn injection_contents_are_its_injector(injector: Injector, frame: &FrameData)
    ensures
        Injection::Seeking@ is Seeking,
        Injection::Ended@ is Ended,
        Injection::Injecting(injector)@ == InjectionModel::Injecting(injector@),
        opt_frame(Some(frame)) == Some(frame@),
        opt_frame(None) is None,
{
}

/// Without a picture nothing is rendered, and nothing goes into the image.
pub proof fn nothing_is_rendered_without_a_picture(
    before: InjectorModel,
    after: InjectorModel,
    r: Result<bool, &'static str>,
)
    requires
        rendered(before, None, after, r),
    ensures
        r == Ok::<bool, &'static str>(false),
        after == (InjectorModel { fresh: false, ..before }),
{
}

/// What rendering a picture comes to, pixel by pixel. A picture and an image of four bytes for each
/// pixel, both of a size above zero, are converted: without a change of size this always succeeds,
/// with one it fails only where the rescaling of this picture to this image has failed. What is
/// written has the first and third byte of each pixel exchanged. Everything else is refused, and
/// nothing is written then.
pub proof fn rendering_converts_the_picture(
    before: InjectorModel,
    frame: FrameModel,
    after: InjectorModel,
    r: Result<bool, &'static str>,
    p: int,
)
    requires
        rendered(before, Some(frame), after, r),
        frame.data.len() <= usize::MAX,
        before.staging.len() <= usize::MAX,
    ensures
        after.width == before.width,
        after.height == before.height,
        after.injected == before.injected,
        after.staging.len() == before.staging.len(),
        after.fresh <==> r is Ok,
        r is Ok ==> r->Ok_0,
        r is Err ==> after.staging == before.staging,
        ({
            let fits = frame.width > 0 && frame.height > 0 && before.width > 0 && before.height > 0
                && frame.data.len() == frame.width * frame.height * 4 && before.staging.len()
                == before.width * before.height * 4;
            let same_size = frame.width == before.width && frame.height == before.height;
            let pixel = 0 <= p && 4 * p + 3 < before.staging.len();
            let scaled = resampled(
                frame.data,
                frame.width as int,
                frame.height as int,
                before.width as int,
                before.height as int,
            );
            &&& !fits ==> r is Err
            &&& fits && same_size ==> r is Ok
            &&& r is Ok && same_size && pixel ==> {
                &&& after.staging[4 * p] == frame.data[4 * p + 2]
                &&& after.staging[4 * p + 1] == frame.data[4 * p + 1]
                &&& after.staging[4 * p + 2] == frame.data[4 * p]
                &&& after.staging[4 * p + 3] == frame.data[4 * p + 3]
            }
            &&& r is Ok && !same_size && pixel ==> {
                &&& after.staging[4 * p] == scaled[4 * p + 2]
                &&& after.staging[4 * p + 1] == scaled[4 * p + 1]
                &&& after.staging[4 * p + 2] == scaled[4 * p]
                &&& after.staging[4 * p + 3] == scaled[4 * p + 3]
            }
            &&& fits && r is Err ==> exists|failure: ResampleFailure| #[trigger]
                rescaling_failed(
                    frame.data,
                    frame.width as int,
                    frame.height as int,
                    before.width as int,
                    before.height as int,
                    failure,
                )
        }),
{
    let outcome: Result<(), &'static str> = match r {
        Ok(_) => Ok(()),
        Err(message) => Err(message),
    };
    fitting_conversions_are_done(
        frame.data,
        frame.width as int,
        frame.height as int,
        before.staging,
        before.width as int,
        before.height as int,
        after.staging,
        outcome,
    );
    if r is Ok && 0 <= p && 4 * p + 3 < before.staging.len() {
        conversion_exchanges_red_and_blue(
            frame.data,
            frame.width as int,
            frame.height as int,
            before.staging,
            before.width as int,
            before.height as int,
            after.staging,
            outcome,
            p,
        );
    }
}

/// The first picture for an image without gaps between its lines is never refused for its size: a
/// whole picture of the image's own size is put in, and one of another size is, unless its
/// rescaling fails.
pub proof fn settled_image_takes_whole_pictures(
    image: ImageGeometry,
    frame: FrameModel,
    after: InjectorModel,
    r: Result<bool, &'static str>,
)
    requires
        image.has_data,
        640 <= image.width < 16384,
        480 <= image.height < 16384,
        image.bytes_per_line == image.width * 4,
        image.bytes_per_line * image.height <= usize::MAX,
        frame.width > 0,
        frame.height > 0,
        frame.data.len() == frame.width * frame.height * 4,
        frame.data.len() <= usize::MAX,
        rendered(settled(image), Some(frame), after, r),
    ensures
        frame.width == image.width && frame.height == image.height ==> r == Ok::<
            bool,
            &'static str,
        >(true),
        r is Err ==> exists|failure: ResampleFailure| #[trigger]
            rescaling_failed(
                frame.data,
                frame.width as int,
                frame.height as int,
                image.width as int,
                image.height as int,
                failure,
            ),
{
    let width = image.width as int;
    let height = image.height as int;
    assert(image.bytes_per_line * height == width * height * 4) by (nonlinear_arith)
        requires
            image.bytes_per_line == width * 4,
    ;
    rendering_converts_the_picture(settled(image), frame, after, r, 0);
}

/// A picture that has just been rendered counts as put into the image once, as long as pictures are
/// wanted; deciding on it changes neither the size nor the bytes.
pub proof fn each_written_picture_counts_once(injector: InjectorModel, running: bool)
    requires
        injector.injected < u64::MAX,
    ensures
        ({
            let next = injector.after_commit(running);
            &&& injector.writes(running) <==> injector.fresh && running
            &&& injector.fresh && running ==> next.injected == injector.injected + 1
            &&& !(injector.fresh && running) ==> next.injected == injector.injected
            &&& !next.fresh
            &&& next.width == injector.width
            &&& next.height == injector.height
            &&& next.staging == injector.staging
        }),
{
}

/// Room is lacking only where the scratch pixels of a rescaling cannot be counted.
pub proof fn room_is_for_the_scratch_pixels(
    frame: FrameModel,
    dst_len: int,
    width: u32,
    height: u32,
)
    requires
        frame.data.len() <= usize::MAX,
        0 <= dst_len <= usize::MAX,
    ensures
        ({
            let countable_scratch = width * frame.height <= usize::MAX && width * width
                <= usize::MAX;
            let rescaling = frame.width > 0 && frame.height > 0 && width > 0 && height > 0
                && frame.data.len() == frame.width * frame.height * 4 && dst_len == width * height
                * 4 && !(frame.width == width && frame.height == height);
            has_room(frame, dst_len, width, height) <==> (rescaling ==> countable_scratch)
        }),
{
}

/// What filling an image on the spot comes to, pixel by pixel: the image is left alone where there is
/// no picture or its conversion is refused or fails; else it gets the picture, rescaled to the
/// image where the sizes differ, with the first and third byte of each pixel exchanged. A
/// conversion between fitting sizes fails only where the rescaling of this picture to this image
/// has failed.
pub proof fn filled_image_shows_the_picture(
    latest: Option<FrameModel>,
    before: Seq<u8>,
    width: u32,
    height: u32,
    after: Seq<u8>,
    r: Result<bool, &'static str>,
    p: int,
)
    requires
        filled(latest, before, width, height, after, r),
        latest matches Some(frame) ==> frame.data.len() <= usize::MAX,
        before.len() <= usize::MAX,
    ensures
        after.len() == before.len(),
        latest is None ==> r == Ok::<bool, &'static str>(false) && after == before,
        r is Err ==> after == before,
        latest matches Some(frame) ==> {
            let fits = frame.width > 0 && frame.height > 0 && width > 0 && height > 0
                && frame.data.len() == frame.width * frame.height * 4 && before.len() == width
                * height * 4;
            let same_size = frame.width == width && frame.height == height;
            let pixel = 0 <= p && 4 * p + 3 < before.len();
            let scaled = resampled(
                frame.data,
                frame.width as int,
                frame.height as int,
                width as int,
                height as int,
            );
            &&& r is Ok ==> r->Ok_0
            &&& !fits ==> r is Err
            &&& fits && same_size ==> r is Ok
            &&& r is Ok && same_size && pixel ==> {
                &&& after[4 * p] == frame.data[4 * p + 2]
                &&& after[4 * p + 1] == frame.data[4 * p + 1]
                &&& after[4 * p + 2] == frame.data[4 * p]
                &&& after[4 * p + 3] == frame.data[4 * p + 3]
            }
            &&& r is Ok && !same_size && pixel ==> {
                &&& after[4 * p] == scaled[4 * p + 2]
                &&& after[4 * p + 1] == scaled[4 * p + 1]
                &&& after[4 * p + 2] == scaled[4 * p]
                &&& after[4 * p + 3] == scaled[4 * p + 3]
            }
            &&& fits && r is Err ==> exists|failure: ResampleFailure| #[trigger]
                rescaling_failed(
                    frame.data,
                    frame.width as int,
                    frame.height as int,
                    width as int,
                    height as int,
                    failure,
                )
        },
{
    if let Some(frame) = latest {
        let outcome: Result<(), &'static str> = match r {
            Ok(_) => Ok(()),
            Err(message) => Err(message),
        };
        fitting_conversions_are_done(
            frame.data,
            frame.width as int,
            frame.height as int,
            before,
            width as int,
            height as int,
            after,
            outcome,
        );
        if r is Ok && 0 <= p && 4 * p + 3 < before.len() {
            conversion_exchanges_red_and_blue(
                frame.data,
                frame.width as int,
                frame.height as int,
                before,
                width as int,
                height as int,
                after,
                outcome,
                p,
            );
        }
    }
}

/// What to do about an image, as long as none has been settled on: leave once pictures are no longer
/// wanted, settle on a usable image, wait for one else.
pub proof fn usable_image_is_settled_on(running: bool, image: Option<ImageGeometry>, r: Poll)
    requires
        call_ensures(poll_image, (running, image), r),
    ensures
        r is Leave <==> !running,
        r is Settle <==> running && (image matches Some(image) && image.has_data && 640
            <= image.width && image.width < 16384 && 480 <= image.height && image.height < 16384),
{
}

/// An injector that has just settled on an image has the image's width and height, a zero for each of
/// its bytes, and has put nothing in.
pub proof fn new_injector_has_the_size_of_the_image(
    image: ImageGeometry,
    injector: Injector,
    size: (u32, u32),
    pixels: &[u8],
    injected: u64,
    i: int,
)
    requires
        0 <= image.width,
        0 <= image.height,
        0 <= image.bytes_per_line,
        call_ensures(Injector::settle, (image,), injector),
        call_ensures(Injector::size, (&injector,), size),
        call_ensures(Injector::pixels, (&injector,), pixels),
        call_ensures(Injector::injected, (&injector,), injected),
    ensures
        size.0 == image.width,
        size.1 == image.height,
        pixels@.len() == image.bytes_per_line * image.height,
        0 <= i < pixels@.len() ==> pixels@[i] == 0,
        injected == 0,
{
    settling_takes_the_size_of_the_image(image, i);
}

/// What a round comes to, in calls: rendering a picture and then deciding on it. Between a picture and
/// an image of four bytes for each pixel, both of a size above zero, the picture is converted:
/// without a change of size this always succeeds, with one it fails only where the rescaling of
/// this picture to this image has failed. The bytes are then the picture's, or the rescaled
/// picture's, with the first and third of each pixel exchanged. They go in, and are counted, if
/// and only if the conversion has succeeded and pictures are still wanted. A conversion that does
/// not succeed leaves the bytes alone, and so does a round without a picture.
pub proof fn round_puts_in_the_converted_picture(
    rendering: &mut Injector,
    size: (u32, u32),
    earlier: &[u8],
    count: u64,
    latest: Option<&FrameData>,
    r: Result<bool, &'static str>,
    deciding: &mut Injector,
    running: bool,
    writes: bool,
    size_after: (u32, u32),
    later: &[u8],
    count_after: u64,
    p: int,
)
    requires
        call_ensures(Injector::size, (&*old(rendering),), size),
        call_ensures(Injector::pixels, (&*old(rendering),), earlier),
        call_ensures(Injector::injected, (&*old(rendering),), count),
        call_ensures(Injector::render, (rendering, latest), r),
        *old(deciding) == *final(rendering),
        call_ensures(Injector::commit, (deciding, running), writes),
        call_ensures(Injector::size, (&*final(deciding),), size_after),
        call_ensures(Injector::pixels, (&*final(deciding),), later),
        call_ensures(Injector::injected, (&*final(deciding),), count_after),
        count < u64::MAX,
        earlier@.len() <= usize::MAX,
        latest matches Some(frame) ==> frame.data@.len() <= usize::MAX,
    ensures
        size_after == size,
        later@.len() == earlier@.len(),
        writes <==> running && latest is Some && r is Ok,
        writes ==> count_after == count + 1,
        !writes ==> count_after == count,
        latest is None ==> r == Ok::<bool, &'static str>(false),
        latest is None || r is Err ==> later@ == earlier@,
        latest matches Some(frame) ==> {
            let fits = frame.width > 0 && frame.height > 0 && size.0 > 0 && size.1 > 0
                && frame.data@.len() == frame.width * frame.height * 4 && earlier@.len() == size.0
                * size.1 * 4;
            let same_size = frame.width == size.0 && frame.height == size.1;
            let pixel = 0 <= p && 4 * p + 3 < earlier@.len();
            let scaled = resampled(
                frame.data@,
                frame.width as int,
                frame.height as int,
                size.0 as int,
                size.1 as int,
            );
            &&& r is Ok ==> r->Ok_0
            &&& !fits ==> r is Err
            &&& fits && same_size ==> r is Ok
            &&& r is Ok && same_size && pixel ==> {
                &&& later@[4 * p] == frame.data@[4 * p + 2]
                &&& later@[4 * p + 1] == frame.data@[4 * p + 1]
                &&& later@[4 * p + 2] == frame.data@[4 * p]
                &&& later@[4 * p + 3] == frame.data@[4 * p + 3]
            }
            &&& r is Ok && !same_size && pixel ==> {
                &&& later@[4 * p] == scaled[4 * p + 2]
                &&& later@[4 * p + 1] == scaled[4 * p + 1]
                &&& later@[4 * p + 2] == scaled[4 * p]
                &&& later@[4 * p + 3] == scaled[4 * p + 3]
            }
            &&& fits && r is Err ==> exists|failure: ResampleFailure| #[trigger]
                rescaling_failed(
                    frame.data@,
                    frame.width as int,
                    frame.height as int,
                    size.0 as int,
                    size.1 as int,
                    failure,
                )
        },
{
    if let Some(frame) = latest {
        rendering_converts_the_picture(old(rendering)@, frame@, final(rendering)@, r, p);
    }
}

/// Deciding twice on one picture puts it in no more than once.
pub proof fn second_decision_puts_nothing_in(
    first: &mut Injector,
    running: bool,
    writes: bool,
    second: &mut Injector,
    still_running: bool,
    writes_again: bool,
)
    requires
        call_ensures(Injector::commit, (first, running), writes),
        *old(second) == *final(first),
        call_ensures(Injector::commit, (second, still_running), writes_again),
    ensures
        !writes_again,
{
}

/// What filling an image on the spot comes to, in a call: see the round of an injection; the image is
/// left alone where there is no picture, or its conversion is refused or fails.
pub proof fn filling_puts_in_the_converted_picture(
    latest: Option<&FrameData>,
    dst: &mut [u8],
    width: u32,
    height: u32,
    r: Result<bool, &'static str>,
    p: int,
)
    requires
        call_ensures(fill_image, (latest, dst, width, height), r),
        old(dst)@.len() <= usize::MAX,
        latest matches Some(frame) ==> frame.data@.len() <= usize::MAX,
    ensures
        final(dst)@.len() == old(dst)@.len(),
        latest is None ==> r == Ok::<bool, &'static str>(false),
        latest is None || r is Err ==> final(dst)@ == old(dst)@,
        latest matches Some(frame) ==> {
            let fits = frame.width > 0 && frame.height > 0 && width > 0 && height > 0
                && frame.data@.len() == frame.width * frame.height * 4 && old(dst)@.len() == width
                * height * 4;
            let same_size = frame.width == width && frame.height == height;
            let pixel = 0 <= p && 4 * p + 3 < old(dst)@.len();
            let scaled = resampled(
                frame.data@,
                frame.width as int,
                frame.height as int,
                width as int,
                height as int,
            );
            &&& r is Ok ==> r->Ok_0
            &&& !fits ==> r is Err
            &&& fits && same_size ==> r is Ok
            &&& r is Ok && same_size && pixel ==> {
                &&& final(dst)@[4 * p] == frame.data@[4 * p + 2]
                &&& final(dst)@[4 * p + 1] == frame.data@[4 * p + 1]
                &&& final(dst)@[4 * p + 2] == frame.data@[4 * p]
                &&& final(dst)@[4 * p + 3] == frame.data@[4 * p + 3]
            }
            &&& r is Ok && !same_size && pixel ==> {
                &&& final(dst)@[4 * p] == scaled[4 * p + 2]
                &&& final(dst)@[4 * p + 1] == scaled[4 * p + 1]
                &&& final(dst)@[4 * p + 2] == scaled[4 * p]
                &&& final(dst)@[4 * p + 3] == scaled[4 * p + 3]
            }
            &&& fits && r is Err ==> exists|failure: ResampleFailure| #[trigger]
                rescaling_failed(
                    frame.data@,
                    frame.width as int,
                    frame.height as int,
                    width as int,
                    height as int,
                    failure,
                )
        },
{
    filled_image_shows_the_picture(
        opt_frame(latest),
        old(dst)@,
        width,
        height,
        final(dst)@,
        r,
        p,
    );
}

/// An image is filled on the spot as a conversion of the picture fills it: where both succeed on the
/// same bytes and sizes, they leave the same in it.
pub proof fn filling_is_converting(
    frame: &FrameData,
    filling: &mut [u8],
    width: u32,
    height: u32,
    r: Result<bool, &'static str>,
    src: &[u8],
    converting: &mut [u8],
    outcome: Result<(), &'static str>,
)
    requires
        call_ensures(fill_image, (Some(frame), filling, width, height), r),
        src@ == frame.data@,
        old(converting)@ == old(filling)@,
        call_ensures(
            resize_and_convert,
            (src, frame.width, frame.height, converting, width, height),
            outcome,
        ),
        r is Ok <==> outcome is Ok,
    ensures
        final(filling)@ == final(converting)@,
{
}

/// There is room for a conversion unless it is a rescaling whose scratch pixels cannot be counted.
pub proof fn room_is_asked_for_rescalings_alone(
    frame: &FrameData,
    dst_len: usize,
    width: u32,
    height: u32,
    r: bool,
)
    requires
        call_ensures(has_room_for, (frame, dst_len, width, height), r),
        frame.data@.len() <= usize::MAX,
    ensures
        ({
            let rescaling = frame.width > 0 && frame.height > 0 && width > 0 && height > 0
                && frame.data@.len() == frame.width * frame.height * 4 && dst_len == width * height
                * 4 && !(frame.width == width && frame.height == height);
            r <==> (rescaling ==> width * frame.height <= usize::MAX && width * width <= usize::MAX)
        }),
{
    room_is_for_the_scratch_pixels(frame@, dst_len as int, width, height);
}

/// How an injection advances, in calls: without an image it settles on the first that is usable, with
/// that image's size, and pauses for a twentieth of a second before it looks again; with one it
/// puts pictures in, a thirtieth of a second apart; it ends as soon as pictures are no longer
/// wanted, and stays so.
pub proof fn injection_advances_by_its_looks(
    injection: Injection,
    running: bool,
    image: Option<ImageGeometry>,
    r: (Injection, InjectionStep),
    pause: u64,
)
    requires
        call_ensures(Injection::advance, (injection, running, image), r),
        call_ensures(InjectionStep::pause_ms, (r.1,), pause),
    ensures
        !running || injection is Ended ==> r.0 is Ended && r.1 is End && pause == 0,
        running && injection is Seeking ==> {
            if image matches Some(image) && image.has_data && 640 <= image.width && image.width
                < 16384 && 480 <= image.height && image.height < 16384 {
                &&& r.1 is Hold
                &&& pause == 0
                &&& r.0 matches Injection::Injecting(injector)
                &&& forall|size: (u32, u32)| #[trigger]
                    call_ensures(Injector::size, (&injector,), size) ==> size.0 == image->0.width
                        && size.1 == image->0.height
                &&& forall|pixels: &[u8]| #[trigger]
                    call_ensures(Injector::pixels, (&injector,), pixels) ==> (0
                        <= image->0.bytes_per_line ==> pixels@.len() == image->0.bytes_per_line
                        * image->0.height)
                &&& forall|injected: u64| #[trigger]
                    call_ensures(Injector::injected, (&injector,), injected) ==> injected == 0
            } else {
                &&& r.0 is Seeking
                &&& r.1 is Pause
                &&& pause == 50
            }
        },
        running ==> (injection matches Injection::Injecting(injector) ==> {
            &&& r.1 is Inject
            &&& pause == 33
            &&& r.0 matches Injection::Injecting(kept)
            &&& kept@ == injector@
        }),
{
    if image is Some && image->0.bytes_per_line >= 0 && image->0.height >= 0 {
        assert(0 <= image->0.bytes_per_line * image->0.height) by (nonlinear_arith)
            requires
                image->0.bytes_per_line >= 0,
                image->0.height >= 0,
        ;
    }
}

/// Closing an injection lets go of the capture and its session, hands them out, and leaves room for the
/// next request.
pub proof fn closing_hands_out_the_capture<C, S>(
    fresh: HookState<C, S>,
    asked: &mut HookState<C, S>,
    first: bool,
    started: &mut HookState<C, S>,
    capture: C,
    session: S,
    injection: Injection,
    state: &mut HookState<C, S>,
    handed_out: (Option<C>, Option<S>),
    asked_again: &mut HookState<C, S>,
    second: bool,
)
    requires
        call_ensures(HookState::<C, S>::new, (), fresh),
        *old(asked) == fresh,
        call_ensures(HookState::<C, S>::request, (asked,), first),
        *old(started) == *final(asked),
        call_ensures(HookState::<C, S>::succeed, (started, capture, session), ()),
        *old(state) == *final(started),
        call_ensures(Injection::close::<C, S>, (injection, state), handed_out),
        *old(asked_again) == *final(state),
        call_ensures(HookState::<C, S>::request, (asked_again,), second),
    ensures
        handed_out == (Some(capture), Some(session)),
        second,
{
}

} // verus!
