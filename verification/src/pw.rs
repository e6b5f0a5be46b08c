//! The video stream: what is asked of it, and the latest picture that it has delivered.

use crate::image_proc::{image_bytes, rejection};
use vstd::prelude::*;
use vstd::string::StringExecFns;

verus! {

/// A picture of the stream.
#[derive(Debug)]
pub struct FrameData {
    pub width: u32,
    pub height: u32,
    pub stride: u32,
    pub data: Vec<u8>,
}

/// The contents of a [`FrameData`].
pub struct FrameModel {
    pub width: u32,
    pub height: u32,
    pub stride: u32,
    pub data: Seq<u8>,
}

impl View for FrameData {
    type V = FrameModel;

    open spec fn view(&self) -> FrameModel {
        FrameModel {
            width: self.width,
            height: self.height,
            stride: self.stride,
            data: self.data@,
        }
    }
}

impl Clone for FrameData {
    fn clone(&self) -> (r: Self)
        ensures
            r@ == self@,
    {
        let data = self.data.clone();
        assert(data@ =~= self.data@);
        FrameData { width: self.width, height: self.height, stride: self.stride, data }
    }
}

/// The part of a buffer that holds a picture, as the stream describes it.
#[derive(Debug, Clone, Copy, PartialEq, Eq, Structural)]
pub struct Chunk {
    pub offset: u32,
    pub size: u32,
    pub stride: i32,
}

/// The smaller of two numbers.
pub open spec fn smaller(a: int, b: int) -> int {
    if a < b {
        a
    } else {
        b
    }
}

/// The bytes of `buffer` that `chunk` speaks of, as far as they are there.
pub open spec fn chunk_bytes(buffer: Seq<u8>, chunk: Chunk) -> Seq<u8> {
    let start = smaller(chunk.offset as int, buffer.len() as int);
    let end = smaller(chunk.offset + chunk.size, buffer.len() as int);
    buffer.subrange(start, end)
}

/// The 32 bits of `n`, read without a sign.
pub open spec fn unsigned_bits(n: i32) -> int {
    if n < 0 {
        n + 0x1_0000_0000
    } else {
        n as int
    }
}

/// The bytes per line of a picture `width` pixels wide: what the stream says, or the pixels' own
/// where it says nothing.
pub open spec fn line_bytes(width: u32, chunk: Chunk) -> int {
    if chunk.stride == 0 {
        width * 4
    } else {
        unsigned_bits(chunk.stride)
    }
}

/// The picture of the given size that `chunk` marks in `buffer`.
pub open spec fn frame_in(buffer: Seq<u8>, chunk: Chunk, width: u32, height: u32) -> FrameModel {
    FrameModel {
        width,
        height,
        stride: line_bytes(width, chunk) as u32,
        data: chunk_bytes(buffer, chunk),
    }
}

/// A buffer that the stream delivers, with what it says of it.
pub struct Delivery {
    pub buffer: Option<Seq<u8>>,
    pub chunk: Chunk,
    pub width: u32,
    pub height: u32,
}

/// The latest picture after one more delivery.
pub open spec fn after_delivery(before: Option<FrameModel>, delivery: Delivery) -> Option<
    FrameModel,
> {
    match delivery.buffer {
        Some(bytes) => Some(frame_in(bytes, delivery.chunk, delivery.width, delivery.height)),
        None => before,
    }
}

/// The bytes of an optional buffer.
pub open spec fn opt_bytes(buffer: Option<&[u8]>) -> Option<Seq<u8>> {
    match buffer {
        Some(bytes) => Some(bytes@),
        None => None,
    }
}

/// The place for the latest picture of a stream.
#[derive(Debug)]
pub struct LatestFrame {
    frame: Option<FrameData>,
}

impl View for LatestFrame {
    type V = Option<FrameModel>;

    closed spec fn view(&self) -> Option<FrameModel> {
        match self.frame {
            Some(frame) => Some(frame@),
            None => None,
        }
    }
}

impl LatestFrame {
    /// A place without a picture.
    pub fn new() -> (r: LatestFrame)
        ensures
            r@ is None,
    {
        LatestFrame { frame: None }
    }

    /// Takes in a buffer of the stream: where its bytes can be read, the picture in it replaces
    /// the one that was there. Says whether it did.
    pub fn process(&mut self, buffer: Option<&[u8]>, chunk: Chunk, width: u32, height: u32) -> (r:
        bool)
        requires
            buffer is Some && chunk.stride == 0 ==> width * 4 <= u32::MAX,
        ensures
            r == buffer is Some,
            final(self)@ == after_delivery(
                old(self)@,
                (Delivery { buffer: opt_bytes(buffer), chunk, width, height }),
            ),
    {
        match buffer {
            Some(bytes) => {
                self.store(bytes, chunk, width, height);
                true
            },
            None => false,
        }
    }

    /// Puts the picture that `chunk` marks in `bytes` in the place, in the memory of the one
    /// before it.
    fn store(&mut self, bytes: &[u8], chunk: Chunk, width: u32, height: u32)
        requires
            chunk.stride == 0 ==> width * 4 <= u32::MAX,
        ensures
            final(self)@ == Some(frame_in(bytes@, chunk, width, height)),
    {
        let len: usize = bytes.len();
        let start: usize = if (chunk.offset as usize) < len {
            chunk.offset as usize
        } else {
            len
        };
        let end: usize = if (chunk.size as usize) < len - start {
            start + chunk.size as usize
        } else {
            len
        };
        let picture = vstd::slice::slice_subrange(bytes, start, end);
        let stride: u32 = if chunk.stride == 0 {
            width * 4
        } else {
            bits_of(chunk.stride)
        };
        match &mut self.frame {
            Some(existing) => {
                existing.width = width;
                existing.height = height;
                existing.stride = stride;
                existing.data.clear();
                existing.data.extend_from_slice(picture);
                assert(existing.data@ =~= picture@);
            },
            None => {
                self.frame = Some(
                    FrameData { width, height, stride, data: vstd::slice::slice_to_vec(picture) },
                );
            },
        }
    }

    /// A copy of the latest picture, if there is one.
    pub fn get_latest_frame(&self) -> (r: Option<FrameData>)
        ensures
            match r {
                Some(frame) => self@ == Some(frame@),
                None => self@ is None,
            },
    {
        match &self.frame {
            Some(frame) => Some(frame.clone()),
            None => None,
        }
    }

    /// The latest picture itself, if there is one.
    pub fn frame(&self) -> (r: Option<&FrameData>)
        ensures
            match r {
                Some(frame) => self@ == Some(frame@),
                None => self@ is None,
            },
    {
        match &self.frame {
            Some(frame) => Some(frame),
            None => None,
        }
    }
}

fn bits_of(n: i32) -> (r: u32)
    ensures
        r == unsigned_bits(n),
{
    if n < 0 {
        (n as i64 + 0x1_0000_0000) as u32
    } else {
        n as u32
    }
}

/// The 32 bits of `n`, read with a sign.
pub open spec fn signed_bits(n: u32) -> int {
    if n > i32::MAX {
        n - 0x1_0000_0000
    } else {
        n as int
    }
}

/// `n`, or the nearest number that an `i32` can hold.
pub open spec fn saturated(n: int) -> int {
    if n > i32::MAX {
        i32::MAX as int
    } else if n < i32::MIN {
        i32::MIN as int
    } else {
        n
    }
}

fn signed(n: u32) -> (r: i32)
    ensures
        r == signed_bits(n),
{
    if n > 0x7fff_ffff {
        (n as i64 - 0x1_0000_0000) as i32
    } else {
        n as i32
    }
}

fn saturating_product(a: i32, b: i32) -> (r: i32)
    ensures
        r == saturated(a * b),
{
    assert(-0x4000_0000_0000_0000 <= a * b <= 0x4000_0000_0000_0000) by (nonlinear_arith)
        requires
            -0x8000_0000 <= a <= 0x7fff_ffff,
            -0x8000_0000 <= b <= 0x7fff_ffff,
    ;
    let product: i64 = a as i64 * b as i64;
    if product > 0x7fff_ffff {
        i32::MAX
    } else if product < -0x8000_0000 {
        i32::MIN
    } else {
        product as i32
    }
}

/// The properties of a buffer negotiation.
#[derive(Debug, Clone, Copy, PartialEq, Eq, Structural)]
pub enum ParamBuffers {
    /// How many buffers.
    Buffers,
    /// How many blocks of memory in each.
    Blocks,
    /// How many bytes in a block.
    Size,
    /// How many bytes from one line to the next.
    Stride,
    /// Which kinds of memory.
    DataType,
}

impl ParamBuffers {
    /// The key of the property in the stream's protocol.
    pub open spec fn key(self) -> u32 {
        match self {
            ParamBuffers::Buffers => 1,
            ParamBuffers::Blocks => 2,
            ParamBuffers::Size => 3,
            ParamBuffers::Stride => 4,
            ParamBuffers::DataType => 6,
        }
    }

    /// The key of the property in the stream's protocol.
    pub fn as_raw(&self) -> (r: u32)
        ensures
            r == self.key(),
    {
        match self {
            ParamBuffers::Buffers => 1,
            ParamBuffers::Blocks => 2,
            ParamBuffers::Size => 3,
            ParamBuffers::Stride => 4,
            ParamBuffers::DataType => 6,
        }
    }
}

/// The value of a property in a negotiation.
#[derive(Debug)]
pub enum PodValue {
    /// One number.
    Int(i32),
    /// Any number from `min` to `max`, best of all `default`.
    Range { default: i32, min: i32, max: i32 },
    /// Any combination of `flags`, best of all `default`.
    Flags { default: i32, flags: Vec<i32> },
}

/// The contents of a [`PodValue`].
pub enum PodModel {
    Int(int),
    Range(int, int, int),
    Flags(int, Seq<i32>),
}

impl View for PodValue {
    type V = PodModel;

    open spec fn view(&self) -> PodModel {
        match self {
            PodValue::Int(n) => PodModel::Int(*n as int),
            PodValue::Range { default, min, max } => PodModel::Range(
                *default as int,
                *min as int,
                *max as int,
            ),
            PodValue::Flags { default, flags } => PodModel::Flags(*default as int, flags@),
        }
    }
}

/// A property in a buffer negotiation.
#[derive(Debug)]
pub struct BufferProperty {
    pub key: ParamBuffers,
    pub value: PodValue,
}

impl View for BufferProperty {
    type V = (ParamBuffers, PodModel);

    open spec fn view(&self) -> (ParamBuffers, PodModel) {
        (self.key, self.value@)
    }
}

/// The bytes per line that are asked for: four per pixel, as far as an `i32` can say so.
pub open spec fn wanted_stride(width: u32) -> int {
    saturated(signed_bits(width) * 4)
}

/// The bytes per block that are asked for: one picture, as far as an `i32` can say so.
pub open spec fn wanted_size(width: u32, height: u32) -> int {
    saturated(wanted_stride(width) * signed_bits(height))
}

/// The buffers that are asked for once pictures of the given size have been agreed on: four of
/// them, or from two to sixteen, each with a picture in one block of memory that can be mapped.
pub open spec fn wanted_buffers(width: u32, height: u32) -> Seq<(ParamBuffers, PodModel)> {
    seq![
        (ParamBuffers::Buffers, PodModel::Range(4, 2, 16)),
        (ParamBuffers::Blocks, PodModel::Int(1)),
        (ParamBuffers::Size, PodModel::Int(wanted_size(width, height))),
        (ParamBuffers::Stride, PodModel::Int(wanted_stride(width))),
        (ParamBuffers::DataType, PodModel::Flags(6, seq![2i32, 4i32])),
    ]
}

/// The contents of a list of properties.
pub open spec fn property_models(properties: Seq<BufferProperty>) -> Seq<
    (ParamBuffers, PodModel),
> {
    properties.map_values(|property: BufferProperty| property@)
}

/// The buffers to ask for once pictures of the given size have been agreed on.
pub fn build_buffers_param(width: u32, height: u32) -> (r: Vec<BufferProperty>)
    ensures
        property_models(r@) == wanted_buffers(width, height),
{
    let stride: i32 = saturating_product(signed(width), 4);
    let size: i32 = saturating_product(stride, signed(height));
    let mem_ptr: i32 = 2;
    let mem_fd: i32 = 4;
    let flags: Vec<i32> = vec![mem_ptr, mem_fd];
    assert(flags@ =~= seq![2i32, 4i32]);
    let mut r: Vec<BufferProperty> = Vec::new();
    r.push(
        BufferProperty {
            key: ParamBuffers::Buffers,
            value: PodValue::Range { default: 4, min: 2, max: 16 },
        },
    );
    r.push(BufferProperty { key: ParamBuffers::Blocks, value: PodValue::Int(1) });
    r.push(BufferProperty { key: ParamBuffers::Size, value: PodValue::Int(size) });
    r.push(BufferProperty { key: ParamBuffers::Stride, value: PodValue::Int(stride) });
    r.push(
        BufferProperty {
            key: ParamBuffers::DataType,
            value: PodValue::Flags { default: mem_ptr + mem_fd, flags },
        },
    );
    assert(property_models(r@) =~= wanted_buffers(width, height));
    r
}

/// The layouts of a 32-bit pixel.
#[derive(Debug, Clone, Copy, PartialEq, Eq, Structural)]
pub enum VideoFormat {
    Bgrx,
    Rgbx,
    Bgra,
    Rgba,
}

/// A choice between two bounds, each a pair of numbers, with a favourite.
#[derive(Debug, Clone, Copy, PartialEq, Eq)]
pub struct PairRange {
    pub default: (u32, u32),
    pub min: (u32, u32),
    pub max: (u32, u32),
}

/// The video that the stream is asked for.
#[derive(Debug)]
pub struct FormatOffer {
    /// The favourite pixel layout.
    pub preferred: VideoFormat,
    /// Every pixel layout that will do.
    pub formats: Vec<VideoFormat>,
    /// Width and height.
    pub size: PairRange,
    /// Pictures per second, as numerator and denominator.
    pub rate: PairRange,
}

/// The greatest width and the greatest height of a picture that are asked for.
pub const MAX_SIDE: u32 = 4096;

/// The video to ask for.
pub fn format_offer() -> (r: FormatOffer)
    ensures
        r.preferred == VideoFormat::Bgrx,
        r.formats@ == seq![
            VideoFormat::Bgrx,
            VideoFormat::Rgbx,
            VideoFormat::Bgra,
            VideoFormat::Rgba,
        ],
        r.size == (PairRange { default: (1280, 720), min: (1, 1), max: (MAX_SIDE, MAX_SIDE) }),
        r.rate == (PairRange { default: (30, 1), min: (0, 1), max: (1000, 1) }),
{
    let mut formats: Vec<VideoFormat> = Vec::new();
    formats.push(VideoFormat::Bgrx);
    formats.push(VideoFormat::Rgbx);
    formats.push(VideoFormat::Bgra);
    formats.push(VideoFormat::Rgba);
    assert(formats@ =~= seq![
        VideoFormat::Bgrx,
        VideoFormat::Rgbx,
        VideoFormat::Bgra,
        VideoFormat::Rgba,
    ]);
    FormatOffer {
        preferred: VideoFormat::Bgrx,
        formats,
        size: PairRange { default: (1280, 720), min: (1, 1), max: (MAX_SIDE, MAX_SIDE) },
        rate: PairRange { default: (30, 1), min: (0, 1), max: (1000, 1) },
    }
}

/// What comes to light about a parameter of the stream that has changed.
#[derive(Debug, Clone, Copy, PartialEq, Eq)]
pub enum ParamEvent {
    /// A parameter has changed: whether it has a value, and whether it is the format.
    Changed { present: bool, format: bool },
    /// The kind of media has been read from it, if it could be.
    MediaRead(Option<MediaKind>),
    /// The size of the pictures has been read from it, if it could be.
    SizeRead(Option<(u32, u32)>),
}

/// A kind of media, as far as it matters here.
#[derive(Debug, Clone, Copy, PartialEq, Eq, Structural)]
pub struct MediaKind {
    pub video: bool,
    pub raw: bool,
}

/// What is to be done about a parameter of the stream.
#[derive(Debug)]
pub enum ParamAction {
    /// Leave it.
    Ignore,
    /// Read the kind of media from it.
    ReadMedia,
    /// Read the size of the pictures from it.
    ReadSize,
    /// Ask for these buffers.
    AskForBuffers(Vec<BufferProperty>),
}

/// Decides what to do about a parameter of the stream: a format of raw video is followed up by
/// asking for buffers for its pictures, anything else is left.
pub fn on_param(event: ParamEvent) -> (r: ParamAction)
    ensures
        match event {
            ParamEvent::Changed { present: true, format: true } => r is ReadMedia,
            ParamEvent::MediaRead(Some(MediaKind { video: true, raw: true })) => r is ReadSize,
            ParamEvent::SizeRead(Some((width, height))) => {
                &&& r matches ParamAction::AskForBuffers(properties)
                &&& property_models(properties@) == wanted_buffers(width, height)
            },
            _ => r is Ignore,
        },
{
    match event {
        ParamEvent::Changed { present, format } => if present && format {
            ParamAction::ReadMedia
        } else {
            ParamAction::Ignore
        },
        ParamEvent::MediaRead(Some(media)) => if media.video && media.raw {
            ParamAction::ReadSize
        } else {
            ParamAction::Ignore
        },
        ParamEvent::SizeRead(Some((width, height))) => ParamAction::AskForBuffers(
            build_buffers_param(width, height),
        ),
        _ => ParamAction::Ignore,
    }
}

/// What a stream is connected to.
#[derive(Debug)]
pub struct StreamTarget {
    /// The serial number of the object, in digits.
    pub object: Option<String>,
    /// The identifier of the node.
    pub node: Option<u32>,
}

/// What to connect the stream to: the object where one is named, else the node.
pub fn stream_target(node_id: u32, target_object: Option<String>) -> (r: StreamTarget)
    ensures
        r.object == target_object,
        r.node == (if target_object is Some {
            None
        } else {
            Some(node_id)
        }),
{
    let node = match &target_object {
        Some(_) => None,
        None => Some(node_id),
    };
    StreamTarget { object: target_object, node }
}

/// A capture that is running. `L` gives access to its latest picture, `T` stands for its thread.
#[derive(Debug)]
pub struct PipewireCapture<L, T> {
    latest_frame: L,
    mainloop_raw: usize,
    thread_handle: Option<T>,
}

/// What a running capture still holds.
pub struct CaptureModel<L, T> {
    /// The access to its latest picture.
    pub latest_frame: L,
    /// The address of its event loop.
    pub mainloop: Option<usize>,
    /// Its thread.
    pub thread: Option<T>,
}

impl<L, T> View for PipewireCapture<L, T> {
    type V = CaptureModel<L, T>;

    closed spec fn view(&self) -> CaptureModel<L, T> {
        CaptureModel {
            latest_frame: self.latest_frame,
            mainloop: if self.mainloop_raw == 0 {
                None
            } else {
                Some(self.mainloop_raw)
            },
            thread: self.thread_handle,
        }
    }
}

/// What is to be done to end a capture: first the loop at `quit` is told to leave, then the thread
/// `join` is waited for.
#[derive(Debug)]
pub struct StopWork<T> {
    pub quit: Option<usize>,
    pub join: Option<T>,
}

/// The text of a failure report.
pub open spec fn report_text(report: Option<Result<usize, String>>) -> Seq<char> {
    match report {
        Some(Err(message)) => message@,
        _ => "PipeWire background thread failed during initialization"@,
    }
}

impl<L, T> PipewireCapture<L, T> {
    /// The capture on the given thread, according to what the thread reports: the address of its
    /// event loop, an error, or nothing at all.
    pub fn from_report(
        report: Option<Result<usize, String>>,
        latest_frame: L,
        thread: T,
    ) -> (r: Result<PipewireCapture<L, T>, String>)
        ensures
            match report {
                Some(Ok(mainloop)) => {
                    &&& r matches Ok(capture)
                    &&& capture@.latest_frame == latest_frame
                    &&& capture@.thread == Some(thread)
                    &&& capture@.mainloop == (if mainloop == 0 {
                        None
                    } else {
                        Some(mainloop)
                    })
                },
                _ => r matches Err(message) && message@ == report_text(report),
            },
    {
        match report {
            Some(Ok(mainloop_raw)) => Ok(
                PipewireCapture { latest_frame, mainloop_raw, thread_handle: Some(thread) },
            ),
            Some(Err(message)) => Err(message),
            None => Err(
                String::from_str("PipeWire background thread failed during initialization"),
            ),
        }
    }

    /// The access to the latest picture.
    pub fn latest_frame_handle(&self) -> (r: &L)
        ensures
            *r == self@.latest_frame,
    {
        &self.latest_frame
    }

    /// Gives up the event loop and the thread, and with them the work of ending the capture.
    pub fn stop(&mut self) -> (r: StopWork<T>)
        ensures
            r.quit == old(self)@.mainloop,
            r.join == old(self)@.thread,
            final(self)@.latest_frame == old(self)@.latest_frame,
            final(self)@.mainloop is None,
            final(self)@.thread is None,
    {
        let quit = if self.mainloop_raw != 0 {
            Some(self.mainloop_raw)
        } else {
            None
        };
        self.mainloop_raw = 0;
        let join = self.thread_handle.take();
        StopWork { quit, join }
    }
}

/// The latest picture after the given deliveries, in this order.
pub open spec fn after_deliveries(
    before: Option<FrameModel>,
    deliveries: Seq<Delivery>,
) -> Option<FrameModel>
    decreases deliveries.len(),
{
    if deliveries.len() == 0 {
        before
    } else {
        after_delivery(after_deliveries(before, deliveries.drop_last()), deliveries.last())
    }
}

/// The latest picture is that of the last delivery that could be read, whatever came before it.
pub proof fn latest_is_the_last_readable(
    before: Option<FrameModel>,
    deliveries: Seq<Delivery>,
    k: int,
)
    requires
        0 <= k < deliveries.len(),
        deliveries[k].buffer is Some,
        forall|i: int| k < i < deliveries.len() ==> (#[trigger] deliveries[i]).buffer is None,
    ensures
        after_deliveries(before, deliveries) == Some(
            frame_in(
                deliveries[k].buffer->0,
                deliveries[k].chunk,
                deliveries[k].width,
                deliveries[k].height,
            ),
        ),
    decreases deliveries.len(),
{
    if k < deliveries.len() - 1 {
        latest_is_the_last_readable(before, deliveries.drop_last(), k);
        assert(deliveries.drop_last()[k] == deliveries[k]);
    }
}

/// A chunk that lies within its buffer is kept whole.
pub proof fn whole_chunk_is_kept(buffer: Seq<u8>, chunk: Chunk)
    requires
        chunk.offset + chunk.size <= buffer.len(),
    ensures
        chunk_bytes(buffer, chunk) == buffer.subrange(
            chunk.offset as int,
            chunk.offset + chunk.size,
        ),
        chunk_bytes(buffer, chunk).len() == chunk.size,
{
}

/// However a chunk is described, no byte outside its buffer is taken, and none beyond its size.
pub proof fn chunk_stays_in_its_buffer(buffer: Seq<u8>, chunk: Chunk)
    ensures
        chunk_bytes(buffer, chunk).len() <= chunk.size,
        chunk_bytes(buffer, chunk).len() <= buffer.len(),
{
}

/// A picture without gaps between its lines, delivered whole, is accepted as the source of a
/// conversion into any image of a size above zero with a buffer to match.
pub proof fn whole_picture_is_convertible(
    buffer: Seq<u8>,
    chunk: Chunk,
    width: u32,
    height: u32,
    dst_len: int,
    dst_w: int,
    dst_h: int,
)
    requires
        width > 0,
        height > 0,
        chunk.size == image_bytes(width as int, height as int),
        chunk.offset + chunk.size <= buffer.len(),
        dst_w > 0,
        dst_h > 0,
        dst_len == image_bytes(dst_w, dst_h),
        dst_len <= usize::MAX,
    ensures
        rejection(
            frame_in(buffer, chunk, width, height).data.len() as int,
            width as int,
            height as int,
            dst_len,
            dst_w,
            dst_h,
        ) is None,
{
}

/// For every size of picture that is asked for, the buffers that are asked for hold exactly one
/// picture, with four bytes per pixel.
pub proof fn offered_sizes_get_exact_buffers(width: u32, height: u32)
    requires
        width <= MAX_SIDE,
        height <= MAX_SIDE,
    ensures
        wanted_stride(width) == width * 4,
        wanted_size(width, height) == image_bytes(width as int, height as int),
{
    assert(width * 4 * height <= 4 * MAX_SIDE * MAX_SIDE) by (nonlinear_arith)
        requires
            0 <= width <= MAX_SIDE,
            0 <= height <= MAX_SIDE,
    ;
    assert(width * 4 * height == width * height * 4) by (nonlinear_arith);
    assert(0 <= width * 4 * height) by (nonlinear_arith)
        requires
            width >= 0,
            height >= 0,
    ;
}

/// A delivery that can be read puts its own picture in place, whatever was there before: of the size
/// that has been agreed on, with the bytes of the chunk one by one as far as the buffer has them,
/// and with the bytes per line that the chunk gives, read without a sign, or four per pixel where
/// it gives none.
pub proof fn delivered_picture_is_kept(
    before: Option<FrameModel>,
    bytes: Seq<u8>,
    chunk: Chunk,
    width: u32,
    height: u32,
    i: int,
)
    ensures
        after_delivery(before, (Delivery { buffer: Some(bytes), chunk, width, height })) matches Some(
            frame,
        ) && {
            let left = bytes.len() - chunk.offset;
            &&& frame.width == width
            &&& frame.height == height
            &&& chunk.stride > 0 ==> frame.stride == chunk.stride
            &&& chunk.stride < 0 ==> frame.stride == 0x1_0000_0000 + chunk.stride
            &&& chunk.stride == 0 && width * 4 <= u32::MAX ==> frame.stride == width * 4
            &&& left <= 0 ==> frame.data.len() == 0
            &&& 0 <= left <= chunk.size ==> frame.data.len() == left
            &&& left >= chunk.size ==> frame.data.len() == chunk.size
            &&& 0 <= i < frame.data.len() ==> frame.data[i] == bytes[chunk.offset + i]
        },
{
}

/// A chunk that lies within its buffer is delivered whole, in a picture of the size that has been
/// agreed on, whatever it says of the bytes per line.
pub proof fn whole_chunk_is_delivered(
    before: Option<FrameModel>,
    bytes: Seq<u8>,
    chunk: Chunk,
    width: u32,
    height: u32,
)
    requires
        chunk.offset + chunk.size <= bytes.len(),
    ensures
        after_delivery(before, (Delivery { buffer: Some(bytes), chunk, width, height })) matches Some(
            frame,
        ) && {
            &&& frame.width == width
            &&& frame.height == height
            &&& frame.data == bytes.subrange(chunk.offset as int, chunk.offset + chunk.size)
        },
{
}

/// A delivery that cannot be read leaves the latest picture alone.
pub proof fn unreadable_delivery_changes_nothing(
    before: Option<FrameModel>,
    chunk: Chunk,
    width: u32,
    height: u32,
)
    ensures
        after_delivery(before, (Delivery { buffer: None, chunk, width, height })) == before,
{
}

/// The contents of a picture are what its fields hold, and those of an optional buffer its bytes.
pub proof fn picture_contents_are_its_fields(frame: FrameData, buffer: &[u8])
    ensures
        frame@.width == frame.width,
        frame@.height == frame.height,
        frame@.stride == frame.stride,
        frame@.data == frame.data@,
        opt_bytes(Some(buffer)) == Some(buffer@),
        opt_bytes(None) is None,
{
}

/// The properties of a buffer negotiation have the keys of the stream's protocol.
pub proof fn properties_have_the_keys_of_the_protocol(property: ParamBuffers)
    ensures
        property is Buffers ==> property.key() == 1,
        property is Blocks ==> property.key() == 2,
        property is Size ==> property.key() == 3,
        property is Stride ==> property.key() == 4,
        property is DataType ==> property.key() == 6,
{
}

/// What is asked for a picture of any size: how many buffers, one block in each, memory that can be
/// mapped, and room for four bytes per pixel and line after line of them. Sizes are read as signed
/// numbers, and what an `i32` cannot hold becomes the nearest that it can.
pub proof fn buffers_hold_one_picture(width: u32, height: u32)
    ensures
        ({
            let asked = wanted_buffers(width, height);
            let w: int = if width < 0x8000_0000 {
                width as int
            } else {
                width - 0x1_0000_0000
            };
            let h: int = if height < 0x8000_0000 {
                height as int
            } else {
                height - 0x1_0000_0000
            };
            &&& asked.len() == 5
            &&& asked[0] == (ParamBuffers::Buffers, PodModel::Range(4, 2, 16))
            &&& asked[1] == (ParamBuffers::Blocks, PodModel::Int(1))
            &&& asked[4] == (ParamBuffers::DataType, PodModel::Flags(6, seq![2i32, 4i32]))
            &&& asked[2].0 == ParamBuffers::Size
            &&& asked[3].0 == ParamBuffers::Stride
            &&& asked[3].1 matches PodModel::Int(stride)
            &&& asked[2].1 matches PodModel::Int(size)
            &&& -0x8000_0000 <= stride <= 0x7fff_ffff
            &&& -0x8000_0000 <= size <= 0x7fff_ffff
            &&& -0x8000_0000 <= w * 4 <= 0x7fff_ffff ==> stride == w * 4
            &&& w * 4 > 0x7fff_ffff ==> stride == 0x7fff_ffff
            &&& w * 4 < -0x8000_0000 ==> stride == -0x8000_0000
            &&& -0x8000_0000 <= stride * h <= 0x7fff_ffff ==> size == stride * h
            &&& stride * h > 0x7fff_ffff ==> size == 0x7fff_ffff
            &&& stride * h < -0x8000_0000 ==> size == -0x8000_0000
        }),
{
}

/// The contents of a list of properties are what its properties hold, one by one.
pub proof fn property_contents_are_its_fields(properties: Seq<BufferProperty>, i: int)
    requires
        0 <= i < properties.len(),
    ensures
        property_models(properties).len() == properties.len(),
        property_models(properties)[i].0 == properties[i].key,
        properties[i].value matches PodValue::Int(n) ==> property_models(properties)[i].1
            == PodModel::Int(n as int),
        properties[i].value matches PodValue::Range { default, min, max } ==> property_models(
            properties,
        )[i].1 == PodModel::Range(default as int, min as int, max as int),
        properties[i].value matches PodValue::Flags { default, flags } ==> property_models(
            properties,
        )[i].1 == PodModel::Flags(default as int, flags@),
{
}

/// A failure is reported in the words of the thread, or in its own where the thread has none.
pub proof fn reported_failure_keeps_its_words(message: String)
    ensures
        report_text(Some(Err(message))) == message@,
        report_text(None) == "PipeWire background thread failed during initialization"@,
{
}

/// What is fetched after a buffer has come in: of one that can be read the picture in it, of the size
/// that has been agreed on, with the chunk's bytes as far as they are there, and with the chunk's
/// bytes per line, read without a sign, or four per pixel where it gives none. The copy and the
/// picture itself are the same.
pub proof fn fetched_picture_is_the_delivered_one(
    place: &mut LatestFrame,
    bytes: &[u8],
    chunk: Chunk,
    width: u32,
    height: u32,
    replaced: bool,
    copy: Option<FrameData>,
    held: Option<&FrameData>,
    i: int,
)
    requires
        call_ensures(LatestFrame::process, (place, Some(bytes), chunk, width, height), replaced),
        call_ensures(LatestFrame::get_latest_frame, (&*final(place),), copy),
        call_ensures(LatestFrame::frame, (&*final(place),), held),
    ensures
        replaced,
        copy is Some,
        held is Some,
        held->0.width == copy->0.width,
        held->0.height == copy->0.height,
        held->0.stride == copy->0.stride,
        held->0.data@ == copy->0.data@,
        ({
            let frame = copy->0;
            let left = bytes@.len() - chunk.offset;
            &&& frame.width == width
            &&& frame.height == height
            &&& chunk.stride > 0 ==> frame.stride == chunk.stride
            &&& chunk.stride < 0 ==> frame.stride == 0x1_0000_0000 + chunk.stride
            &&& chunk.stride == 0 && width * 4 <= u32::MAX ==> frame.stride == width * 4
            &&& left <= 0 ==> frame.data@.len() == 0
            &&& 0 <= left <= chunk.size ==> frame.data@.len() == left
            &&& left >= chunk.size ==> {
                &&& frame.data@.len() == chunk.size
                &&& frame.data@ == bytes@.subrange(
                    chunk.offset as int,
                    chunk.offset + chunk.size,
                )
            }
            &&& 0 <= i < frame.data@.len() ==> frame.data@[i] == bytes@[chunk.offset + i]
        }),
{
    delivered_picture_is_kept(old(place)@, bytes@, chunk, width, height, i);
}

/// A buffer that cannot be read changes nothing: what is fetched before and after it is the same. A
/// new place has no picture.
pub proof fn unreadable_buffer_changes_nothing(
    empty: LatestFrame,
    nothing: Option<FrameData>,
    place: &mut LatestFrame,
    earlier: Option<FrameData>,
    chunk: Chunk,
    width: u32,
    height: u32,
    replaced: bool,
    later: Option<FrameData>,
)
    requires
        call_ensures(LatestFrame::new, (), empty),
        call_ensures(LatestFrame::get_latest_frame, (&empty,), nothing),
        call_ensures(LatestFrame::get_latest_frame, (&*old(place),), earlier),
        call_ensures(LatestFrame::process, (place, None, chunk, width, height), replaced),
        call_ensures(LatestFrame::get_latest_frame, (&*final(place),), later),
    ensures
        nothing is None,
        !replaced,
        earlier is Some <==> later is Some,
        earlier is Some ==> {
            &&& earlier->0.width == later->0.width
            &&& earlier->0.height == later->0.height
            &&& earlier->0.stride == later->0.stride
            &&& earlier->0.data@ == later->0.data@
        },
{
}

/// The buffers that are asked for, in numbers: four of them, or from two to sixteen, each with one
/// block of memory that can be mapped, four bytes for a pixel and a line of them for each line of
/// the picture. Sizes are read as signed numbers, and what an `i32` cannot hold becomes the nearest
/// that it can.
pub proof fn asked_buffers_hold_one_picture(width: u32, height: u32, r: Vec<BufferProperty>)
    requires
        call_ensures(build_buffers_param, (width, height), r),
    ensures
        ({
            let w: int = if width < 0x8000_0000 {
                width as int
            } else {
                width - 0x1_0000_0000
            };
            let h: int = if height < 0x8000_0000 {
                height as int
            } else {
                height - 0x1_0000_0000
            };
            &&& r@.len() == 5
            &&& r@[0].key == ParamBuffers::Buffers
            &&& r@[0].value == (PodValue::Range { default: 4, min: 2, max: 16 })
            &&& r@[1].key == ParamBuffers::Blocks
            &&& r@[1].value == PodValue::Int(1)
            &&& r@[2].key == ParamBuffers::Size
            &&& r@[3].key == ParamBuffers::Stride
            &&& r@[4].key == ParamBuffers::DataType
            &&& r@[4].value matches PodValue::Flags { default, flags }
            &&& default == 6
            &&& flags@ == seq![2i32, 4i32]
            &&& r@[3].value matches PodValue::Int(stride)
            &&& r@[2].value matches PodValue::Int(size)
            &&& -0x8000_0000 <= w * 4 <= 0x7fff_ffff ==> stride == w * 4
            &&& w * 4 > 0x7fff_ffff ==> stride == 0x7fff_ffff
            &&& w * 4 < -0x8000_0000 ==> stride == -0x8000_0000
            &&& -0x8000_0000 <= stride * h <= 0x7fff_ffff ==> size == stride * h
            &&& stride * h > 0x7fff_ffff ==> size == 0x7fff_ffff
            &&& stride * h < -0x8000_0000 ==> size == -0x8000_0000
        }),
{
    let models = property_models(r@);
    assert(models.len() == 5);
    assert(models[0] == r@[0]@ && models[1] == r@[1]@ && models[2] == r@[2]@ && models[3] == r@[3]@
        && models[4] == r@[4]@);
}

/// Each property has its key in the stream's protocol.
pub proof fn keys_are_those_of_the_protocol(property: ParamBuffers, key: u32)
    requires
        call_ensures(ParamBuffers::as_raw, (&property,), key),
    ensures
        property is Buffers ==> key == 1,
        property is Blocks ==> key == 2,
        property is Size ==> key == 3,
        property is Stride ==> key == 4,
        property is DataType ==> key == 6,
{
}

/// Video is asked for in any of four layouts of four bytes, in sizes from one pixel to 4096 a side, and
/// at up to a thousand pictures a second, best of all thirty of 1280 by 720.
pub proof fn four_byte_layouts_are_asked_for(r: FormatOffer)
    requires
        call_ensures(format_offer, (), r),
    ensures
        r.preferred == r.formats@[0],
        r.formats@ == seq![
            VideoFormat::Bgrx,
            VideoFormat::Rgbx,
            VideoFormat::Bgra,
            VideoFormat::Rgba,
        ],
        r.size.default == (1280u32, 720u32),
        r.size.min == (1u32, 1u32),
        r.size.max == (4096u32, 4096u32),
        r.rate.default == (30u32, 1u32),
        r.rate.min == (0u32, 1u32),
        r.rate.max == (1000u32, 1u32),
{
}

/// Only a format of raw video is followed up, step by step, to the buffers for pictures of its size.
pub proof fn only_raw_video_is_followed_up(
    event: ParamEvent,
    r: ParamAction,
    width: u32,
    height: u32,
    asked: Vec<BufferProperty>,
)
    requires
        call_ensures(on_param, (event,), r),
        call_ensures(build_buffers_param, (width, height), asked),
    ensures
        r is ReadMedia <==> (event matches ParamEvent::Changed { present, format } && present
            && format),
        r is ReadSize <==> (event matches ParamEvent::MediaRead(Some(media)) && media.video
            && media.raw),
        r is AskForBuffers <==> event matches ParamEvent::SizeRead(Some(_)),
        event == ParamEvent::SizeRead(Some((width, height))) ==> property_models(r->AskForBuffers_0@)
            == property_models(asked@),
{
}

/// A stream is connected to the object where one is named, and else to the node, never to both.
pub proof fn stream_has_one_target(node_id: u32, target_object: Option<String>, r: StreamTarget)
    requires
        call_ensures(stream_target, (node_id, target_object), r),
    ensures
        r.object == target_object,
        target_object is Some ==> r.node is None,
        target_object is None ==> r.node == Some(node_id),
{
}

/// A thread that reports an address is a running capture, which gives access to its pictures and is
/// stopped once: its loop, unless the address is zero, is told to leave, its thread is waited for,
/// and nothing is left to be done the second time. A thread that reports anything else is none.
pub proof fn capture_is_stopped_once<L, T>(
    report: Option<Result<usize, String>>,
    latest_frame: L,
    thread: T,
    r: Result<PipewireCapture<L, T>, String>,
    handle: &L,
    first: &mut PipewireCapture<L, T>,
    work: StopWork<T>,
    second: &mut PipewireCapture<L, T>,
    rest: StopWork<T>,
)
    requires
        call_ensures(PipewireCapture::<L, T>::from_report, (report, latest_frame, thread), r),
        r matches Ok(capture) ==> {
            &&& call_ensures(PipewireCapture::<L, T>::latest_frame_handle, (&capture,), handle)
            &&& *old(first) == capture
        },
        call_ensures(PipewireCapture::<L, T>::stop, (first,), work),
        *old(second) == *final(first),
        call_ensures(PipewireCapture::<L, T>::stop, (second,), rest),
    ensures
        r is Ok <==> report matches Some(Ok(_)),
        report matches Some(Err(message)) ==> r->Err_0@ == message@,
        report is None ==> r->Err_0@
            == "PipeWire background thread failed during initialization"@,
        report matches Some(Ok(mainloop)) ==> {
            &&& *handle == latest_frame
            &&& work.join == Some(thread)
            &&& mainloop == 0 ==> work.quit is None
            &&& mainloop != 0 ==> work.quit == Some(mainloop)
        },
        rest.quit is None,
        rest.join is None,
{
}

} // verus!
