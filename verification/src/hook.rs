//! What the hooked calls decide: whose calls count, when a session starts, which images matter and
//! what the client gets to hear.

use crate::text::{
    contains_text, found_text_is_there, occurs_in, same_text, text_is_found_between_others,
};
use vstd::prelude::*;

verus! {

/// The least width of an image that a capture is put into.
pub const MIN_WIDTH: u32 = 640;

/// The least height of an image that a capture is put into.
pub const MIN_HEIGHT: u32 = 480;

/// The number of the attachment that starts a session.
pub const STARTING_ATTACHMENT: usize = 2;

/// Whether the `count`-th event of a repeating kind is worth a line in the log: the first is, and
/// every two hundredth.
pub fn should_log(count: u64) -> (r: bool)
    ensures
        r == (count == 1 || count % 200 == 0),
{
    count == 1 || count % 200 == 0
}

/// Whether entry `i` of a call stack, given by the files that its code comes from, is a caller in
/// the meeting library. The two innermost entries are the hook's own.
pub open spec fn meeting_frame(frames: Seq<Option<String>>, i: int) -> bool {
    2 <= i < frames.len() && (frames[i] matches Some(file) && occurs_in(
        file@,
        "libmeeting_sdk.so"@,
    ))
}

/// Whether the call comes from the meeting library.
pub open spec fn from_meeting_sdk(frames: Seq<Option<String>>) -> bool {
    exists|i: int| meeting_frame(frames, i)
}

/// The innermost caller in the meeting library, if the call comes from there.
pub fn find_meeting_frame(frames: &Vec<Option<String>>) -> (r: Option<usize>)
    ensures
        match r {
            Some(i) => {
                &&& meeting_frame(frames@, i as int)
                &&& forall|j: int| 0 <= j < i ==> !meeting_frame(frames@, j)
            },
            None => !from_meeting_sdk(frames@),
        },
{
    let mut i: usize = 2;
    while i < frames.len()
        invariant
            2 <= i,
            forall|j: int| 0 <= j < i ==> !meeting_frame(frames@, j),
        decreases frames@.len() - i,
    {
        match &frames[i] {
            Some(file) => if contains_text(file.as_str(), "libmeeting_sdk.so") {
                return Some(i);
            },
            None => {},
        }
        i = i + 1;
    }
    None
}

/// Whether the call comes from the meeting library.
pub fn is_caller_from_meeting_sdk(frames: &Vec<Option<String>>) -> (r: bool)
    ensures
        r == from_meeting_sdk(frames@),
{
    match find_meeting_frame(frames) {
        Some(i) => {
            assert(meeting_frame(frames@, i as int));
            true
        },
        None => false,
    }
}

/// Whether the call counts: the program is the meeting process itself, or the call comes from the
/// meeting library.
pub fn is_caller_validated(exe_name: Option<&str>, frames: &Vec<Option<String>>) -> (r: bool)
    ensures
        r == ((exe_name matches Some(name) && name@ == "tblive"@) || from_meeting_sdk(frames@)),
{
    match exe_name {
        Some(name) => if same_text(name, "tblive") {
            return true;
        },
        None => {},
    }
    is_caller_from_meeting_sdk(frames)
}

/// A call comes from the meeting library wherever a file with its name in it, whatever is written
/// before and after, stands behind the two innermost entries of the call stack.
pub proof fn meeting_library_is_recognised(
    frames: Seq<Option<String>>,
    i: int,
    before: Seq<char>,
    after: Seq<char>,
)
    requires
        2 <= i < frames.len(),
        frames[i] matches Some(file) && file@ == before + "libmeeting_sdk.so"@ + after,
    ensures
        meeting_frame(frames, i),
        from_meeting_sdk(frames),
{
    text_is_found_between_others(before, "libmeeting_sdk.so"@, after);
    assert(meeting_frame(frames, i));
}

/// A call that comes from the meeting library has a file with its name in it on the call stack, behind
/// the two innermost entries.
pub proof fn only_the_meeting_library_is_recognised(frames: Seq<Option<String>>)
    requires
        from_meeting_sdk(frames),
    ensures
        exists|i: int, before: Seq<char>, after: Seq<char>|
            2 <= i < frames.len() && (#[trigger] frames[i]) is Some && frames[i]->0@
                == #[trigger] (before + "libmeeting_sdk.so"@ + after),
{
    let i = choose|i: int| meeting_frame(frames, i);
    let file = frames[i]->0@;
    found_text_is_there(file, "libmeeting_sdk.so"@);
    let (before, after) = choose|before: Seq<char>, after: Seq<char>|
        file == #[trigger] (before + "libmeeting_sdk.so"@ + after);
    assert(frames[i]->0@ == before + "libmeeting_sdk.so"@ + after);
}

/// What follows from an attachment that counts.
#[derive(Debug, Clone, Copy, PartialEq, Eq, Structural)]
pub struct Attachment {
    /// How many there have been, with this one.
    pub count: usize,
    /// Whether this is the one that starts a session.
    pub starts_session: bool,
}

/// What follows from an attachment after `previous` others.
pub open spec fn attachment_after(previous: usize) -> Attachment {
    Attachment {
        count: (previous + 1) as usize,
        starts_session: previous + 1 == STARTING_ATTACHMENT,
    }
}

/// Counts an attachment after `previous` others.
pub fn on_attach(previous: usize) -> (r: Attachment)
    requires
        previous < usize::MAX,
    ensures
        r == attachment_after(previous),
{
    let count: usize = previous + 1;
    Attachment { count, starts_session: count == STARTING_ATTACHMENT }
}

/// How many of the first `n` attachments start a session.
pub open spec fn sessions_started(n: nat) -> nat
    decreases n,
{
    if n == 0 {
        0
    } else if attachment_after((n - 1) as usize).starts_session {
        sessions_started((n - 1) as nat) + 1
    } else {
        sessions_started((n - 1) as nat)
    }
}

/// Each attachment counts one more than those before it, and starts a session if and only if exactly
/// one came before it.
pub proof fn second_attachment_starts_the_session(previous: usize)
    requires
        previous < usize::MAX,
    ensures
        attachment_after(previous).count == previous + 1,
        attachment_after(previous).starts_session <==> previous == 1,
{
}

/// However many attachments there are, they start one session, with the second of them.
pub proof fn attachments_start_one_session(n: nat)
    requires
        n <= usize::MAX,
    ensures
        sessions_started(n) == if n < 2 {
            0nat
        } else {
            1nat
        },
    decreases n,
{
    if n > 0 {
        attachments_start_one_session((n - 1) as nat);
    }
}

/// Whether an image that the client has created becomes the one that a capture may be put into: it
/// is there, it is large enough, and there has been an attachment.
pub fn tracks_image(created: bool, width: u32, height: u32, attachments: usize) -> (r: bool)
    ensures
        r == (created && width >= MIN_WIDTH && height >= MIN_HEIGHT && attachments >= 1),
{
    created && width >= MIN_WIDTH && height >= MIN_HEIGHT && attachments >= 1
}

/// Whether an image that the client has fetched is to be filled on the spot: it is there, and
/// nothing else is filling the client's image.
pub fn fills_on_the_spot(injecting: bool, fetched: bool) -> (r: bool)
    ensures
        r == (!injecting && fetched),
{
    !injecting && fetched
}

/// The hooked calls that answer with a number.
#[derive(Debug, Clone, Copy, PartialEq, Eq, Structural)]
pub enum HookedCall {
    ShmAttach,
    ShmDetach,
    ShmGetImage,
    Shmdt,
}

/// Whether the call ends the filling of the client's image.
pub fn ends_injection(call: HookedCall) -> (r: bool)
    ensures
        r == (call == HookedCall::ShmDetach || call == HookedCall::Shmdt),
{
    match call {
        HookedCall::ShmDetach => true,
        HookedCall::Shmdt => true,
        _ => false,
    }
}

/// The answer to the call: that of the function behind the hook, or failure where that function
/// could not be found.
pub fn answer(call: HookedCall, original: Option<i32>) -> (r: i32)
    ensures
        r == (match original {
            Some(result) => result as int,
            None => if call == HookedCall::Shmdt {
                -1
            } else {
                0
            },
        }),
{
    match original {
        Some(result) => result,
        None => match call {
            HookedCall::Shmdt => -1,
            _ => 0,
        },
    }
}

/// The first event of a kind is logged, and every two hundredth, and no other.
pub proof fn first_and_every_two_hundredth_is_logged(count: u64, r: bool)
    requires
        call_ensures(should_log, (count,), r),
    ensures
        r <==> count == 1 || count % 200 == 0,
{
}

/// The innermost caller in the meeting library is found: an entry behind the two innermost with the
/// library's name in its file, and none such lies before it.
pub proof fn innermost_meeting_caller_is_found(
    frames: &Vec<Option<String>>,
    r: Option<usize>,
    j: int,
    before: Seq<char>,
    after: Seq<char>,
)
    requires
        call_ensures(find_meeting_frame, (frames,), r),
    ensures
        2 <= j < frames@.len() && (frames@[j] matches Some(file) && file@ == before
            + "libmeeting_sdk.so"@ + after) ==> r is Some && r->0 <= j,
        r matches Some(i) ==> {
            &&& 2 <= i < frames@.len()
            &&& frames@[i as int] matches Some(file)
            &&& exists|head: Seq<char>, tail: Seq<char>|
                file@ == #[trigger] (head + "libmeeting_sdk.so"@ + tail)
        },
{
    if 2 <= j < frames@.len() && (frames@[j] matches Some(file) && file@ == before
        + "libmeeting_sdk.so"@ + after) {
        meeting_library_is_recognised(frames@, j, before, after);
    }
    if let Some(i) = r {
        found_text_is_there(frames@[i as int]->0@, "libmeeting_sdk.so"@);
    }
}

/// A call counts where the program is the meeting process, and where a file with the library's name
/// in it stands behind the two innermost entries of the call stack; it counts nowhere else.
pub proof fn calls_of_the_meeting_count(
    exe_name: Option<&str>,
    frames: &Vec<Option<String>>,
    from_library: bool,
    counts: bool,
    j: int,
    before: Seq<char>,
    after: Seq<char>,
)
    requires
        call_ensures(is_caller_from_meeting_sdk, (frames,), from_library),
        call_ensures(is_caller_validated, (exe_name, frames), counts),
    ensures
        2 <= j < frames@.len() && (frames@[j] matches Some(file) && file@ == before
            + "libmeeting_sdk.so"@ + after) ==> from_library,
        from_library ==> exists|i: int, head: Seq<char>, tail: Seq<char>|
            2 <= i < frames@.len() && (#[trigger] frames@[i]) is Some && frames@[i]->0@
                == #[trigger] (head + "libmeeting_sdk.so"@ + tail),
        counts <==> from_library || (exe_name matches Some(name) && name@ == "tblive"@),
{
    if 2 <= j < frames@.len() && (frames@[j] matches Some(file) && file@ == before
        + "libmeeting_sdk.so"@ + after) {
        meeting_library_is_recognised(frames@, j, before, after);
    }
    if from_library {
        only_the_meeting_library_is_recognised(frames@);
    }
}

/// Attachments are counted one by one, and the second starts a session.
pub proof fn attachments_are_counted(previous: usize, r: Attachment)
    requires
        previous < usize::MAX,
        call_ensures(on_attach, (previous,), r),
    ensures
        r.count == previous + 1,
        r.starts_session <==> r.count == 2,
{
}

/// An image becomes the one for a capture where it has been created after an attachment and has at
/// least 640 by 480 pixels. It is filled on the spot where it has been fetched and nothing else is
/// filling it.
pub proof fn large_images_are_for_a_capture(
    there: bool,
    width: u32,
    height: u32,
    attachments: usize,
    injecting: bool,
    tracks: bool,
    fills: bool,
)
    requires
        call_ensures(tracks_image, (there, width, height, attachments), tracks),
        call_ensures(fills_on_the_spot, (injecting, there), fills),
    ensures
        tracks <==> there && width >= 640 && height >= 480 && attachments > 0,
        fills <==> there && !injecting,
{
}

/// Letting go of the shared memory, in either way, ends the injection, and no other call does.
pub proof fn detaching_ends_the_injection(call: HookedCall, r: bool)
    requires
        call_ensures(ends_injection, (call,), r),
    ensures
        call is ShmDetach || call is Shmdt ==> r,
        call is ShmAttach || call is ShmGetImage ==> !r,
{
}

/// The client hears what the function behind the hook says. Where there is none it hears of a
/// failure: minus one from the call of the C library, zero from the others.
pub proof fn client_hears_the_function_behind_the_hook(
    call: HookedCall,
    original: Option<i32>,
    r: i32,
)
    requires
        call_ensures(answer, (call, original), r),
    ensures
        original matches Some(result) ==> r == result,
        original is None && call is Shmdt ==> r == -1,
        original is None && !(call is Shmdt) ==> r == 0,
{
}

} // verus!
