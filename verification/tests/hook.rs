use dingtalk_wayland_screenshare::hook::{
    answer, ends_injection, fills_on_the_spot, find_meeting_frame, is_caller_from_meeting_sdk,
    is_caller_validated, on_attach, should_log, tracks_image, HookedCall,
};

fn frames(files: &[&str]) -> Vec<Option<String>> {
    files
        .iter()
        .map(|file| if file.is_empty() { None } else { Some(file.to_string()) })
        .collect()
}

#[test]
fn callers_in_the_meeting_library() {
    let stack = frames(&["hook.so", "hook.so", "", "/opt/libmeeting_sdk.so"]);
    assert_eq!(find_meeting_frame(&stack), Some(3));
    assert!(is_caller_from_meeting_sdk(&stack));
    // The hook's own two entries do not count.
    let stack = frames(&["libmeeting_sdk.so", "libmeeting_sdk.so", "other.so"]);
    assert_eq!(find_meeting_frame(&stack), None);
    assert!(!is_caller_from_meeting_sdk(&stack));
    assert!(!is_caller_from_meeting_sdk(&frames(&[])));
}

#[test]
fn callers_in_the_meeting_process() {
    let elsewhere = frames(&["a", "b", "c"]);
    assert!(is_caller_validated(Some("tblive"), &elsewhere));
    assert!(!is_caller_validated(Some("tblive2"), &elsewhere));
    assert!(!is_caller_validated(None, &elsewhere));
    let library = frames(&["a", "b", "libmeeting_sdk.so"]);
    assert!(is_caller_validated(None, &library));
}

#[test]
fn the_second_attachment_starts_the_session() {
    let starts: Vec<usize> = (0..10).filter(|n| on_attach(*n).starts_session).collect();
    assert_eq!(starts, vec![1]);
    assert_eq!(on_attach(0).count, 1);
    assert_eq!(on_attach(6).count, 7);
}

#[test]
fn images_that_matter() {
    assert!(tracks_image(true, 640, 480, 1));
    assert!(!tracks_image(false, 640, 480, 1));
    assert!(!tracks_image(true, 639, 480, 1));
    assert!(!tracks_image(true, 640, 479, 1));
    assert!(!tracks_image(true, 640, 480, 0));
    assert!(fills_on_the_spot(false, true));
    assert!(!fills_on_the_spot(true, true));
    assert!(!fills_on_the_spot(false, false));
}

#[test]
fn answers_to_the_client() {
    assert_eq!(answer(HookedCall::ShmAttach, Some(1)), 1);
    assert_eq!(answer(HookedCall::ShmAttach, None), 0);
    assert_eq!(answer(HookedCall::ShmDetach, None), 0);
    assert_eq!(answer(HookedCall::ShmGetImage, None), 0);
    assert_eq!(answer(HookedCall::Shmdt, None), -1);
    assert_eq!(answer(HookedCall::Shmdt, Some(0)), 0);
    assert!(ends_injection(HookedCall::ShmDetach));
    assert!(ends_injection(HookedCall::Shmdt));
    assert!(!ends_injection(HookedCall::ShmAttach));
    assert!(!ends_injection(HookedCall::ShmGetImage));
}

#[test]
fn lines_in_the_log() {
    let logged: Vec<u64> = (1..=600).filter(|n| should_log(*n)).collect();
    assert_eq!(logged, vec![1, 200, 400, 600]);
}
