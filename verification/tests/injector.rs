use dingtalk_wayland_screenshare::injector::{
    fill_image, has_room_for, poll_image, ImageGeometry, Injection, InjectionStep, Injector, Poll,
    FRAME_PAUSE_MS, POLL_PAUSE_MS,
};
use dingtalk_wayland_screenshare::capture::HookState;
use dingtalk_wayland_screenshare::pw::{Chunk, LatestFrame};

fn image(width: i32, height: i32, bytes_per_line: i32) -> ImageGeometry {
    ImageGeometry { has_data: true, width, height, bytes_per_line }
}

fn solid(width: u32, height: u32, pixel: [u8; 4]) -> LatestFrame {
    let bytes = pixel.repeat((width * height) as usize);
    let mut latest = LatestFrame::new();
    let chunk = Chunk { offset: 0, size: bytes.len() as u32, stride: 0 };
    assert!(latest.process(Some(&bytes), chunk, width, height));
    latest
}

#[test]
fn images_that_are_settled_on() {
    assert_eq!(poll_image(true, Some(image(640, 480, 2560))), Poll::Settle);
    assert_eq!(poll_image(true, Some(image(16383, 16383, 0))), Poll::Settle);
    assert_eq!(poll_image(true, Some(image(639, 480, 2560))), Poll::Wait);
    assert_eq!(poll_image(true, Some(image(640, 479, 2560))), Poll::Wait);
    assert_eq!(poll_image(true, Some(image(16384, 480, 0))), Poll::Wait);
    assert_eq!(poll_image(true, Some(image(640, 16384, 0))), Poll::Wait);
    let bare = ImageGeometry { has_data: false, ..image(640, 480, 2560) };
    assert_eq!(poll_image(true, Some(bare)), Poll::Wait);
    assert_eq!(poll_image(true, None), Poll::Wait);
    assert_eq!(poll_image(false, Some(image(640, 480, 2560))), Poll::Leave);
    assert_eq!((POLL_PAUSE_MS, FRAME_PAUSE_MS), (50, 33));
}

#[test]
fn pictures_go_into_the_image() {
    let mut injector = Injector::settle(image(640, 480, 2560));
    assert_eq!(injector.pixels().len(), 640 * 480 * 4);
    assert_eq!(injector.render(None), Ok(false));
    assert!(!injector.commit(true));

    assert_eq!(injector.render(solid(640, 480, [1, 2, 3, 4]).frame()), Ok(true));
    assert_eq!(injector.pixels(), [3, 2, 1, 4].repeat(640 * 480));
    assert!(injector.commit(true));
    // It goes in once, and not at all when it is no longer wanted.
    assert!(!injector.commit(true));
    assert_eq!(injector.render(solid(640, 480, [1, 2, 3, 4]).frame()), Ok(true));
    assert!(!injector.commit(false));
    assert!(!injector.commit(true));
    assert_eq!(injector.injected(), 1);
    // A round without a picture does not bring back the one before it.
    assert_eq!(injector.render(solid(640, 480, [1, 2, 3, 4]).frame()), Ok(true));
    assert_eq!(injector.render(None), Ok(false));
    assert!(!injector.commit(true));

    assert_eq!(injector.render(solid(2, 2, [9, 8, 7, 6]).frame()), Ok(true));
    assert_eq!(injector.pixels(), [7, 8, 9, 6].repeat(640 * 480));
}

#[test]
fn a_padded_image_takes_nothing() {
    let mut injector = Injector::settle(image(640, 480, 2600));
    assert_eq!(
        injector.render(solid(640, 480, [1, 2, 3, 4]).frame()),
        Err("Destination buffer size does not match dimensions")
    );
    assert_eq!(injector.pixels(), vec![0u8; 2600 * 480]);
    assert!(!injector.commit(true));
}

#[test]
fn an_image_is_filled_on_the_spot() {
    let mut dst = vec![5u8; 8];
    fill_image(None, &mut dst, 2, 1);
    assert_eq!(dst, vec![5u8; 8]);
    fill_image(solid(1, 1, [1, 2, 3, 4]).frame(), &mut dst, 2, 1);
    assert_eq!(dst, vec![3, 2, 1, 4, 3, 2, 1, 4]);
    // A buffer of the wrong length stays as it is.
    fill_image(solid(1, 1, [9, 9, 9, 9]).frame(), &mut dst, 3, 1);
    assert_eq!(dst, vec![3, 2, 1, 4, 3, 2, 1, 4]);
}

fn capturing() -> HookState<&'static str, &'static str> {
    let mut state = HookState::new();
    assert!(state.request());
    state.succeed("capture", "session");
    state
}

#[test]
fn the_session_ends_when_no_image_was_found() {
    let mut state = capturing();
    let (injection, step) = Injection::Seeking.advance(true, None);
    assert_eq!(step, InjectionStep::Pause(50));
    let (injection, step) = injection.advance(true, Some(image(639, 480, 2556)));
    assert_eq!(step, InjectionStep::Pause(50));
    let (injection, step) = injection.advance(false, None);
    assert_eq!(step, InjectionStep::End);
    assert!(matches!(injection, Injection::Ended));
    assert_eq!(injection.close(&mut state), (Some("capture"), Some("session")));
    assert!(state.capture().is_none());
    assert!(state.request());
}

#[test]
fn the_session_ends_after_pictures_were_shown() {
    let mut state = capturing();
    let (injection, step) = Injection::Seeking.advance(true, Some(image(640, 480, 2560)));
    assert_eq!(step, InjectionStep::Hold);
    let (injection, step) = injection.advance(true, None);
    assert_eq!(step, InjectionStep::Inject);
    match &injection {
        Injection::Injecting(injector) => {
            assert_eq!(injector.size(), (640, 480));
            assert_eq!(injector.pixels(), vec![0u8; 2560 * 480]);
        }
        other => panic!("not injecting: {:?}", other),
    }
    let (injection, step) = injection.advance(false, None);
    assert_eq!(step, InjectionStep::End);
    let (injection, step) = injection.advance(true, Some(image(640, 480, 2560)));
    assert_eq!(step, InjectionStep::End);
    assert_eq!(injection.close(&mut state), (Some("capture"), Some("session")));
    assert!(state.request());
}

#[test]
fn an_image_that_comes_too_late_is_not_settled_on() {
    let (injection, step) = Injection::Seeking.advance(false, Some(image(640, 480, 2560)));
    assert_eq!(step, InjectionStep::End);
    assert!(matches!(injection, Injection::Ended));
}

#[test]
fn room_for_a_picture() {
    let latest = solid(2, 2, [1, 2, 3, 4]);
    let frame = latest.frame().unwrap();
    assert!(has_room_for(frame, 16, 2, 2));
    assert!(has_room_for(frame, 4, 1, 1));
    assert!(has_room_for(frame, 5, 1, 1));
}

#[test]
fn pauses_between_steps() {
    assert_eq!(InjectionStep::Inject.pause_ms(), 33);
    assert_eq!(InjectionStep::Pause(50).pause_ms(), 50);
    assert_eq!(InjectionStep::Hold.pause_ms(), 0);
    assert_eq!(InjectionStep::End.pause_ms(), 0);
}
