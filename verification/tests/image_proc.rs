use dingtalk_wayland_screenshare::image_proc::{
    check_sizes, copy_swapped, finish_resample, has_scratch_room, image_len, resize_and_convert, swap_red_blue,
    ResampleFailure,
};

#[test]
fn test_identical_size_swap() {
    // A 2x2 image where each pixel is [R, G, B, A]
    let src = vec![
        255, 0, 0, 255,
        0, 255, 0, 255,
        0, 0, 255, 255,
        10, 20, 30, 40,
    ];
    let mut dst = vec![0u8; 16];

    let res = resize_and_convert(&src, 2, 2, &mut dst, 2, 2);
    assert!(res.is_ok());

    let expected = vec![
        0, 0, 255, 255,
        0, 255, 0, 255,
        255, 0, 0, 255,
        30, 20, 10, 40,
    ];
    assert_eq!(dst, expected);
}

#[test]
fn test_downscale_and_swap() {
    // A 4x4 image with constant solid red [255, 0, 0, 255]
    let src = vec![255, 0, 0, 255].repeat(16);
    let mut dst = vec![0u8; 4]; // 1x1 destination

    let res = resize_and_convert(&src, 4, 4, &mut dst, 1, 1);
    assert!(res.is_ok());

    // Since it's solid red, after swap it should be solid blue [0, 0, 255, 255]
    assert_eq!(dst, vec![0, 0, 255, 255]);
}

#[test]
fn test_validation() {
    let src = vec![0u8; 16];
    let mut dst = vec![0u8; 16];

    // Invalid dimensions (zero)
    assert!(resize_and_convert(&src, 0, 2, &mut dst, 2, 2).is_err());
    assert!(resize_and_convert(&src, 2, 2, &mut dst, 2, 0).is_err());

    // Source buffer size mismatch
    assert!(resize_and_convert(&src[..12], 2, 2, &mut dst, 2, 2).is_err());

    // Destination buffer size mismatch
    assert!(resize_and_convert(&src, 2, 2, &mut dst[..12], 2, 2).is_err());
}

#[test]
fn each_rejection_has_its_reason() {
    let src = vec![0u8; 16];
    let mut dst = vec![7u8; 16];
    let big = u32::MAX;
    assert_eq!(
        resize_and_convert(&src, 2, 0, &mut dst, 2, 2),
        Err("Dimensions cannot be zero")
    );
    assert_eq!(
        resize_and_convert(&src, big, big, &mut dst, 2, 2),
        Err("Overflow calculating source buffer size")
    );
    assert_eq!(
        resize_and_convert(&src, 2, 2, &mut dst, big, big),
        Err("Overflow calculating destination buffer size")
    );
    assert_eq!(
        resize_and_convert(&src[..12], 2, 2, &mut dst[..12], 2, 2),
        Err("Source buffer size does not match dimensions")
    );
    assert_eq!(
        resize_and_convert(&src, 2, 2, &mut dst[..12], 2, 2),
        Err("Destination buffer size does not match dimensions")
    );
    // None of them has written anything.
    assert_eq!(dst, vec![7u8; 16]);
}

#[test]
fn halving_averages_neighbours() {
    let src = vec![0, 10, 20, 30, 100, 30, 40, 50];
    let mut dst = vec![0u8; 4];
    assert_eq!(resize_and_convert(&src, 2, 1, &mut dst, 1, 1), Ok(()));
    assert_eq!(dst, vec![30, 20, 50, 40]);
}

#[test]
fn enlarging_repeats_a_single_pixel() {
    let src = vec![1, 2, 3, 4];
    let mut dst = vec![0u8; 24];
    assert_eq!(resize_and_convert(&src, 1, 1, &mut dst, 2, 3), Ok(()));
    assert_eq!(dst, vec![3, 2, 1, 4].repeat(6));
}

#[test]
fn converting_twice_gives_the_image_back() {
    let src: Vec<u8> = (0..48).collect();
    let mut once = vec![0u8; 48];
    let mut twice = vec![0u8; 48];
    assert_eq!(resize_and_convert(&src, 4, 3, &mut once, 4, 3), Ok(()));
    assert_ne!(once, src);
    assert_eq!(resize_and_convert(&once, 4, 3, &mut twice, 4, 3), Ok(()));
    assert_eq!(twice, src);
}

#[test]
fn swapping_leaves_an_incomplete_pixel() {
    let mut pixels = vec![1, 2, 3, 4, 5, 6, 7];
    swap_red_blue(&mut pixels);
    assert_eq!(pixels, vec![3, 2, 1, 4, 5, 6, 7]);
    swap_red_blue(&mut pixels);
    assert_eq!(pixels, vec![1, 2, 3, 4, 5, 6, 7]);
}

#[test]
fn copying_swaps_every_pixel() {
    let mut dst = vec![0u8; 8];
    copy_swapped(&[1, 2, 3, 4, 5, 6, 7, 8], &mut dst);
    assert_eq!(dst, vec![3, 2, 1, 4, 7, 6, 5, 8]);
}

#[test]
fn outcome_of_a_rescaling_decides() {
    let mut dst = vec![1, 2, 3, 4];
    assert_eq!(
        finish_resample(Err(ResampleFailure::Setup), &mut dst),
        Err("Failed to initialize resizer")
    );
    assert_eq!(finish_resample(Err(ResampleFailure::Run), &mut dst), Err("Resizing failed"));
    assert_eq!(dst, vec![1, 2, 3, 4]);
    assert_eq!(finish_resample(Ok(()), &mut dst), Ok(()));
    assert_eq!(dst, vec![3, 2, 1, 4]);
}

#[test]
fn image_lengths() {
    assert_eq!(image_len(1280, 720), Some(3_686_400));
    assert_eq!(image_len(0, 5), Some(0));
    assert_eq!(image_len(usize::MAX, 2), None);
    assert_eq!(image_len(usize::MAX / 4 + 1, 1), None);
    assert!(has_scratch_room(4096, 4096));
    assert_eq!(has_scratch_room(u32::MAX, u32::MAX), usize::BITS == 64);
}

#[test]
fn red_and_blue_are_treated_alike() {
    let src: Vec<u8> = (0..60).map(|i| (i * 37 % 251) as u8).collect();
    let mut exchanged = src.clone();
    swap_red_blue(&mut exchanged);
    for (width, height) in [(5, 3), (2, 2), (7, 4), (1, 9)] {
        let mut plain = vec![0u8; (width * height * 4) as usize];
        let mut other = plain.clone();
        assert_eq!(resize_and_convert(&src, 5, 3, &mut plain, width, height), Ok(()));
        assert_eq!(resize_and_convert(&exchanged, 5, 3, &mut other, width, height), Ok(()));
        swap_red_blue(&mut plain);
        assert_eq!(other, plain);
    }
}

#[test]
fn sizes_are_checked_without_buffers() {
    assert_eq!(check_sizes(16, 2, 2, 4, 1, 1), Ok(()));
    assert_eq!(check_sizes(16, 2, 2, 4, 1, 0), Err("Dimensions cannot be zero"));
    assert_eq!(
        check_sizes(15, 2, 2, 4, 1, 1),
        Err("Source buffer size does not match dimensions")
    );
    assert_eq!(
        check_sizes(16, 2, 2, 5, 1, 1),
        Err("Destination buffer size does not match dimensions")
    );
}
