use perth::animation::{AnimationEngine, AnimationFrame, CandycaneAnimation, DirtyRegion};

#[test]
fn test_pattern_generation() {
    let mut anim = CandycaneAnimation::new(8, 0, 0);

    // Frame 0: Pattern starts at beginning
    let frame0 = anim.next_frame().unwrap();
    assert_eq!(frame0.content, "█▓▒░█▓▒░");

    // Frame 1: Pattern shifts left by 1 (appears to move right)
    let frame1 = anim.next_frame().unwrap();
    assert_eq!(frame1.content, "▓▒░█▓▒░█");

    // Frame 2: Pattern continues shifting
    let frame2 = anim.next_frame().unwrap();
    assert_eq!(frame2.content, "▒░█▓▒░█▓");

    // Frame 3: Pattern continues
    let frame3 = anim.next_frame().unwrap();
    assert_eq!(frame3.content, "░█▓▒░█▓▒");

    // Frame 4: Pattern wraps around (4 % 4 = 0, back to start)
    let frame4 = anim.next_frame().unwrap();
    assert_eq!(frame4.content, "█▓▒░█▓▒░");
}

#[test]
fn test_pattern_width() {
    let mut anim = CandycaneAnimation::new(4, 0, 0);
    let frame = anim.next_frame().unwrap();
    // Unicode characters are multi-byte, so check character count not byte length
    assert_eq!(frame.content.chars().count(), 4);
    assert_eq!(frame.content, "█▓▒░");
}

#[test]
fn test_dirty_region() {
    let mut anim = CandycaneAnimation::new(10, 5, 2);
    let frame = anim.next_frame().unwrap();

    assert_eq!(frame.dirty_regions.len(), 1);
    let region = &frame.dirty_regions[0];
    assert_eq!(region.x, 2); // x_offset
    assert_eq!(region.y, 5); // y_position
    assert_eq!(region.width, 10); // animation width
    assert_eq!(region.height, 1); // horizontal bar
}

#[test]
fn test_reset() {
    let mut anim = CandycaneAnimation::new(8, 0, 0);

    // Advance a few frames
    anim.next_frame();
    anim.next_frame();
    anim.next_frame();

    // Reset should go back to frame 0
    anim.reset();
    let frame = anim.next_frame().unwrap();
    assert_eq!(frame.content, "█▓▒░█▓▒░");
}

#[test]
fn test_target_fps() {
    let anim = CandycaneAnimation::new(8, 0, 0);
    assert_eq!(anim.target_fps(), 60);

    let custom_anim = CandycaneAnimation::new(8, 0, 0).with_fps(30);
    assert_eq!(custom_anim.target_fps(), 30);
}

#[test]
fn test_pattern_continuity() {
    // Verify pattern cycles correctly over multiple frames
    let mut anim = CandycaneAnimation::new(4, 0, 0);

    let frames: Vec<String> = (0..8)
        .map(|_| anim.next_frame().unwrap().content)
        .collect();

    // After 4 frames, pattern should repeat (pattern length is 4)
    assert_eq!(frames[0], frames[4]);
    assert_eq!(frames[1], frames[5]);
    assert_eq!(frames[2], frames[6]);
    assert_eq!(frames[3], frames[7]);
}

#[test]
fn test_infinite_animation() {
    // Candycane animation is infinite - next_frame() always returns Some
    let mut anim = CandycaneAnimation::new(8, 0, 0);

    for _ in 0..1000 {
        assert!(anim.next_frame().is_some());
    }
}

#[test]
fn test_dirty_region_equality() {
    let region1 = DirtyRegion { x: 0, y: 0, width: 10, height: 1 };
    let region2 = DirtyRegion { x: 0, y: 0, width: 10, height: 1 };
    assert_eq!(region1, region2);
}

#[test]
fn test_generate_pattern_matches_next_frame() {
    let mut anim = CandycaneAnimation::new(5, 0, 0);
    assert_eq!(anim.generate_pattern(), "█▓▒░█");
    let frame = anim.next_frame().unwrap();
    assert_eq!(frame.content, "█▓▒░█");
    assert_eq!(anim.generate_pattern(), "▓▒░█▓");
}

#[test]
fn test_empty_bar() {
    let mut anim = CandycaneAnimation::new(0, 3, 4);
    let frame = anim.next_frame().unwrap();
    assert_eq!(frame.content, "");
    assert_eq!(frame.dirty_regions, vec![DirtyRegion { x: 4, y: 3, width: 0, height: 1 }]);
}

#[test]
fn test_pattern_shifts_by_one_cell() {
    let mut anim = CandycaneAnimation::new(9, 0, 0);
    let now: Vec<char> = anim.next_frame().unwrap().content.chars().collect();
    let next: Vec<char> = anim.next_frame().unwrap().content.chars().collect();
    for i in 0..8 {
        assert_eq!(next[i], now[i + 1]);
    }
}

#[test]
fn test_with_fps_keeps_the_bar() {
    let mut anim = CandycaneAnimation::new(3, 7, 9).with_fps(24);
    assert_eq!(anim.target_fps(), 24);
    let frame = anim.next_frame().unwrap();
    assert_eq!(frame.content, "█▓▒");
    assert_eq!(frame.dirty_regions[0], DirtyRegion { x: 9, y: 7, width: 3, height: 1 });
}

#[test]
fn test_frame_keeps_what_it_is_given() {
    let regions = vec![
        DirtyRegion { x: 1, y: 2, width: 3, height: 4 },
        DirtyRegion { x: 5, y: 6, width: 7, height: 8 },
    ];
    let frame = AnimationFrame::new("abc".to_string(), regions.clone());
    assert_eq!(frame.content, "abc");
    assert_eq!(frame.dirty_regions, regions);
}

#[test]
fn test_frame_copy_keeps_the_timestamp() {
    let frame = AnimationFrame::new("x".to_string(), Vec::new());
    let copy = frame.clone();
    assert_eq!(copy.timestamp, frame.timestamp);
    assert_eq!(copy.content, "x");
}
