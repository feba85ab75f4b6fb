use pixelpwnr::color::Color;
use pixelpwnr::frame::Frame;
use pixelpwnr::image_manager::{frame_delay_ms, ImageManager, Tick};
use pixelpwnr::painter::{Painter, Step};
use pixelpwnr::rect::Rect;
use pixelpwnr::supervisor::{Action, Event, Link, Supervisor, RECONNECT_DELAY_MS};

fn solid(w: usize, h: usize, color: Color) -> Frame {
    Frame::from_rows(vec![vec![color; w]; h]).unwrap()
}

fn numbered(w: u8, h: u8) -> Frame {
    let rows = (0..h)
        .map(|y| (0..w).map(|x| Color::from(x, y, 0, 255)).collect())
        .collect();
    Frame::from_rows(rows).unwrap()
}

#[test]
fn painter_waits_for_a_frame() {
    let mut p = Painter::new(Rect::from(0, 0, 2, 2), (0, 0), None);
    assert!(!p.has_image());
    assert_eq!(p.step(), Step::Wait);
    assert_eq!(p.step(), Step::Wait);
}

#[test]
fn painter_scans_columns_then_flushes() {
    let mut p = Painter::new(Rect::from(10, 20, 2, 2), (1, 2), Some(numbered(2, 2)));
    let mut seen = Vec::new();
    for _ in 0..5 {
        seen.push(p.step());
    }
    assert_eq!(
        seen,
        vec![
            Step::Paint { x: 11, y: 22, color: Color::from(0, 0, 0, 255) },
            Step::Paint { x: 11, y: 23, color: Color::from(0, 1, 0, 255) },
            Step::Paint { x: 12, y: 22, color: Color::from(1, 0, 0, 255) },
            Step::Paint { x: 12, y: 23, color: Color::from(1, 1, 0, 255) },
            Step::Flush,
        ]
    );
    // The next pass starts over.
    assert_eq!(p.step(), Step::Paint { x: 11, y: 22, color: Color::from(0, 0, 0, 255) });
}

#[test]
fn painter_skips_transparent_and_off_canvas() {
    let clear = Color::from(9, 9, 9, 0);
    let mut p = Painter::new(Rect::from(0, 0, 1, 1), (0, 0), Some(solid(1, 1, clear)));
    assert_eq!(p.step(), Step::Skip);
    assert_eq!(p.step(), Step::Flush);
    let red = Color::from(255, 0, 0, 255);
    let mut q = Painter::new(Rect::from(0, 0, 2, 1), (-1, 0), Some(solid(2, 1, red)));
    assert_eq!(q.step(), Step::Skip);
    assert_eq!(q.step(), Step::Paint { x: 0, y: 0, color: red });
    let mut r = Painter::new(Rect::from(65535, 0, 1, 1), (1, 0), Some(solid(1, 1, red)));
    assert_eq!(r.step(), Step::Skip);
}

#[test]
fn painter_skips_outside_a_small_frame() {
    let red = Color::from(255, 0, 0, 255);
    let mut p = Painter::new(Rect::from(0, 0, 1, 2), (0, 0), Some(solid(1, 1, red)));
    assert_eq!(p.step(), Step::Paint { x: 0, y: 0, color: red });
    assert_eq!(p.step(), Step::Skip);
    assert_eq!(p.step(), Step::Flush);
}

#[test]
fn painter_swaps_frame_mid_scan() {
    let red = Color::from(255, 0, 0, 255);
    let blue = Color::from(0, 0, 255, 255);
    let mut p = Painter::new(Rect::from(0, 0, 1, 3), (0, 0), Some(solid(1, 3, red)));
    assert_eq!(p.step(), Step::Paint { x: 0, y: 0, color: red });
    p.set_image(solid(1, 3, blue));
    assert_eq!(p.step(), Step::Paint { x: 0, y: 1, color: blue });
    assert_eq!(p.step(), Step::Paint { x: 0, y: 2, color: blue });
    assert_eq!(p.step(), Step::Flush);
}

#[test]
fn painter_empty_area_only_flushes() {
    let red = Color::from(255, 0, 0, 255);
    let mut p = Painter::new(Rect::from(5, 5, 0, 4), (0, 0), Some(solid(1, 1, red)));
    assert_eq!(p.step(), Step::Flush);
    assert_eq!(p.step(), Step::Flush);
    assert_eq!(p.area(), Rect::from(5, 5, 0, 4));
}

#[test]
fn dropped_connection_restarts_the_pass() {
    let red = Color::from(255, 0, 0, 255);
    let mut p = Painter::new(Rect::from(0, 0, 1, 3), (0, 0), Some(solid(1, 3, red)));
    let mut s = Supervisor::new();
    assert_eq!(s.link(), Link::Disconnected);
    assert_eq!(s.on_event(&mut p, Event::Connected), Action::Paint);
    assert_eq!(p.step(), Step::Paint { x: 0, y: 0, color: red });
    assert_eq!(p.step(), Step::Paint { x: 0, y: 1, color: red });
    // The write of the third pixel fails.
    assert_eq!(s.on_event(&mut p, Event::WorkFailed), Action::Sleep(RECONNECT_DELAY_MS));
    assert_eq!(s.link(), Link::BackingOff);
    assert_eq!(s.on_event(&mut p, Event::BackoffElapsed), Action::Connect);
    assert_eq!(s.on_event(&mut p, Event::ConnectFailed), Action::Sleep(500));
    assert_eq!(s.on_event(&mut p, Event::BackoffElapsed), Action::Connect);
    assert_eq!(s.on_event(&mut p, Event::Connected), Action::Paint);
    assert_eq!(s.link(), Link::Connected);
    assert_eq!(p.step(), Step::Paint { x: 0, y: 0, color: red });
}

#[test]
fn single_frame_is_pushed_once() {
    let mut m = ImageManager::from(vec![(solid(1, 1, Color::from(1, 2, 3, 255)), None)]);
    assert_eq!(m.tick(), Tick::Show { index: 0, duration: None });
    assert_eq!(m.tick(), Tick::Keep);
    assert_eq!(m.tick(), Tick::Keep);
    assert!(m.frame(0).is_some());
    assert!(m.frame(1).is_none());
}

#[test]
fn animation_cycles_with_durations() {
    let f = || solid(1, 1, Color::from(1, 2, 3, 255));
    let mut m = ImageManager::from(vec![(f(), Some(100)), (f(), Some(200)), (f(), Some(300))]);
    assert_eq!(m.len(), 3);
    let mut seen = Vec::new();
    for _ in 0..7 {
        seen.push(m.tick());
    }
    assert_eq!(
        seen,
        vec![
            Tick::Show { index: 0, duration: Some(100) },
            Tick::Show { index: 1, duration: Some(200) },
            Tick::Show { index: 2, duration: Some(300) },
            Tick::Show { index: 0, duration: Some(100) },
            Tick::Show { index: 1, duration: Some(200) },
            Tick::Show { index: 2, duration: Some(300) },
            Tick::Show { index: 0, duration: Some(100) },
        ]
    );
}

#[test]
fn two_frames_alternate() {
    let f = || solid(1, 1, Color::from(1, 2, 3, 255));
    let mut m = ImageManager::from(vec![(f(), None), (f(), None)]);
    assert_eq!(m.tick(), Tick::Show { index: 0, duration: None });
    assert_eq!(m.tick(), Tick::Show { index: 1, duration: None });
    assert_eq!(m.tick(), Tick::Show { index: 0, duration: None });
}

#[test]
fn no_frames_push_nothing() {
    let mut m = ImageManager::from(Vec::new());
    assert_eq!(m.tick(), Tick::Keep);
}

#[test]
fn delay_between_frames() {
    assert_eq!(frame_delay_ms(Some(250), 1), 250);
    assert_eq!(frame_delay_ms(None, 1), 1000);
    assert_eq!(frame_delay_ms(None, 3), 333);
    assert_eq!(frame_delay_ms(None, 2000), 0);
    assert_eq!(frame_delay_ms(None, 0), u64::MAX);
}
