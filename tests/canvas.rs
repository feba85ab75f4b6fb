use pixelpwnr::color::Color;
use pixelpwnr::frame::Frame;
use pixelpwnr::layout::painter_areas;
use pixelpwnr::rect::Rect;

#[test]
fn stripes_side_by_side() {
    let areas = painter_areas((100, 50), 3);
    assert_eq!(
        areas,
        vec![Rect::from(0, 0, 33, 50), Rect::from(33, 0, 33, 50), Rect::from(66, 0, 33, 50)]
    );
}

#[test]
fn stripes_disjoint_and_remainder_uncovered() {
    let (w, h) = (10u16, 2u16);
    for n in 1..=w as usize {
        let areas = painter_areas((w, h), n);
        assert_eq!(areas.len(), n);
        let stripe = w as usize / n;
        for px in 0..w as usize {
            let covering = areas
                .iter()
                .filter(|r| (r.x as usize) <= px && px < (r.x as usize) + (r.w as usize))
                .count();
            if px < n * stripe {
                assert_eq!(covering, 1);
            } else {
                assert_eq!(covering, 0);
            }
        }
    }
}

#[test]
fn stripes_edge_counts() {
    assert!(painter_areas((100, 50), 0).is_empty());
    let one = painter_areas((65535, 65535), 1);
    assert_eq!(one, vec![Rect::from(0, 0, 65535, 65535)]);
    let many = painter_areas((3, 7), 5);
    assert_eq!(many.len(), 5);
    assert!(many.iter().all(|r| r.w == 0 && r.x == 0 && r.h == 7));
}

fn c(v: u8) -> Color {
    Color::from(v, v, v, 255)
}

fn grid(w: u8, h: u8) -> Frame {
    let rows: Vec<Vec<Color>> = (0..h).map(|y| (0..w).map(|x| c(y * 10 + x)).collect()).collect();
    Frame::from_rows(rows).unwrap()
}

#[test]
fn frame_from_rows() {
    let f = grid(3, 2);
    assert_eq!((f.width(), f.height()), (3, 2));
    assert_eq!(f.get(2, 1), Some(c(12)));
    assert_eq!(f.get(3, 0), None);
    assert_eq!(f.get(0, 2), None);
    assert!(Frame::from_rows(vec![vec![c(1)], vec![]]).is_none());
    let empty = Frame::from_rows(Vec::new()).unwrap();
    assert_eq!((empty.width(), empty.height()), (0, 0));
}

#[test]
fn frame_crop_inside() {
    let f = grid(4, 3);
    let part = f.crop(&Rect::from(1, 1, 2, 2));
    assert_eq!((part.width(), part.height()), (2, 2));
    assert_eq!(part.get(0, 0), Some(c(11)));
    assert_eq!(part.get(1, 1), Some(c(22)));
}

#[test]
fn frame_crop_clamps() {
    let f = grid(4, 3);
    let part = f.crop(&Rect::from(3, 1, 10, 10));
    assert_eq!((part.width(), part.height()), (1, 2));
    assert_eq!(part.get(0, 1), Some(c(23)));
    let outside = f.crop(&Rect::from(9, 9, 2, 2));
    assert_eq!((outside.width(), outside.height()), (0, 0));
}

#[test]
fn frame_rgba_round_trip() {
    let bytes: Vec<u8> = (0..24).collect();
    let f = Frame::from_rgba(3, 2, &bytes).unwrap();
    assert_eq!(f.get(0, 0), Some(Color::from(0, 1, 2, 3)));
    assert_eq!(f.get(2, 1), Some(Color::from(20, 21, 22, 23)));
    assert_eq!(f.to_rgba(), bytes);
    assert!(Frame::from_rgba(3, 2, &bytes[..23].to_vec()).is_none());
}

#[test]
fn frame_fit_resizes() {
    let bytes: Vec<u8> = vec![200; 4 * 4 * 4];
    let f = Frame::fit(4, 4, bytes.clone(), (2, 3)).unwrap();
    assert_eq!((f.width(), f.height()), (2, 3));
    let same = Frame::fit(4, 4, bytes.clone(), (4, 4)).unwrap();
    assert_eq!(same.to_rgba(), bytes);
    assert!(Frame::fit(0, 4, Vec::new(), (2, 2)).is_none());
    assert!(Frame::fit(4, 4, vec![0; 10], (2, 2)).is_none());
}

#[test]
fn frame_fit_changes_pixels() {
    let mut bytes: Vec<u8> = Vec::new();
    for i in 0..16u8 {
        bytes.extend_from_slice(&[i * 16, 255 - i * 16, 0, 255]);
    }
    let f = Frame::fit(4, 4, bytes.clone(), (1, 1)).unwrap();
    let out = f.to_rgba();
    assert_eq!(out.len(), 4);
    assert_ne!(out[..], bytes[..4]);
}
