use std::collections::{HashMap, HashSet};
use zilog_silicon::keyboard_panel::{
    l_shape_outline, lit_areas, load_keyboard_image, virtual_keys, KeyInput, KeyRect, KeyboardImage,
    KeyboardPanel, Position, CAPS_LOCK, CONTROL, RETURN, SHIFT,
};

/// Size of the source picture, in pixels.
const IMAGE_SIZE: egui::Vec2 = egui::vec2(1801.0, 873.0);

/// A key area in pixels of the source picture.
fn px(r: KeyRect) -> egui::Rect {
    egui::Rect::from_min_max(
        egui::pos2(r.x0 as f32 / 2.0, r.y0 as f32 / 2.0),
        egui::pos2(r.x1 as f32 / 2.0, r.y1 as f32 / 2.0),
    )
}

fn half(v: f32) -> u32 {
    (v * 2.0) as u32
}

fn rect_of(r: egui::Rect) -> KeyRect {
    KeyRect { x0: half(r.min.x), y0: half(r.min.y), x1: half(r.max.x), y1: half(r.max.y) }
}

#[test]
fn l_shape_outline_follows_returns_actual_asymmetric_insets() {
    let top = egui::Rect::from_min_max(egui::pos2(1342.0, 348.0), egui::pos2(1474.0, 439.5));
    let bottom =
        egui::Rect::from_min_max(egui::pos2(1370.0, 439.5), egui::pos2(1469.0, 530.0));

    let outline: Vec<egui::Pos2> = l_shape_outline(rect_of(top), rect_of(bottom))
        .into_iter()
        .map(|(x, y)| egui::pos2(x as f32 / 2.0, y as f32 / 2.0))
        .collect();

    assert_eq!(
        outline,
        vec![
            egui::pos2(1342.0, 348.0),
            egui::pos2(1474.0, 348.0),
            egui::pos2(1474.0, 439.5),
            egui::pos2(1469.0, 439.5),
            egui::pos2(1469.0, 530.0),
            egui::pos2(1370.0, 530.0),
            egui::pos2(1370.0, 439.5),
            egui::pos2(1342.0, 439.5),
        ]
    );
}

#[test]
fn every_key_rect_stays_within_the_source_image_and_has_positive_area() {
    for key in virtual_keys() {
        let rect = px(key.rect);
        assert!(
            rect.min.x >= 0.0 && rect.max.x <= IMAGE_SIZE.x,
            "rectangle hors limites en x pour {:?} : {:?}",
            key.position,
            rect
        );
        assert!(
            rect.min.y >= 0.0 && rect.max.y <= IMAGE_SIZE.y,
            "rectangle hors limites en y pour {:?} : {:?}",
            key.position,
            rect
        );
        assert!(
            rect.min.x < rect.max.x && rect.min.y < rect.max.y,
            "rectangle degenere pour {:?} : {:?}",
            key.position,
            rect
        );
    }
}

#[test]
fn key_rects_of_different_positions_never_overlap() {
    let keys = virtual_keys();
    for (i, a) in keys.iter().enumerate() {
        for b in &keys[i + 1..] {
            if a.position == b.position {
                continue;
            }
            assert!(
                !px(a.rect).intersects(px(b.rect)),
                "chevauchement entre {:?} ({:?}) et {:?} ({:?})",
                a.position,
                a.rect,
                b.position,
                b.rect
            );
        }
    }
}

#[test]
fn only_shift_and_return_have_two_rects() {
    let mut counts: HashMap<Position, u32> = HashMap::new();
    for key in virtual_keys() {
        *counts.entry(key.position).or_insert(0) += 1;
    }
    let duplicated: Vec<Position> = counts
        .into_iter()
        .filter(|&(_, count)| count > 1)
        .map(|(position, count)| {
            assert_eq!(count, 2, "position {position:?} apparait {count} fois");
            position
        })
        .collect();
    assert_eq!(
        duplicated.len(),
        2,
        "seules SHIFT et RETURN devraient avoir deux rectangles : {duplicated:?}"
    );
    assert!(duplicated.contains(&SHIFT));
    assert!(duplicated.contains(&(2, 2)), "RETURN (2,2)");
}

#[test]
fn every_position_fits_the_psg_matrix() {
    for key in virtual_keys() {
        let (line, bit) = key.position;
        assert!(line < 10, "ligne hors bornes pour {:?}", key.position);
        assert!(bit < 8, "bit hors bornes pour {:?}", key.position);
    }
}

#[test]
fn the_key_table_has_its_measured_areas() {
    let keys = virtual_keys();
    assert_eq!(keys.len(), 75);
    assert_eq!(px(keys[0].rect), egui::Rect::from_min_max(egui::pos2(47.0, 251.0), egui::pos2(136.0, 337.0)));
    assert_eq!(keys[0].position, (8, 2));
    assert_eq!(keys[31].position, RETURN);
    assert_eq!(keys[48].position, RETURN);
    assert_eq!(keys[35].position, CAPS_LOCK);
    assert_eq!(keys[68].position, CONTROL);
    assert_eq!(keys[74].position, (0, 1));
}

fn idle() -> Vec<KeyInput> {
    vec![KeyInput { clicked: false, held: false }; virtual_keys().len()]
}

fn index_of(p: Position) -> usize {
    virtual_keys().iter().position(|k| k.position == p).unwrap()
}

fn set(v: Vec<Position>) -> HashSet<Position> {
    let s: HashSet<Position> = v.iter().copied().collect();
    assert_eq!(s.len(), v.len(), "no position twice");
    s
}

#[test]
fn shift_latches_until_another_key_is_clicked() {
    let keys = virtual_keys();
    let mut panel = KeyboardPanel::new();
    let a = index_of((8, 3));

    let mut input = idle();
    input[index_of(SHIFT)].clicked = true;
    let frame = panel.apply_frame(&keys, &input);
    // Latched from the next frame on.
    assert!(set(frame.active).is_empty());
    assert!(panel.is_latched(SHIFT));
    assert!(frame.pressed[index_of(SHIFT)]);

    let frame = panel.apply_frame(&keys, &idle());
    assert_eq!(set(frame.active), HashSet::from([SHIFT]));

    // Holding A: SHIFT still down along with A.
    let mut input = idle();
    input[a].held = true;
    let frame = panel.apply_frame(&keys, &input);
    assert_eq!(set(frame.active), HashSet::from([SHIFT, (8, 3)]));
    assert!(panel.is_latched(SHIFT));

    // Releasing the click on A: the latch goes.
    let mut input = idle();
    input[a].clicked = true;
    let frame = panel.apply_frame(&keys, &input);
    assert!(set(frame.active).is_empty());
    assert!(!panel.is_latched(SHIFT));
}

#[test]
fn a_second_click_unlatches_control() {
    let keys = virtual_keys();
    let mut panel = KeyboardPanel::new();
    let mut input = idle();
    input[index_of(CONTROL)].clicked = true;
    panel.apply_frame(&keys, &input);
    assert!(panel.is_latched(CONTROL));
    let frame = panel.apply_frame(&keys, &input);
    assert!(!panel.is_latched(CONTROL));
    assert_eq!(set(frame.active), HashSet::from([CONTROL]));
    assert!(!frame.pressed[index_of(CONTROL)]);
}

#[test]
fn caps_lock_sends_one_pulse_per_click_and_toggles_its_display() {
    let keys = virtual_keys();
    let mut panel = KeyboardPanel::new();
    let mut input = idle();
    input[index_of(CAPS_LOCK)].clicked = true;
    input[index_of(CAPS_LOCK)].held = true;
    let frame = panel.apply_frame(&keys, &input);
    assert_eq!(set(frame.active), HashSet::from([CAPS_LOCK]));
    assert!(panel.caps_lock_display());
    assert!(frame.pressed[index_of(CAPS_LOCK)]);
    // Held, not clicked: no pulse.
    let mut held = idle();
    held[index_of(CAPS_LOCK)].held = true;
    let frame = panel.apply_frame(&keys, &held);
    assert!(set(frame.active).is_empty());
    assert!(panel.caps_lock_display());
    panel.apply_frame(&keys, &input);
    assert!(!panel.caps_lock_display());
}

#[test]
fn both_return_areas_press_the_same_key_once() {
    let keys = virtual_keys();
    let mut panel = KeyboardPanel::new();
    let mut input = idle();
    input[31].held = true;
    input[48].held = true;
    let frame = panel.apply_frame(&keys, &input);
    assert_eq!(frame.active, vec![RETURN]);
    assert!(frame.pressed[31] && frame.pressed[48]);
}

#[test]
fn the_keyboard_picture_decodes_to_rgba() {
    let mut png = Vec::new();
    let img = image::RgbImage::from_fn(3, 2, |x, y| image::Rgb([x as u8, y as u8, 7]));
    img.write_to(&mut std::io::Cursor::new(&mut png), image::ImageFormat::Png).unwrap();
    let decoded: KeyboardImage = load_keyboard_image(&png).unwrap();
    assert_eq!(decoded.size, [3, 2]);
    assert_eq!(decoded.rgba.len(), 3 * 2 * 4);
    assert_eq!(&decoded.rgba[0..8], &[0, 0, 7, 255, 1, 0, 7, 255]);
    assert!(load_keyboard_image(b"not a picture").is_err());
}

#[test]
fn a_decoded_picture_keeps_its_size_and_bytes() {
    let img = KeyboardImage::from_decoded(1801, 873, vec![1, 2, 3, 4]);
    assert_eq!(img.size, [1801, 873]);
    assert_eq!(img.rgba, vec![1, 2, 3, 4]);
}

#[test]
fn both_areas_of_a_key_light_up_together() {
    let keys = virtual_keys();
    let mut pressed = vec![false; keys.len()];
    let mut hovered = vec![false; keys.len()];
    pressed[52] = true; // left SHIFT
    hovered[48] = true; // lower part of RETURN
    hovered[0] = true;
    let lit = lit_areas(&keys, &pressed, &hovered);
    assert_eq!(lit[52], (true, false));
    assert_eq!(lit[64], (true, false));
    assert_eq!(lit[31], (false, true));
    assert_eq!(lit[48], (false, true));
    assert_eq!(lit[0], (false, true));
    assert_eq!(lit.iter().filter(|l| l.0 || l.1).count(), 5);
}
