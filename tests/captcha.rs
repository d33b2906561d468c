use base64::engine::general_purpose;
use base64::Engine;
use captcha_rs::canvas::{get_color, get_image, Canvas, DARK, DARK_BASIC_COLOR, LIGHT, LIGHT_BASIC_COLOR};
use captcha_rs::distortion::apply_wavy_distortion;
use captcha_rs::encode::{jpeg_data_uri, to_base64_str, to_jpeg_bytes};
use captcha_rs::scene::{
    draw_interference_ellipse, draw_interference_line, glyph_layout, noise_for, GlyphScale, Noise,
};
use captcha_rs::text::{generate, get_captcha, get_rnd, BASIC_CHAR};
use captcha_rs::CaptchaBuilder;

#[test]
fn it_generates_a_captcha() {
    let _dark_mode = false;
    let _text_length = 5;
    let _width = 130;
    let _height = 40;

    let start = std::time::Instant::now();

    let captcha = CaptchaBuilder::new()
        .text(String::from("based"))
        .width(200)
        .height(70)
        .dark_mode(false)
        .build();

    let duration = start.elapsed();
    println!("Time elapsed in generating captcha() is: {:?}", duration);

    assert_eq!(captcha.text.len(), 5);
    let base_img = captcha.to_base64();
    assert!(base_img.starts_with("data:image/jpeg;base64,"));
    println!("text: {}", captcha.text);
    println!("base_img: {}", base_img);
}

#[test]
fn it_generates_captcha_using_builder() {
    let start = std::time::Instant::now();
    let captcha = CaptchaBuilder::new()
        .length(5)
        .width(200)
        .height(70)
        .dark_mode(false)
        .complexity(5)
        .build();

    let duration = start.elapsed();
    println!("Time elapsed in generating captcha() is: {:?}", duration);

    assert_eq!(captcha.text.len(), 5);
    let base_img = captcha.to_base64();
    assert!(base_img.starts_with("data:image/jpeg;base64,"));
    println!("text: {}", captcha.text);
    println!("base_img: {}", base_img);
}

#[test]
fn test_large_text() {
    let large_text = "A".repeat(10_000_000);
    let _ = CaptchaBuilder::new().text(large_text).build();
    println!("Done large text");
}

#[test]
fn given_text_is_used_verbatim() {
    let captcha = CaptchaBuilder::new().text(String::from("based")).width(200).height(70).build();
    assert_eq!(captcha.text, "based");
    assert_eq!(captcha.image.width(), 200);
    assert_eq!(captcha.image.height(), 70);
    assert!(captcha.to_base64().starts_with("data:image/jpeg;base64,"));
}

#[test]
fn empty_text_falls_back_to_a_drawn_one() {
    let captcha = CaptchaBuilder::new().text(String::new()).length(7).build();
    assert_eq!(captcha.text.chars().count(), 7);
    assert!(captcha.text.chars().all(|c| BASIC_CHAR.contains(&c)));
}

#[test]
fn length_and_characters_fix_the_drawn_text() {
    let captcha = CaptchaBuilder::new().length(10).characters(vec!['A', 'B']).build();
    assert_eq!(captcha.text.len(), 10);
    assert!(captcha.text.chars().all(|c| c == 'A' || c == 'B'));
}

#[test]
fn empty_characters_are_ignored() {
    let captcha = CaptchaBuilder::new().characters(vec![]).length(6).build();
    assert_eq!(captcha.text.chars().count(), 6);
    assert!(captcha.text.chars().all(|c| BASIC_CHAR.contains(&c)));
}

#[test]
fn generate_draws_the_requested_length_from_the_set() {
    let set = vec!['x', 'y', 'z'];
    for length in 1..=16 {
        let s = generate(&set, length);
        assert_eq!(s.chars().count(), length);
        assert!(s.chars().all(|c| set.contains(&c)));
    }
}

#[test]
fn generate_clamps_the_length() {
    let set = vec!['q'];
    assert_eq!(generate(&set, 0), "q");
    assert_eq!(generate(&set, 40), "q".repeat(16));
}

#[test]
fn get_captcha_gives_single_characters_of_the_alphabet() {
    let parts = get_captcha(12);
    assert_eq!(parts.len(), 12);
    for p in &parts {
        assert_eq!(p.chars().count(), 1);
        assert!(BASIC_CHAR.contains(&p.chars().next().unwrap()));
    }
    let one = get_captcha(0);
    assert_eq!(one.len(), 1);
    assert!(BASIC_CHAR.contains(&one[0].chars().next().unwrap()));
    assert_eq!(get_captcha(30).len(), 16);
}

#[test]
fn get_rnd_stays_in_range() {
    for _ in 0..200 {
        assert!(get_rnd(4) <= 4);
    }
    assert_eq!(get_rnd(0), 0);
}

#[test]
fn sizes_and_levels_are_clamped() {
    let small = CaptchaBuilder::new().width(10).height(5).build();
    assert_eq!(small.image.width(), 30);
    assert_eq!(small.image.height(), 20);
    let large = CaptchaBuilder::new().width(5000).height(4000).length(99).build();
    assert_eq!(large.image.width(), 2000);
    assert_eq!(large.image.height(), 2000);
    assert_eq!(large.text.chars().count(), 16);
    let q = CaptchaBuilder::new().compression(0).complexity(0).build();
    assert_eq!(q.compression, 1);
    assert_eq!(q.scene.noise, None);
    let q = CaptchaBuilder::new().compression(200).complexity(50).build();
    assert_eq!(q.compression, 99);
    assert_eq!(q.scene.noise, Some(Noise { mean: 9, stddev: 45, salt_pepper_per_mille: 18 }));
}

#[test]
fn defaults() {
    let c = CaptchaBuilder::new().build();
    assert_eq!(c.text.chars().count(), 5);
    assert_eq!(c.image.width(), 130);
    assert_eq!(c.image.height(), 40);
    assert!(!c.dark_mode);
    assert_eq!(c.compression, 40);
    assert_eq!(c.scene.curves.len(), 2);
    assert_eq!(c.scene.rings.len(), 2);
    assert_eq!(c.scene.distortion, 0);
    assert_eq!(c.scene.noise, None);
    assert!(!c.scene.glyphs.shadow);
}

#[test]
fn background_follows_the_mode() {
    let light = CaptchaBuilder::new().build();
    assert!(light.image.pixels().iter().all(|p| *p == LIGHT));
    let dark = CaptchaBuilder::new().dark_mode(true).build();
    assert!(dark.image.pixels().iter().all(|p| *p == DARK));
    assert!(dark.scene.glyphs.colors.iter().all(|c| DARK_BASIC_COLOR.contains(c)));
    assert!(light.scene.glyphs.colors.iter().all(|c| LIGHT_BASIC_COLOR.contains(c)));
}

#[test]
fn options_reach_the_scene() {
    let c = CaptchaBuilder::new()
        .drop_shadow(true)
        .interference_lines(8)
        .interference_ellipses(6)
        .distortion(5)
        .complexity(3)
        .build();
    assert!(c.scene.glyphs.shadow);
    assert_eq!(c.scene.curves.len(), 8);
    assert_eq!(c.scene.rings.len(), 6);
    assert_eq!(c.scene.distortion, 5);
    assert_eq!(c.scene.noise, Some(Noise { mean: 2, stddev: 10, salt_pepper_per_mille: 4 }));
}

#[test]
fn noise_levels() {
    assert_eq!(noise_for(1), None);
    assert_eq!(noise_for(0), None);
    assert_eq!(noise_for(2), Some(Noise { mean: 1, stddev: 5, salt_pepper_per_mille: 2 }));
    assert_eq!(noise_for(10), Some(Noise { mean: 9, stddev: 45, salt_pepper_per_mille: 18 }));
}

#[test]
fn glyph_layout_slots_and_tiers() {
    let g = glyph_layout(5, 200, 70, false, true);
    assert_eq!(g.scale, GlyphScale::Medium);
    assert_eq!(g.slot_width, 38);
    assert_eq!(g.top, 20);
    assert!(g.shadow);
    assert_eq!(g.colors.len(), 5);
    assert_eq!(g.x_of(0), 5);
    assert_eq!(g.x_of(4), 5 + 4 * 38);
    assert_eq!(glyph_layout(3, 130, 40, false, false).scale, GlyphScale::Large);
    assert_eq!(glyph_layout(1, 130, 40, false, false).scale, GlyphScale::Large);
    assert_eq!(glyph_layout(6, 130, 40, false, false).scale, GlyphScale::Small);
    assert_eq!(glyph_layout(4, 130, 40, false, false).scale, GlyphScale::Medium);
    assert_eq!(glyph_layout(0, 130, 40, false, false).slot_width, 0);
    assert_eq!(glyph_layout(2, 20, 20, false, false).top, -5);
}

#[test]
fn decoy_curves_cross_the_text_band() {
    for _ in 0..50 {
        let c = draw_interference_line(200, 70, true).unwrap();
        assert_eq!(c.start.0, 5);
        assert!(5 <= c.start.1 && c.start.1 <= 35);
        assert_eq!(c.end.0, 195);
        assert!(35 <= c.end.1 && c.end.1 <= 65);
        assert!(50 <= c.control1.0 && c.control1.0 <= 150);
        assert!(50 <= c.control2.0 && c.control2.0 <= 150);
        assert!(5 <= c.control1.1 && c.control1.1 <= 65);
        assert!(DARK_BASIC_COLOR.contains(&c.color));
    }
    assert!(draw_interference_line(5, 70, false).is_none());
    assert!(draw_interference_line(200, 9, false).is_none());
    let c = draw_interference_line(6, 10, false).unwrap();
    assert_eq!((c.start, c.end.0), ((5, 5), 1));
}

#[test]
fn decoy_rings_stay_in_bounds() {
    for _ in 0..50 {
        let g = draw_interference_ellipse(130, 40, false).unwrap();
        assert!(10 <= g.radius && g.radius <= 15);
        assert!(g.radius <= g.center.0 && g.center.0 + g.radius < 130);
        assert!(g.radius <= g.center.1 && g.center.1 + g.radius < 40);
        assert!(LIGHT_BASIC_COLOR.contains(&g.color));
    }
    for _ in 0..50 {
        let g = draw_interference_ellipse(130, 20, true).unwrap();
        assert_eq!(g.radius, 9);
        assert!(9 <= g.center.1 && g.center.1 <= 10);
        assert!(DARK_BASIC_COLOR.contains(&g.color));
    }
    assert!(draw_interference_ellipse(5, 40, false).is_none());
    assert!(draw_interference_ellipse(130, 5, false).is_none());
    let g = draw_interference_ellipse(6, 6, false).unwrap();
    assert_eq!(g.radius, 2);
    assert!(2 <= g.center.0 && g.center.0 <= 3);
    assert!(2 <= g.center.1 && g.center.1 <= 3);
}

#[test]
fn built_rings_fit_the_canvas() {
    let c = CaptchaBuilder::new().width(200).height(70).interference_ellipses(20).build();
    for g in &c.scene.rings {
        assert!(g.radius <= g.center.0 && g.center.0 + g.radius < 200);
        assert!(g.radius <= g.center.1 && g.center.1 + g.radius < 70);
    }
}

#[test]
fn get_color_uses_the_palette() {
    for _ in 0..50 {
        assert!(LIGHT_BASIC_COLOR.contains(&get_color(false)));
        assert!(DARK_BASIC_COLOR.contains(&get_color(true)));
    }
}

#[test]
fn drawing_rings_only_uses_ring_colors() {
    let mut c = CaptchaBuilder::new().interference_ellipses(4).build();
    let before = c.image.pixels().clone();
    c.draw_rings();
    let colors: Vec<[u8; 3]> = c.scene.rings.iter().map(|g| g.color).collect();
    let after = c.image.pixels();
    assert_eq!(after.len(), before.len());
    let mut changed = 0;
    for (a, b) in after.iter().zip(before.iter()) {
        if a != b {
            changed += 1;
            assert!(colors.contains(a));
        }
    }
    assert!(changed > 0);
}

#[test]
fn canvas_pixels_round_trip() {
    let mut c = Canvas::filled(3, 2, [1, 2, 3]);
    assert_eq!(c.get_pixel(2, 1), [1, 2, 3]);
    c.set_pixel(2, 1, [9, 9, 9]);
    assert_eq!(c.get_pixel(2, 1), [9, 9, 9]);
    assert_eq!(c.pixels()[5], [9, 9, 9]);
    assert_eq!(c.get_pixel(1, 1), [1, 2, 3]);
}

fn numbered(w: u32, h: u32) -> Canvas {
    let mut c = Canvas::filled(w, h, [0, 0, 0]);
    for y in 0..h {
        for x in 0..w {
            c.set_pixel(x, y, [x as u8, y as u8, 7]);
        }
    }
    c
}

#[test]
fn distortion_level_zero_is_identity() {
    let mut c = numbered(4, 3);
    let before = c.pixels().clone();
    apply_wavy_distortion(&mut c, 0, &vec![3, -2, 1], &vec![1, 1, -1, 2]);
    assert_eq!(c.pixels(), &before);
}

#[test]
fn distortion_reads_shifted_and_clamped_pixels() {
    let mut c = numbered(4, 3);
    apply_wavy_distortion(&mut c, 2, &vec![1, -5, 0], &vec![0, 1, 9, -1]);
    // (0,0): x + 1 = 1, y + 0 = 0
    assert_eq!(c.get_pixel(0, 0), [1, 0, 7]);
    // (1,0): x + 1 = 2, y + 1 = 1
    assert_eq!(c.get_pixel(1, 0), [2, 1, 7]);
    // (3,0): x + 1 = 4 -> 3, y - 1 -> 0
    assert_eq!(c.get_pixel(3, 0), [3, 0, 7]);
    // (2,1): x - 5 -> 0, y + 9 -> 2
    assert_eq!(c.get_pixel(2, 1), [0, 2, 7]);
    // (3,2): x + 0 = 3, y - 1 = 1
    assert_eq!(c.get_pixel(3, 2), [3, 1, 7]);
}

#[test]
fn captcha_distort_respects_level() {
    let mut c = CaptchaBuilder::new().build();
    let before = c.image.pixels().clone();
    let xs = vec![3; 40];
    let ys = vec![2; 130];
    c.distort(&xs, &ys);
    assert_eq!(c.image.pixels(), &before);
}

#[test]
fn encoded_image_is_jpeg_and_base64() {
    let c = get_image(40, 30, true);
    let bytes = to_jpeg_bytes(&c, 80).unwrap();
    assert_eq!(&bytes[0..2], &[0xFF, 0xD8]);
    let uri = to_base64_str(&c, 80);
    let payload = uri.strip_prefix("data:image/jpeg;base64,").unwrap();
    assert_eq!(general_purpose::STANDARD.decode(payload).unwrap(), bytes);
    assert_eq!(jpeg_data_uri(&vec![1, 2, 3]), "data:image/jpeg;base64,AQID");
    assert_eq!(jpeg_data_uri(&vec![]), "data:image/jpeg;base64,");
}

#[test]
fn captcha_bytes_and_uri_agree() {
    let c = CaptchaBuilder::new().dark_mode(true).compression(90).build();
    let bytes = c.to_bytes();
    assert_eq!(&bytes[0..2], &[0xFF, 0xD8]);
    let uri = c.to_base64();
    assert!(uri.starts_with("data:image/jpeg;base64,"));
    assert!(uri.len() > "data:image/jpeg;base64,".len());
}

#[test]
fn empty_canvas_encodes_to_an_empty_payload() {
    let c = Canvas::filled(0, 0, [0, 0, 0]);
    assert!(to_jpeg_bytes(&c, 50).is_none());
    assert_eq!(to_base64_str(&c, 50), "data:image/jpeg;base64,");
}

#[test]
fn default_builder_matches_new() {
    let c = CaptchaBuilder::default().build();
    assert_eq!(c.text.chars().count(), 5);
    assert_eq!(c.image.width(), 130);
    assert_eq!(c.image.height(), 40);
    assert_eq!(c.compression, 40);
}
