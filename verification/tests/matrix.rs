use sqlk::config::matrix::MatrixConfig;
use sqlk::matrix::animation::MatrixAnimation;
use sqlk::matrix::character::MatrixChar;
use sqlk::matrix::colours::Color;
use sqlk::matrix::colours::ColorCalculator;
use sqlk::matrix::column::MatrixColumn;
use sqlk::matrix::text_overlay::TextOverlay;

#[test]
fn glyphs() {
    let mut c = MatrixChar::new('x');
    assert_eq!(c, MatrixChar { character: 'x', age: 0, is_head: true });
    assert!(!c.is_expired(1));
    assert!(c.is_expired(0));
    c.age_character();
    assert_eq!(c, MatrixChar { character: 'x', age: 1, is_head: false });
    assert!(c.is_expired(1));
    c.mark_as_head();
    assert!(c.is_head);
    c.mark_as_tail();
    assert!(!c.is_head);
    assert_eq!(MatrixChar::new_with_age('y', 9), MatrixChar { character: 'y', age: 9, is_head: false });
    let mut oldest = MatrixChar::new_with_age('z', 255);
    oldest.mark_as_head();
    oldest.age_character();
    assert_eq!(oldest, MatrixChar { character: 'z', age: 255, is_head: false });
}

#[test]
fn new_columns_keep_to_their_bounds() {
    let chars = vec!['a', 'b', 'c'];
    for _ in 0..50 {
        let column = MatrixColumn::new(6, &chars);
        assert_eq!(column.len(), 6);
        assert!(!column.is_empty());
        assert!((2..=6).contains(&column.speed));
        assert!(column.counter < 15);
        assert!((700..1000).contains(&column.intensity()));
        assert_eq!(column.max_trail_length, 15);
        for row in 0..6 {
            let glyph = column.get_char_at(row).unwrap();
            assert_eq!(glyph.age as usize, row);
            assert_eq!(glyph.is_head, row == 0);
            assert!(chars.contains(&glyph.character));
        }
        assert!(column.get_char_at(6).is_none());
    }
    assert!(MatrixColumn::new(0, &Vec::new()).is_empty());
    assert!(MatrixColumn::new(5, &Vec::new()).is_empty());
    let long = MatrixColumn::new(300, &chars);
    assert_eq!(long.len(), 255);
    assert_eq!(long.get_char_at(254).map(|g| g.age), Some(254));
}

#[test]
fn a_column_steps_when_its_counter_reaches_its_speed() {
    let chars = vec!['z'];
    let mut column = MatrixColumn {
        chars: vec![
            MatrixChar { character: 'a', age: 0, is_head: true },
            MatrixChar { character: 'b', age: 13, is_head: false },
            MatrixChar { character: 'c', age: 14, is_head: false },
        ],
        speed: 3,
        counter: 0,
        intensity: 800,
        max_trail_length: 15,
    };
    column.update(&chars);
    assert_eq!(column.counter, 1);
    assert_eq!(column.len(), 3);
    column.update(&chars);
    assert_eq!(column.counter, 2);
    column.update(&chars);
    assert_eq!(column.counter, 0);
    assert_eq!(
        column.chars,
        vec![
            MatrixChar { character: 'z', age: 1, is_head: false },
            MatrixChar { character: 'a', age: 1, is_head: false },
            MatrixChar { character: 'b', age: 14, is_head: false },
        ]
    );
    assert!(column.intensity == 800 || (300..1000).contains(&column.intensity));
    for _ in 0..200 {
        column.update(&chars);
        assert!(column.len() <= 15);
        assert!(column.chars.iter().all(|g| g.age < 15 && !g.is_head));
    }
    let before = (column.chars.clone(), column.counter, column.intensity);
    for _ in 0..10 {
        column.update(&Vec::new());
    }
    assert_eq!((column.chars.clone(), column.counter, column.intensity), before);
}

#[test]
fn colours() {
    let calc = ColorCalculator::new();
    let head = MatrixChar::new('x');
    assert_eq!(calc.get_char_color(&head, 300), Color::White);
    let glyph = |age: u8| MatrixChar::new_with_age('x', age);
    assert_eq!(calc.get_char_color(&glyph(0), 1000), Color::Rgb(0, 255, 0));
    assert_eq!(calc.get_char_color(&glyph(0), 800), Color::Rgb(0, 220, 0));
    assert_eq!(calc.get_char_color(&glyph(4), 1000), Color::Rgb(0, 220, 0));
    assert_eq!(calc.get_char_color(&glyph(3), 1000), Color::Rgb(0, 255, 0));
    assert_eq!(calc.get_char_color(&glyph(10), 1000), Color::Rgb(0, 180, 0));
    assert_eq!(calc.get_char_color(&glyph(10), 700), Color::Rgb(0, 120, 0));
    assert_eq!(calc.get_char_color(&glyph(19), 1000), Color::Rgb(0, 80, 0));
    assert_eq!(calc.get_char_color(&glyph(20), 1000), Color::Rgb(0, 80, 0));
    assert_eq!(calc.get_char_color(&glyph(200), 1000), Color::Rgb(0, 80, 0));
    assert_eq!(calc.get_overlay_color(0), Color::White);
    assert_eq!(calc.get_overlay_color(199), Color::White);
    assert_eq!(calc.get_overlay_color(200), Color::Rgb(0, 255, 100));
    assert_eq!(calc.get_overlay_color(499), Color::Rgb(0, 255, 100));
    assert_eq!(calc.get_overlay_color(500), Color::Rgb(0, 200, 150));
    assert_eq!(calc.get_overlay_color(800), Color::Rgb(0, 150, 200));
    assert_eq!(calc.get_overlay_color(1000), Color::Rgb(0, 150, 200));
}

#[test]
fn overlay() {
    let overlay = TextOverlay::with_text(vec!["abc", "d"]);
    assert_eq!(overlay.get_dimensions(), (3, 2));
    assert_eq!(overlay.get_char_at(4, 4, 11, 10), Some('a'));
    assert_eq!(overlay.get_char_at(4, 6, 11, 10), Some('c'));
    assert_eq!(overlay.get_char_at(5, 4, 11, 10), Some('d'));
    assert_eq!(overlay.get_char_at(5, 5, 11, 10), Some(' '));
    assert_eq!(overlay.get_char_at(3, 4, 11, 10), None);
    assert_eq!(overlay.get_char_at(6, 4, 11, 10), None);
    assert_eq!(overlay.get_char_at(4, 3, 11, 10), None);
    assert_eq!(overlay.get_char_at(4, 7, 11, 10), None);
    assert!(overlay.is_text_position(4, 5, 11, 10));
    assert!(!overlay.is_text_position(0, 0, 11, 10));
    assert_eq!(overlay.get_char_at(0, 0, 2, 1), Some('a'));
    let banner = TextOverlay::new();
    assert_eq!(banner.get_dimensions(), (36, 9));
    assert_eq!(banner.get_char_at(0, 2, 36, 9), Some('█'));
    assert_eq!(banner.get_char_at(8, 35, 36, 9), Some(' '));
    assert_eq!(TextOverlay::default().get_dimensions(), (36, 9));
    let none = TextOverlay::with_text(Vec::new());
    assert_eq!(none.get_dimensions(), (0, 0));
    assert_eq!(none.get_char_at(0, 0, 10, 10), None);
}

#[test]
fn animation_timing() {
    let animation = MatrixAnimation::new(&MatrixConfig::for_size(10, 9, 4000));
    assert_eq!(animation.get_dimensions(), (10, 9));
    assert!(!animation.is_finished_after(3999));
    assert!(animation.is_finished_after(4000));
    assert_eq!(animation.progress_after(0), 0);
    assert_eq!(animation.progress_after(1), 0);
    assert_eq!(animation.progress_after(4), 1);
    assert_eq!(animation.progress_after(1199), 299);
    assert_eq!(animation.progress_after(1200), 300);
    assert_eq!(animation.progress_after(3999), 999);
    assert_eq!(animation.progress_after(4000), 1000);
    assert_eq!(animation.progress_after(u128::MAX), 1000);
    assert!(!animation.startup_due_after(1199));
    assert!(animation.startup_due_after(1200));
    assert!(animation.startup_due_after(u128::MAX));
    assert!(animation.get_progress() <= 1000);
    assert!(!animation.is_finished());
    let instant = MatrixAnimation::new(&MatrixConfig::for_size(1, 1, 0));
    assert!(instant.is_finished());
    assert_eq!(instant.get_progress(), 1000);
    assert_eq!(instant.progress_after(0), 1000);
    assert_eq!(instant.get_overlay_color(), Color::Rgb(0, 150, 200));
}

#[test]
fn animation_frames() {
    let config = MatrixConfig::for_size(7, 9, 4000).with_chars("ab".to_string());
    let mut animation = MatrixAnimation::with_custom_text(&config, vec!["hi"]);
    for _ in 0..40 {
        let frame = animation.get_frame();
        assert_eq!(frame.len(), 9);
        for (row, line) in frame.iter().enumerate() {
            let glyphs: Vec<char> = line.chars().collect();
            assert_eq!(glyphs.len(), 7);
            for (col, glyph) in glyphs.iter().enumerate() {
                assert!(['a', 'b', ' '].contains(glyph));
                let colour = animation.get_char_color(row, col);
                assert_eq!(colour == Color::Black, animation.columns[col].get_char_at(row).is_none());
                if *glyph != ' ' {
                    assert_ne!(colour, Color::Black);
                }
            }
        }
        animation.update();
    }
    assert_eq!(animation.get_char_color(0, 7), Color::Black);
    assert_eq!(animation.get_overlay_char_at(4, 2), Some('h'));
    assert_eq!(animation.get_overlay_char_at(4, 3), Some('i'));
    assert_eq!(animation.get_overlay_char_at(3, 2), None);
    animation.reset();
    assert_eq!(animation.columns.len(), 7);
    assert!(animation.columns.iter().all(|c| c.len() <= 3));
    let empty = MatrixConfig::for_size(4, 30, 10).with_chars(String::new());
    let mut still = MatrixAnimation::new(&empty);
    still.update();
    assert!(still.columns.iter().all(|c| c.is_empty()));
    assert_eq!(still.get_frame(), vec!["    ".to_string(); 30]);
}
