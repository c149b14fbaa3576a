use termvid::color256::{Color, Color256, PaletteError, Rgb};

fn entry(id: u8, r: u8, g: u8, b: u8, name: &str) -> Color {
    Color { id, rgb: Rgb::new(r, g, b), name: String::from(name) }
}

#[test]
fn brightness_black_is_zero() {
    assert_eq!(Rgb::new(0, 0, 0).brightness(), 0);
}

#[test]
fn brightness_white_is_full() {
    assert_eq!(Rgb::new(255, 255, 255).brightness(), 255);
}

#[test]
fn brightness_is_exact_integer_average() {
    assert_eq!(Rgb::new(30, 60, 90).brightness(), 60);
    assert_eq!(Rgb::new(1, 1, 0).brightness(), 0);
    assert_eq!(Rgb::new(2, 1, 0).brightness(), 1);
}

#[test]
fn distance_to_self_is_zero() {
    for c in [Rgb::new(0, 0, 0), Rgb::new(255, 255, 255), Rgb::new(12, 200, 7)] {
        assert_eq!(c.distance_to(&c), 0);
    }
}

#[test]
fn distance_is_squared_euclidean() {
    assert_eq!(Rgb::new(1, 2, 3).distance_to(&Rgb::new(4, 2, 3)), 9);
    assert_eq!(Rgb::new(0, 0, 0).distance_to(&Rgb::new(1, 2, 2)), 9);
    assert_eq!(Rgb::new(10, 10, 10).distance_to(&Rgb::new(0, 0, 0)), 300);
}

#[test]
fn nearest_returns_exact_match() {
    let palette = Color256 {
        colors: vec![
            entry(1, 10, 10, 10, "a"),
            entry(2, 100, 100, 100, "b"),
            entry(3, 200, 200, 200, "c"),
        ],
    };
    let hit = palette.approx_from_rgb(&Rgb::new(100, 100, 100));
    assert_eq!(hit.id, 2);
}

#[test]
fn nearest_two_entry_palette() {
    let palette = Color256 {
        colors: vec![entry(0, 0, 0, 0, "black"), entry(1, 255, 255, 255, "white")],
    };
    assert_eq!(palette.approx_from_rgb(&Rgb::new(10, 10, 10)).id, 0);
    assert_eq!(palette.approx_from_rgb(&Rgb::new(200, 200, 200)).id, 1);
}

#[test]
fn nearest_tie_goes_to_first_entry() {
    let palette = Color256 {
        colors: vec![entry(7, 0, 0, 0, "left"), entry(8, 2, 0, 0, "right")],
    };
    // (1,0,0) is at squared distance 1 from both entries.
    assert_eq!(palette.approx_from_rgb(&Rgb::new(1, 0, 0)).id, 7);
}

#[test]
fn load_parses_a_document() {
    let doc = "{ \"colors\": [\n  { \"colorId\": 3, \"rgb\": { \"r\": 1, \"g\": 2, \"b\": 3 }, \"name\": \"Dusk\" },\n  { \"colorId\": 250, \"rgb\": { \"r\": 255, \"g\": 0, \"b\": 128 }, \"name\": \"Rose\" }\n] }";
    let palette = Color256::new(doc).unwrap();
    assert_eq!(palette.colors.len(), 2);
    assert_eq!(palette.colors[0].id, 3);
    assert_eq!(palette.colors[0].rgb, Rgb::new(1, 2, 3));
    assert_eq!(palette.colors[0].name, "Dusk");
    assert_eq!(palette.colors[1].id, 250);
    assert_eq!(palette.colors[1].rgb, Rgb::new(255, 0, 128));
    assert_eq!(palette.colors[1].name, "Rose");
}

#[test]
fn load_accepts_dense_and_spread_blank_space() {
    let dense = "{\"colors\":[{\"colorId\":0,\"rgb\":{\"r\":0,\"g\":0,\"b\":0},\"name\":\"Black\"}]}";
    let spread = "  {\t\"colors\" :\n[ { \"colorId\" : 0 , \"rgb\" : { \"r\" : 0 , \"g\" : 0 , \"b\" : 0 } , \"name\" : \"Black\" } ]\r\n}  ";
    for doc in [dense, spread] {
        let palette = Color256::new(doc).unwrap();
        assert_eq!(palette.colors.len(), 1);
        assert_eq!(palette.colors[0].name, "Black");
    }
}

#[test]
fn load_rejects_empty_palette() {
    assert!(matches!(Color256::new("{ \"colors\": [] }"), Err(PaletteError::Empty)));
}

#[test]
fn load_rejects_malformed_documents() {
    let bad = [
        "",
        "{}",
        "{ \"colors\": }",
        "{ \"colors\": [",
        "{ \"colors\": [ { \"colorId\": 0 } ] }",
        // missing comma between records
        "{\"colors\":[{\"colorId\":0,\"rgb\":{\"r\":0,\"g\":0,\"b\":0},\"name\":\"a\"}{\"colorId\":1,\"rgb\":{\"r\":0,\"g\":0,\"b\":0},\"name\":\"b\"}]}",
        // channel out of range
        "{\"colors\":[{\"colorId\":0,\"rgb\":{\"r\":256,\"g\":0,\"b\":0},\"name\":\"a\"}]}",
        // id out of range
        "{\"colors\":[{\"colorId\":999,\"rgb\":{\"r\":0,\"g\":0,\"b\":0},\"name\":\"a\"}]}",
        // escape sequences are not part of the palette grammar
        "{\"colors\":[{\"colorId\":0,\"rgb\":{\"r\":0,\"g\":0,\"b\":0},\"name\":\"a\\\"b\"}]}",
        // non-ASCII name
        "{\"colors\":[{\"colorId\":0,\"rgb\":{\"r\":0,\"g\":0,\"b\":0},\"name\":\"caf\u{e9}\"}]}",
        // trailing text after the document
        "{\"colors\":[{\"colorId\":0,\"rgb\":{\"r\":0,\"g\":0,\"b\":0},\"name\":\"a\"}]} x",
        // fields out of order
        "{\"colors\":[{\"rgb\":{\"r\":0,\"g\":0,\"b\":0},\"colorId\":0,\"name\":\"a\"}]}",
    ];
    for doc in bad {
        assert!(matches!(Color256::new(doc), Err(PaletteError::Parse)), "doc: {}", doc);
    }
}

#[test]
fn load_accepts_a_full_256_entry_palette() {
    let mut doc = String::from("{ \"colors\": [");
    for id in 0..=255u16 {
        if id > 0 {
            doc.push(',');
        }
        doc.push_str(&format!(
            "{{ \"colorId\": {}, \"rgb\": {{ \"r\": {}, \"g\": {}, \"b\": {} }}, \"name\": \"c{}\" }}",
            id,
            id,
            255 - id,
            id / 2,
            id
        ));
    }
    doc.push_str("] }");
    let palette = Color256::new(&doc).unwrap();
    assert_eq!(palette.colors.len(), 256);
    assert_eq!(palette.colors[200].id, 200);
    assert_eq!(palette.colors[200].rgb, Rgb::new(200, 55, 100));
    assert_eq!(palette.colors[200].name, "c200");
}
