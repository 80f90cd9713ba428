use std::io::Read;

use grid::canvas::Canvas;
use grid::pdf::Pdf;
use grid::{dot, grid as line_grid, Config};

fn inflate(data: &[u8]) -> Vec<u8> {
    let mut decoder = flate2::read::ZlibDecoder::new(data);
    let mut out = Vec::new();
    decoder.read_to_end(&mut out).expect("valid zlib stream");
    out
}

fn find(hay: &[u8], needle: &[u8], from: usize) -> Option<usize> {
    if needle.len() > hay.len() {
        return None;
    }
    (from..=hay.len() - needle.len()).find(|&i| &hay[i..i + needle.len()] == needle)
}

/// The compressed body of the stream object with the given identifier.
fn stream_body(doc: &[u8], id: u64) -> Vec<u8> {
    let marker = format!("{} 0 obj\n", id).into_bytes();
    let start = find(doc, &marker, 0).expect("object marker");
    let body_start = find(doc, b"stream\n", start).expect("stream keyword") + 7;
    let body_end = find(doc, b"\nendstream", body_start).expect("endstream keyword");
    doc[body_start..body_end].to_vec()
}

/// The offsets listed in the cross-reference table, indexed from object 1.
fn xref_offsets(doc: &[u8]) -> Vec<usize> {
    let xref = find(doc, b"xref\n0 ", 0).expect("xref section");
    let after = xref + 7;
    let line_end = find(doc, b"\n", after).expect("xref count line");
    let count: usize = String::from_utf8(doc[after..line_end].to_vec())
        .unwrap()
        .parse()
        .unwrap();
    let mut entries = line_end + 1;
    // the fixed free entry for object 0
    assert_eq!(&doc[entries..entries + 20], b"0000000000 65535 f \n");
    entries += 20;
    let mut offsets = Vec::new();
    for _ in 1..count {
        let line = &doc[entries..entries + 20];
        assert_eq!(&line[10..], b" 00000 n \n");
        let off: usize = String::from_utf8(line[..10].to_vec()).unwrap().parse().unwrap();
        offsets.push(off);
        entries += 20;
    }
    offsets
}

fn small_config() -> Config {
    Config {
        width: 1000,
        height: 1000,
        margin: 0,
        color: (0, 0, 0),
        num_x: 1,
        num_y: 1,
        d: 1000,
        num_pages: 1,
    }
}

#[test]
fn dot_grid_single_page_single_stream() {
    let config = small_config();
    assert!(config.valid());
    let doc = dot(&config);
    let text = String::from_utf8_lossy(&doc).into_owned();
    assert!(text.starts_with("%PDF-1.2\n"));
    // exactly one page object, referencing the one content stream (object 3)
    assert_eq!(text.matches("/Type /Page\n").count(), 1);
    assert_eq!(text.matches("/Type /Pages\n").count(), 1);
    assert_eq!(text.matches("/Contents 3 0 R").count(), 1);
    assert_eq!(text.matches("/FlateDecode").count(), 1);
    // the stream holds one circle-fill sequence per grid point: 2 x 2 points
    let ops = inflate(&stream_body(&doc, 3));
    let ops_text = String::from_utf8(ops).unwrap();
    assert!(ops_text.starts_with("/DeviceRGB cs /DeviceRGB CS\n"));
    assert_eq!(ops_text.matches(" m ").count(), 4);
    assert_eq!(ops_text.matches(" c\n").count(), 16);
    assert_eq!(ops_text.matches("f\n").count(), 4);
    // dots at 0" and 1" in both directions, radius d/10 = 7.2 points
    assert!(ops_text.contains("0 -7.2 m "));
    assert!(ops_text.contains("72 64.8 m "));
}

#[test]
fn three_pages_share_one_content_stream() {
    let mut config = small_config();
    config.num_pages = 3;
    let doc = dot(&config);
    let text = String::from_utf8_lossy(&doc).into_owned();
    // one page object (id 5), listed three times in the pages tree
    assert_eq!(text.matches("/Type /Page\n").count(), 1);
    assert!(text.contains("/Count 3\n"));
    assert!(text.contains("/Kids [ 5 0 R 5 0 R 5 0 R ]\n"));
    assert_eq!(text.matches("/FlateDecode").count(), 1);
}

#[test]
fn xref_offsets_land_on_object_markers() {
    let config = Config {
        width: 11700,
        height: 8270,
        margin: 200,
        color: (100, 100, 100),
        num_x: 5,
        num_y: 3,
        d: 200,
        num_pages: 2,
    };
    assert!(config.valid());
    let doc = line_grid(&config);
    let offsets = xref_offsets(&doc);
    assert_eq!(offsets.len(), 5);
    for (i, &off) in offsets.iter().enumerate() {
        let id = i + 1;
        let marker = format!("{} 0 obj\n", id).into_bytes();
        assert_eq!(&doc[off..off + marker.len()], &marker[..]);
    }
}

#[test]
fn offsets_rederived_by_scanning_match_the_table() {
    let doc = dot(&small_config());
    let offsets = xref_offsets(&doc);
    for (i, &off) in offsets.iter().enumerate() {
        let id = i + 1;
        let marker = format!("{} 0 obj\n", id).into_bytes();
        // scan at line starts for the first occurrence of the marker
        let mut found = None;
        for p in 0..doc.len() {
            if (p == 0 || doc[p - 1] == b'\n') && find(&doc, &marker, p) == Some(p) {
                found = Some(p);
                break;
            }
        }
        assert_eq!(found, Some(off));
    }
}

#[test]
fn startxref_points_at_the_xref_keyword() {
    let doc = line_grid(&small_config());
    let text = String::from_utf8_lossy(&doc).into_owned();
    assert!(text.ends_with("%%EOF\n"));
    let sx = text.rfind("startxref\n").unwrap();
    let pos: usize = text[sx + 10..].lines().next().unwrap().parse().unwrap();
    assert_eq!(&doc[pos..pos + 5], b"xref\n");
    assert!(text.contains("/Size 6\n"));
    assert!(text.contains("/Root 1 0 R\n"));
}

#[test]
fn stream_body_decompresses_to_canvas_operators() {
    let mut canvas = Canvas::new(Vec::new());
    canvas.set_stroke_color((10, 20, 30));
    canvas.line(0, 0, 72000, 72000);
    let ops = canvas.into_output();
    let mut expected = b"/DeviceRGB cs /DeviceRGB CS\n".to_vec();
    expected.extend_from_slice(&ops);

    let mut document = Pdf::new();
    let content_id = document.write_stream(&ops);
    assert_eq!(content_id, 3);
    document.write_page_with_obj(72000, 72000, content_id, 1);
    let doc = document.finish();
    let body = stream_body(&doc, content_id);
    // the body is compressed: handing the operators back unchanged would fail
    assert_ne!(body, expected);
    assert_eq!(inflate(&body), expected);
}

#[test]
fn declared_length_matches_stream_body() {
    let doc = dot(&small_config());
    let text = String::from_utf8_lossy(&doc).into_owned();
    assert!(text.contains("<< /Length 4 0 R /Filter /FlateDecode>>\nstream\n"));
    let body = stream_body(&doc, 3);
    let len_obj = text.split("4 0 obj\n").nth(1).unwrap();
    let declared: usize = len_obj.lines().next().unwrap().parse().unwrap();
    assert_eq!(declared, body.len());
}

#[test]
fn length_object_id_follows_content_id_for_every_stream() {
    let mut canvas_a = Canvas::new(Vec::new());
    canvas_a.line(0, 0, 1000, 1000);
    let ops_a = canvas_a.into_output();
    let mut canvas_b = Canvas::new(Vec::new());
    canvas_b.line(2000, 2000, 3000, 3000);
    let ops_b = canvas_b.into_output();

    let mut document = Pdf::new();
    let first = document.write_stream(&ops_a);
    let second = document.write_stream(&ops_b);
    assert_eq!(first, 3);
    assert_eq!(second, 5);
    document.write_page_with_obj(72000, 72000, first, 1);
    document.write_page_with_obj(72000, 72000, second, 1);
    let doc = document.finish();
    let text = String::from_utf8_lossy(&doc).into_owned();
    // each stream dictionary cites the next identifier as its length object
    assert!(text.contains("/Length 4 0 R"));
    assert!(text.contains("/Length 6 0 R"));
    let body_a = stream_body(&doc, 3);
    let body_b = stream_body(&doc, 5);
    let len_a: usize = text.split("4 0 obj\n").nth(1).unwrap().lines().next().unwrap().parse().unwrap();
    let len_b: usize = text.split("6 0 obj\n").nth(1).unwrap().lines().next().unwrap().parse().unwrap();
    assert_eq!(len_a, body_a.len());
    assert_eq!(len_b, body_b.len());
}

#[test]
fn grid_draws_the_configured_lines() {
    let config = Config {
        width: 2000,
        height: 2000,
        margin: 100,
        color: (0, 0, 0),
        num_x: 2,
        num_y: 1,
        d: 500,
        num_pages: 1,
    };
    assert!(config.valid());
    let doc = line_grid(&config);
    let ops = String::from_utf8(inflate(&stream_body(&doc, 3))).unwrap();
    // 3 vertical and 2 horizontal lines; margin 7.2pt, spacing 36pt
    assert_eq!(ops.matches(" l S\n").count(), 5);
    assert!(ops.contains("7.2 7.2 m 7.2 43.2 l S\n"));
    assert!(ops.contains("43.2 7.2 m 43.2 43.2 l S\n"));
    assert!(ops.contains("79.2 7.2 m 79.2 43.2 l S\n"));
    assert!(ops.contains("7.2 7.2 m 79.2 7.2 l S\n"));
    assert!(ops.contains("7.2 43.2 m 79.2 43.2 l S\n"));
}

#[test]
fn config_bounds_are_checked() {
    assert!(small_config().valid());
    let mut big = small_config();
    big.width = u32::MAX;
    assert!(!big.valid());
    let mut wide = small_config();
    wide.num_x = 100_000;
    wide.d = 100_000;
    assert!(!wide.valid());
}

#[test]
fn page_object_lists_size_and_parent() {
    let doc = dot(&small_config());
    let text = String::from_utf8_lossy(&doc).into_owned();
    assert!(text.contains(
        "<< /Type /Page\n   /Parent 2 0 R\n   /MediaBox [ 0 0 72 72 ]\n   /Contents 3 0 R\n>>\n"
    ));
    assert!(text.contains("<< /Type /Catalog\n   /Pages 2 0 R\n>>\n"));
}
