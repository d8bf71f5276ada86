use rust_parser::classify::is_binary_file;
use rust_parser::decode::parse_text_file;
use rust_parser::json_tree::extract_text_from_json;
use rust_parser::json_tree::parse_json_file;
use rust_parser::json_tree::JsonValue;
use rust_parser::parse_file;
use rust_parser::pdf_route;
use rust_parser::parsers::parse_csv_file;
use rust_parser::parsers::parse_ini_file;
use rust_parser::parsers::parse_key_value_file;
use rust_parser::parsers::parse_markdown_file;
use rust_parser::parsers::parse_pdf_file;
use rust_parser::parsers::parse_sql_file;
use rust_parser::parsers::parse_toml_file;
use rust_parser::parsers::parse_xml_file;
use rust_parser::parsers::parse_yaml_file;
use rust_parser::parsers::regex_replace_links;
use rust_parser::parsers::tidy_text;
use rust_parser::PipelineError;

#[test]
fn decoder_total_on_clean_utf8() {
    let bytes: Vec<u8> = b"plain text".to_vec();
    assert_eq!(parse_text_file(&bytes), "plain text");
}

#[test]
fn decoder_total_on_invalid_utf8() {
    // 0xE9 and 0xFF are not valid UTF-8 starts; Windows-1252 maps them
    // to accented letters, so decoding must still produce text.
    let bytes: Vec<u8> = vec![0x48, 0xE9, 0xFF];
    let out = parse_text_file(&bytes);
    assert_eq!(out, "H\u{e9}\u{ff}");
}

#[test]
fn decoder_total_on_arbitrary_bytes() {
    for seed in 0u32..50 {
        let bytes: Vec<u8> = (0..64u32).map(|i| ((seed * 7 + i * 13) % 256) as u8).collect();
        let _ = parse_text_file(&bytes);
    }
    assert_eq!(parse_text_file(&Vec::new()), "");
}

#[test]
fn classifier_empty_sample_is_text() {
    assert!(!is_binary_file(&Vec::new()));
}

#[test]
fn classifier_nul_heavy_sample_is_binary() {
    // 40% NUL bytes: 4 of 10.
    let sample: Vec<u8> = vec![0, 0, 0, 0, b'a', b'b', b'c', b'd', b'e', b'f'];
    assert!(is_binary_file(&sample));
}

#[test]
fn classifier_threshold_is_strict() {
    // Exactly 30% NUL bytes does not exceed the 3/10 threshold.
    let sample: Vec<u8> = vec![0, 0, 0, b'a', b'b', b'c', b'd', b'e', b'f', b'g'];
    assert!(!is_binary_file(&sample));
}

#[test]
fn classifier_control_bytes_count() {
    // 4 of 10 bytes are control bytes; tab, newline and CR do not count.
    let sample: Vec<u8> = vec![1, 2, 3, 4, 9, 10, 13, b'a', b'b', b'c'];
    assert!(is_binary_file(&sample));
    let tame: Vec<u8> = vec![9, 10, 13, 9, 10, 13, b'a', b'b', b'c', b'd'];
    assert!(!is_binary_file(&tame));
}

#[test]
fn binary_fallback_placeholder() {
    // First bytes 40% NUL, unrecognized extension: placeholder names the file.
    let mut bytes: Vec<u8> = Vec::new();
    for i in 0..1024 {
        bytes.push(if i % 5 < 2 { 0 } else { b'x' });
    }
    let out = parse_file("dir/data.xyz", &bytes, None).unwrap();
    assert_eq!(out, "[Binary file: data.xyz]");
}

#[test]
fn fallback_text_when_not_binary() {
    let bytes: Vec<u8> = b"just some notes".to_vec();
    let out = parse_file("notes.unknownext", &bytes, None).unwrap();
    assert_eq!(out, "just some notes");
}

#[test]
fn extension_is_lowercased() {
    let bytes: Vec<u8> = b"UPPER".to_vec();
    assert_eq!(parse_file("FILE.TXT", &bytes, None).unwrap(), "UPPER");
}

#[test]
fn csv_rows_space_joined() {
    let bytes: Vec<u8> = b"a,b\n1,2\n3,4".to_vec();
    assert_eq!(parse_csv_file(&bytes), "a b\n1 2\n3 4");
}

#[test]
fn csv_flexible_field_counts() {
    let bytes: Vec<u8> = b"a,b\n1\n2,3,4".to_vec();
    assert_eq!(parse_csv_file(&bytes), "a b\n1\n2 3 4");
}

#[test]
fn csv_via_dispatch() {
    let bytes: Vec<u8> = b"x,y\n5,6".to_vec();
    assert_eq!(parse_file("table.csv", &bytes, None).unwrap(), "x y\n5 6");
}

#[test]
fn markdown_strips_markup() {
    let bytes: Vec<u8> = b"# Title\n**bold** and [link](http://x)".to_vec();
    assert_eq!(parse_markdown_file(&bytes), "Title\nbold and link");
}

#[test]
fn markdown_lines_are_trimmed_after_link_replacement() {
    // The label keeps its inner spacing, but the line is trimmed last.
    let bytes: Vec<u8> = b"[a ](x)".to_vec();
    assert_eq!(parse_markdown_file(&bytes), "a");
}

#[test]
fn markdown_drops_emptied_lines() {
    let bytes: Vec<u8> = b"**\n# Kept\n```\ntext".to_vec();
    assert_eq!(parse_markdown_file(&bytes), "Kept\ntext");
}

#[test]
fn link_replacement_keeps_label() {
    assert_eq!(regex_replace_links("see [here](http://a) now"), "see here now");
    assert_eq!(regex_replace_links("[a](u)[b](v)"), "ab");
    // No match without a proper label or url.
    assert_eq!(regex_replace_links("[]()"), "[]()");
    assert_eq!(regex_replace_links("[a]"), "[a]");
    assert_eq!(regex_replace_links("[a[b](u)"), "[ab");
}

#[test]
fn sql_strips_both_comment_forms() {
    let bytes: Vec<u8> = b"SELECT 1; -- comment\n/* block\ncomment */SELECT 2;".to_vec();
    let out = parse_sql_file(&bytes);
    assert_eq!(out, "SELECT 1;\nSELECT 2;");
    assert!(!out.contains("comment"));
    assert!(!out.contains("block"));
}

#[test]
fn sql_inline_block_comment() {
    let bytes: Vec<u8> = b"SELECT /* hidden */ x FROM t;\n\n  \nDROP /*a*/ /*b*/ y;".to_vec();
    assert_eq!(parse_sql_file(&bytes), "SELECT  x FROM t;\nDROP   y;");
}

#[test]
fn yaml_values_extracted() {
    let bytes: Vec<u8> = b"name: \"John\"\nlist: [1,2]\n# note\nage: 30\nempty:\n".to_vec();
    assert_eq!(parse_yaml_file(&bytes), "John\n30");
}

#[test]
fn yaml_comment_cut_before_split() {
    let bytes: Vec<u8> = b"key: value # trailing\nplain line".to_vec();
    assert_eq!(parse_yaml_file(&bytes), "value");
}

#[test]
fn yaml_hash_inside_quotes_is_kept() {
    let bytes: Vec<u8> = b"key: \"a#b\" # real comment\nraw: c#d".to_vec();
    // Only an unquoted '#' starts a comment; the quoted one is data.
    assert_eq!(parse_yaml_file(&bytes), "a#b\nc");
}

#[test]
fn key_value_extraction() {
    let bytes: Vec<u8> = b"key = \"value\" # comment\nflag=1; note\nempty=\n[section]".to_vec();
    assert_eq!(parse_key_value_file(&bytes), "value\n1");
}

#[test]
fn toml_and_ini_share_the_extractor() {
    let bytes: Vec<u8> = b"a='x'\nb = 2".to_vec();
    assert_eq!(parse_toml_file(&bytes), "x\n2");
    assert_eq!(parse_ini_file(&bytes), "x\n2");
}

#[test]
fn json_string_leaves_joined() {
    let bytes: Vec<u8> = b"{\"a\":\"x\",\"b\":[1,\"y\",null],\"c\":{\"d\":\"z\"}}".to_vec();
    // Non-string scalars contribute nothing, so single spaces separate
    // the string leaves.
    assert_eq!(parse_json_file(&bytes), "x y z");
}

#[test]
fn json_scalars_add_no_separators() {
    let bytes: Vec<u8> = b"[\"a\", 1, \"b\"]".to_vec();
    assert_eq!(parse_json_file(&bytes), "a b");
    let scalars: Vec<u8> = b"[null, true, 2.5]".to_vec();
    assert_eq!(parse_json_file(&scalars), "");
}

#[test]
fn json_malformed_falls_back_to_raw() {
    let bytes: Vec<u8> = b"not json {".to_vec();
    assert_eq!(parse_json_file(&bytes), "not json {");
}

#[test]
fn json_tree_extraction() {
    let v = JsonValue::Array(vec![
        JsonValue::Str("a".to_string()),
        JsonValue::Number,
        JsonValue::Object(vec![("k".to_string(), JsonValue::Str("b".to_string()))]),
    ]);
    assert_eq!(extract_text_from_json(&v), "a b");
    assert_eq!(extract_text_from_json(&JsonValue::Null), "");
}

#[test]
fn xml_text_nodes_joined() {
    let bytes: Vec<u8> = b"<root><a>Hello</a><b>World</b></root>".to_vec();
    assert_eq!(parse_xml_file(&bytes), "Hello World");
}

#[test]
fn xml_cdata_and_whitespace() {
    let bytes: Vec<u8> = b"<r>\n  <x><![CDATA[ data ]]></x>\n  <y> spaced </y>\n</r>".to_vec();
    assert_eq!(parse_xml_file(&bytes), "data spaced");
}

#[test]
fn tidy_text_trims_and_drops_empty_lines() {
    assert_eq!(tidy_text("  a \n\n  b  \n   \n"), "a\nb");
    assert_eq!(tidy_text(""), "");
}

#[test]
fn pdf_route_is_the_extension_table_entry() {
    assert!(pdf_route("dir/report.PDF"));
    assert!(pdf_route("a.pdf"));
    assert!(!pdf_route("a.txt"));
    assert!(!pdf_route("pdf"));
}

#[test]
fn pdf_failed_recovery_is_io_error() {
    // The outside extractor rejects these bytes; the library maps the
    // missing outcome to an I/O error.
    let bytes: Vec<u8> = b"this is not a pdf".to_vec();
    let recovered = pdf_extract::extract_text_from_mem(&bytes).ok();
    assert!(recovered.is_none());
    assert_eq!(parse_pdf_file(recovered), Err(PipelineError::Io));
    assert_eq!(parse_file("x.pdf", &bytes, None), Err(PipelineError::Io));
}

fn minimal_pdf() -> Vec<u8> {
    let header = "%PDF-1.4\n";
    let stream = "BT /F1 24 Tf 72 712 Td (Hello World) Tj ET";
    let objects: Vec<String> = vec![
        "1 0 obj\n<< /Type /Catalog /Pages 2 0 R >>\nendobj\n".to_string(),
        "2 0 obj\n<< /Type /Pages /Kids [3 0 R] /Count 1 >>\nendobj\n".to_string(),
        "3 0 obj\n<< /Type /Page /Parent 2 0 R /MediaBox [0 0 612 792] /Contents 4 0 R /Resources << /Font << /F1 5 0 R >> >> >>\nendobj\n".to_string(),
        format!(
            "4 0 obj\n<< /Length {} >>\nstream\n{}\nendstream\nendobj\n",
            stream.len(),
            stream
        ),
        "5 0 obj\n<< /Type /Font /Subtype /Type1 /BaseFont /Helvetica >>\nendobj\n".to_string(),
    ];
    let mut body = String::new();
    let mut offsets: Vec<usize> = Vec::new();
    let mut pos = header.len();
    for o in &objects {
        offsets.push(pos);
        body.push_str(o);
        pos += o.len();
    }
    let mut xref = format!("xref\n0 {}\n0000000000 65535 f \n", objects.len() + 1);
    for off in &offsets {
        xref.push_str(&format!("{:010} 00000 n \n", off));
    }
    let trailer = format!(
        "trailer\n<< /Size {} /Root 1 0 R >>\nstartxref\n{}\n%%EOF",
        objects.len() + 1,
        pos
    );
    format!("{}{}{}{}", header, body, xref, trailer).into_bytes()
}

#[test]
fn pdf_text_extracted_and_tidied() {
    let bytes = minimal_pdf();
    let recovered = pdf_extract::extract_text_from_mem(&bytes).ok();
    let out = parse_pdf_file(recovered).unwrap();
    assert!(out.contains("Hello World"));
    assert!(!out.contains("BT "));
}

#[test]
fn pdf_dispatch_tidies_the_delegated_text() {
    let bytes = minimal_pdf();
    let out = parse_file("doc.pdf", &bytes, Some("  Hello \n\n World  ".to_string())).unwrap();
    assert_eq!(out, "Hello\nWorld");
}

#[test]
fn dispatch_table_routes_by_extension() {
    let md: Vec<u8> = b"# H".to_vec();
    assert_eq!(parse_file("a.md", &md, None).unwrap(), "H");
    assert_eq!(parse_file("a.markdown", &md, None).unwrap(), "H");
    let sql: Vec<u8> = b"-- only a comment".to_vec();
    assert_eq!(parse_file("a.sql", &sql, None).unwrap(), "");
    let yml: Vec<u8> = b"k: v".to_vec();
    assert_eq!(parse_file("a.yml", &yml, None).unwrap(), "v");
    assert_eq!(parse_file("a.yaml", &yml, None).unwrap(), "v");
    let ini: Vec<u8> = b"k=v".to_vec();
    assert_eq!(parse_file("a.cfg", &ini, None).unwrap(), "v");
    assert_eq!(parse_file("a.conf", &ini, None).unwrap(), "v");
    assert_eq!(parse_file("a.ini", &ini, None).unwrap(), "v");
    assert_eq!(parse_file("a.toml", &ini, None).unwrap(), "v");
    let html: Vec<u8> = b"<p>hi</p>".to_vec();
    assert_eq!(parse_file("a.html", &html, None).unwrap(), "hi");
    assert_eq!(parse_file("a.htm", &html, None).unwrap(), "hi");
    let log: Vec<u8> = b"line".to_vec();
    assert_eq!(parse_file("a.log", &log, None).unwrap(), "line");
    assert_eq!(parse_file("a.text", &log, None).unwrap(), "line");
}

#[test]
fn no_extension_falls_back() {
    let bytes: Vec<u8> = b"content".to_vec();
    assert_eq!(parse_file("README", &bytes, None).unwrap(), "content");
    // A leading dot alone is not an extension.
    assert_eq!(parse_file(".hidden", &bytes, None).unwrap(), "content");
}
