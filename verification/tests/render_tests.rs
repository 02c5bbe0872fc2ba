use ultiserve::highlight::Highlighter;
use ultiserve::render::{handle_request, render_file, PathProbe, Response};

fn file_probe(bytes: &[u8]) -> PathProbe {
    PathProbe::File { bytes: bytes.to_vec(), canonical: None }
}

#[test]
fn missing_path_is_not_found() {
    let hl = Highlighter::new();
    let r = handle_request("/nope", "./nope", false, PathProbe::Missing, &hl);
    assert!(matches!(r, Response::NotFound));
}

#[test]
fn raw_request_returns_decoded_text_verbatim() {
    let hl = Highlighter::new();
    let text = "# not rendered <b>as is</b>\n";
    let r = handle_request("/f.md", "./f.md", true, file_probe(text.as_bytes()), &hl);
    match r {
        Response::PlainText(s) => assert_eq!(s, text),
        _ => panic!("expected plain text"),
    }
}

#[test]
fn html_file_is_embedded_unmodified_and_pre_escaped() {
    let hl = Highlighter::new();
    let html = "<p>already html & untouched</p>";
    let r = handle_request("/page.html", "./page.html", false, file_probe(html.as_bytes()), &hl);
    match r {
        Response::Page(fc) => {
            assert_eq!(fc.content, html);
            assert!(fc.unsafe_content);
            assert_eq!(fc.raw_url, "/page.html?raw=true");
        },
        _ => panic!("expected a file page"),
    }
}

#[test]
fn non_text_bytes_come_back_unchanged() {
    let hl = Highlighter::new();
    let bytes = vec![0xff, 0xfe, 0x00, 0x41];
    let r = handle_request("/blob.bin", "./blob.bin", false, file_probe(&bytes), &hl);
    match r {
        Response::Binary(b) => assert_eq!(b, bytes),
        _ => panic!("expected binary"),
    }
}

#[test]
fn raw_request_on_non_text_still_returns_bytes() {
    let hl = Highlighter::new();
    let bytes = vec![0xC0, 0xAF, 0x01];
    let r = handle_request("/b.bin", "./b.bin", true, file_probe(&bytes), &hl);
    match r {
        Response::Binary(b) => assert_eq!(b, bytes),
        _ => panic!("expected binary"),
    }
}

#[test]
fn html5_extension_is_also_embedded_pre_escaped() {
    let hl = Highlighter::new();
    let html = "<div>five</div>";
    let r = handle_request("/p.html5", "./p.html5", false, file_probe(html.as_bytes()), &hl);
    match r {
        Response::Page(fc) => {
            assert_eq!(fc.content, html);
            assert!(fc.unsafe_content);
        },
        _ => panic!("expected a file page"),
    }
}

#[test]
fn directory_probe_becomes_listing() {
    let hl = Highlighter::new();
    let probe = PathProbe::Directory {
        entries: vec![
            ultiserve::listing::FileEntry { name: "z".to_string(), is_dir: false },
            ultiserve::listing::FileEntry { name: "a".to_string(), is_dir: true },
        ],
        canonical: Some("/srv".to_string()),
    };
    let r = handle_request("/", "./", false, probe, &hl);
    match r {
        Response::Listing(ic) => {
            assert_eq!(ic.files[0].name, "a/");
            assert_eq!(ic.files[1].name, "z");
            assert!(!ic.has_parent);
            assert_eq!(ic.full_current_dir, "/srv");
        },
        _ => panic!("expected listing"),
    }
}

#[test]
fn markdown_file_renders_pre_escaped() {
    let hl = Highlighter::new();
    let md = "```rust\nfn main(){}\n```\n";
    let r = handle_request("/a.md", "./a.md", false, file_probe(md.as_bytes()), &hl);
    match r {
        Response::Page(fc) => {
            assert!(fc.unsafe_content);
            let snippet = hl.highlight("rust", "fn main(){}\n").unwrap();
            assert!(fc.content.contains(snippet.trim_end()));
            assert_eq!(fc.raw_url, "/a.md?raw=true");
            assert_eq!(fc.file_name, "<unknown>");
        },
        _ => panic!("expected a file page"),
    }
}

#[test]
fn known_extension_is_highlighted() {
    let hl = Highlighter::new();
    let code = "fn main(){}\n";
    let r = render_file("./m.rs", code.to_string(), "/m.rs", None, &hl);
    match r {
        Ok(fc) => {
            assert!(fc.unsafe_content);
            assert_ne!(fc.content, code);
            assert!(fc.content.contains("<pre"));
        },
        _ => panic!("expected a highlighted page"),
    }
}

#[test]
fn unknown_extension_stays_plain_text() {
    let hl = Highlighter::new();
    let text = "just some notes\n";
    let r = render_file("./n.zzznope", text.to_string(), "/n.zzznope", None, &hl);
    match r {
        Ok(fc) => {
            assert!(!fc.unsafe_content);
            assert_eq!(fc.content, text);
            assert_eq!(fc.raw_url, "/n.zzznope?raw=true");
        },
        _ => panic!("expected a plain page"),
    }
}

#[test]
fn no_extension_stays_plain_text() {
    let hl = Highlighter::new();
    let text = "README contents\n";
    let r = render_file("./README", text.to_string(), "/README", None, &hl);
    match r {
        Ok(fc) => {
            assert!(!fc.unsafe_content);
            assert_eq!(fc.content, text);
        },
        _ => panic!("expected a plain page"),
    }
}

#[test]
fn canonical_path_is_shown_when_known() {
    let hl = Highlighter::new();
    let r = render_file(
        "./n.zzznope",
        "x".to_string(),
        "/n.zzznope",
        Some("/srv/n.zzznope".to_string()),
        &hl,
    );
    match r {
        Ok(fc) => assert_eq!(fc.file_name, "/srv/n.zzznope"),
        _ => panic!("expected a page"),
    }
}
