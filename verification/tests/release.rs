use libfreenect2_rs::release::{
    checksum_in_line, checksum_in_list, find_asset, find_byte, find_checksum,
    get_sha256_for_filename, is_space_byte, read_list_at, stands_at, trim_end, trim_start,
    ArchiveSource, Asset, Listed, Release,
};
use regex::Regex;

const NOTES: &str = "# libfreenect2\n\nBuilt for three systems.\n\n## SHA256 Checksums\n```\n\
1111111111111111111111111111111111111111111111111111111111111111 *libfreenect2-linux-all-debug.zip\n\
2222222222222222222222222222222222222222222222222222222222222222 *libfreenect2-linux-all-release.zip\n\
3333333333333333333333333333333333333333333333333333333333333333 *libfreenect2-macos-all-release.zip\n\
```\n\nThanks.\n";

fn checksum_by_pattern(body: &str, filename: &str) -> Option<Option<String>> {
    let listing = Regex::new(r"## SHA256 Checksums\r?\n```([^`]*)```")
        .unwrap()
        .captures(body)?
        .get(1)?
        .as_str();
    Some(
        Regex::new(r"\r?\n")
            .unwrap()
            .split(listing.trim())
            .filter_map(|line| {
                let mut parts = line.trim().split(' ');
                let sha256 = parts.next()?.trim();
                let name = parts.next()?.strip_prefix('*')?;
                if name == filename {
                    Some(sha256.to_owned())
                } else {
                    None
                }
            })
            .next(),
    )
}

fn checksum_by_library(body: &str, filename: &str) -> Option<Option<String>> {
    match find_checksum(body.as_bytes(), filename.as_bytes()) {
        Listed::NoList => None,
        Listed::NotListed => Some(None),
        Listed::Checksum(first, last) => Some(Some(body[first..last].to_owned())),
    }
}

fn text_of(range: Option<(usize, usize)>, text: &str) -> Option<&str> {
    range.map(|(first, last)| &text[first..last])
}

#[test]
fn checksum_is_found_in_the_notes() {
    assert_eq!(
        checksum_by_library(NOTES, "libfreenect2-linux-all-release.zip"),
        Some(Some("2".repeat(64)))
    );
    assert_eq!(
        checksum_by_library(NOTES, "libfreenect2-linux-all-debug.zip"),
        Some(Some("1".repeat(64)))
    );
    assert_eq!(
        checksum_by_library(NOTES, "libfreenect2-macos-all-release.zip"),
        Some(Some("3".repeat(64)))
    );
    assert_eq!(checksum_by_library(NOTES, "libfreenect2-windows-all-release.zip"), Some(None));
    assert_eq!(checksum_by_library(NOTES, "*libfreenect2-linux-all-debug.zip"), Some(None));
    assert_eq!(checksum_by_library(NOTES, ""), Some(None));
    assert_eq!(checksum_by_library("no checksums here", "a.zip"), None);
    assert_eq!(checksum_by_library("", "a.zip"), None);
}

#[test]
fn notes_are_read_as_the_pattern_reads_them() {
    let bodies = [
        NOTES.to_string(),
        NOTES.replace('\n', "\r\n"),
        "## SHA256 Checksums\n```abc *a.zip```".to_string(),
        "## SHA256 Checksums\n```\nabc *a.zip\n```".to_string(),
        "## SHA256 Checksums\r\n```\r\nabc *a.zip\r\n```".to_string(),
        "## SHA256 Checksums\r```\nabc *a.zip\n```".to_string(),
        "## SHA256 Checksums\n\n```\nabc *a.zip\n```".to_string(),
        "## SHA256 Checksums\n``\nabc *a.zip\n```".to_string(),
        "## SHA256 Checksums\n```\nabc *a.zip\n``".to_string(),
        "## SHA256 Checksums\n```\nabc *a.zip\n`` `\n```".to_string(),
        "## SHA256 Checksums\n```\nabc *a.zip".to_string(),
        "## SHA256 Checksums\n```\nx *b.zip\n`\n## SHA256 Checksums\n```\nabc *a.zip\n```".to_string(),
        "## SHA256 Checksums\n```\nx *b.zip\n```\n## SHA256 Checksums\n```\nabc *a.zip\n```".to_string(),
        "## SHA256 Checksums\n```\n\n\n  abc   *a.zip  \n\n```".to_string(),
        "## SHA256 Checksums\n```\n  abc *a.zip  \n```".to_string(),
        "## SHA256 Checksums\n```\n\tabc\t *a.zip\t\n```".to_string(),
        "## SHA256 Checksums\n```\nabc  *a.zip\n```".to_string(),
        "## SHA256 Checksums\n```\nabc *a.zip extra\n```".to_string(),
        "## SHA256 Checksums\n```\nabc a.zip\n```".to_string(),
        "## SHA256 Checksums\n```\nabc *\n```".to_string(),
        "## SHA256 Checksums\n```\nabc\n```".to_string(),
        "## SHA256 Checksums\n```\n *a.zip\n```".to_string(),
        "## SHA256 Checksums\n```\nabc *a.zip\ndef *a.zip\n```".to_string(),
        "## SHA256 Checksums\n```\nabc *b.zip\ndef *a.zip\nghi *a.zip\n```".to_string(),
        "## SHA256 Checksums\n```\nabc *a.zip\rdef *b.zip\n```".to_string(),
        "## SHA256 Checksums\n```\nabc *a.zipx\n```".to_string(),
        "## SHA256 Checksums\n```\nabc *a.zi\n```".to_string(),
        "## SHA256 Checksums\n```\nabc\x0b *a.zip\x0c\n```".to_string(),
        "## SHA256 Checksums\n``````".to_string(),
        "## SHA256 Checksums\n``` ```".to_string(),
        "## SHA256 Checksums\n```\n```".to_string(),
        "intro ## SHA256 Checksums\n```\nabc *a.zip\n``` outro".to_string(),
        "## SHA256 Checksum\n```\nabc *a.zip\n```".to_string(),
        "## sha256 checksums\n```\nabc *a.zip\n```".to_string(),
        "## SHA256 Checksums".to_string(),
        "## SHA256 Checksums\n".to_string(),
        "## SHA256 Checksums\r".to_string(),
        "## SHA256 Checksums\n`".to_string(),
        "## SHA256 Checksums\n```\n\u{e9}\u{e8} *a.zip\n```".to_string(),
        "\u{e9}## SHA256 Checksums\n```\nabc *a.zip\n```".to_string(),
    ];
    let names = ["a.zip", "b.zip", "", "a.zi", "libfreenect2-linux-all-release.zip"];
    for body in &bodies {
        for name in names {
            assert_eq!(
                checksum_by_library(body, name),
                checksum_by_pattern(body, name),
                "{body:?} {name:?}"
            );
        }
    }
}

#[test]
fn lines_give_checksums() {
    let line = "  abc\t *file.zip *other  ";
    let range = checksum_in_line(line.as_bytes(), 0, line.len(), b"file.zip");
    assert_eq!(text_of(range, line), Some("abc"));
    assert_eq!(checksum_in_line(line.as_bytes(), 0, line.len(), b"other"), None);
    assert_eq!(checksum_in_line(line.as_bytes(), 0, line.len(), b"file.zi"), None);
    assert_eq!(checksum_in_line(b"abc", 0, 3, b""), None);
    assert_eq!(checksum_in_line(b"abc *", 0, 5, b""), Some((0, 3)));
    assert_eq!(checksum_in_line(b"", 0, 0, b""), None);
    assert_eq!(checksum_in_line(b"xx abc *f yy", 3, 9, b"f"), Some((3, 6)));

    let list = "a *x\nb *y\r\n\nc *y\n";
    let range = checksum_in_list(list.as_bytes(), 0, list.len(), b"y");
    assert_eq!(range, Some((5, 6)));
    assert_eq!(checksum_in_list(list.as_bytes(), 0, list.len(), b"x"), Some((0, 1)));
    assert_eq!(checksum_in_list(list.as_bytes(), 0, list.len(), b"z"), None);
    assert_eq!(checksum_in_list(list.as_bytes(), 6, list.len(), b"y"), Some((12, 13)));
}

#[test]
fn lists_are_found_at_their_heading() {
    let notes = b"x## SHA256 Checksums\n```list```";
    assert_eq!(read_list_at(notes, 0), None);
    assert_eq!(read_list_at(notes, 1), Some((24, 28)));
    assert_eq!(read_list_at(notes, 2), None);
    assert_eq!(read_list_at(notes, notes.len()), None);
    let notes = b"## SHA256 Checksums\r\n```list```";
    assert_eq!(read_list_at(notes, 0), Some((24, 28)));
}

#[test]
fn bytes_are_scanned() {
    let text = b" \t ab c \r\n";
    assert_eq!(find_byte(text, b'b', 0, text.len()), 4);
    assert_eq!(find_byte(text, b'b', 5, text.len()), text.len());
    assert_eq!(find_byte(text, b' ', 1, text.len()), 2);
    assert_eq!(find_byte(text, b'a', 3, 3), 3);
    assert_eq!(trim_start(text, 0, text.len()), 3);
    assert_eq!(trim_end(text, 0, text.len()), 7);
    assert_eq!(trim_start(text, 7, text.len()), text.len());
    assert_eq!(trim_end(text, 7, text.len()), 7);
    assert!(stands_at(text, 3, b"ab"));
    assert!(!stands_at(text, 4, b"ab"));
    assert!(stands_at(text, text.len(), b""));
    assert!(!stands_at(text, text.len() + 1, b""));
    assert!(!stands_at(text, text.len() - 1, b"\n\n"));
    for byte in 0..=255u8 {
        assert_eq!(is_space_byte(byte), (byte as char).is_ascii() && (byte as char).is_whitespace());
    }
}

fn release(name: Option<&str>, body: Option<&str>, assets: &[(&str, &str)]) -> Release {
    Release {
        name: name.map(str::to_owned),
        body: body.map(str::to_owned),
        assets: assets
            .iter()
            .map(|(name, url)| Asset { name: name.to_string(), url: url.to_string() })
            .collect(),
    }
}

#[test]
fn archive_is_found_among_releases() {
    let file = "libfreenect2-linux-all-release.zip";
    let releases = vec![
        release(Some("v1.0"), Some(NOTES), &[(file, "https://example.org/0")]),
        release(None, Some(NOTES), &[(file, "https://example.org/1")]),
        release(Some("libfreenect2"), None, &[(file, "https://example.org/2")]),
        release(
            Some("libfreenect2"),
            Some("## SHA256 Checksums\n```\nabc *other.zip\n```"),
            &[(file, "https://example.org/3")],
        ),
        release(Some("libfreenect2"), Some(NOTES), &[("other.zip", "https://example.org/4")]),
        release(
            Some("libfreenect2"),
            Some(NOTES),
            &[
                ("other.zip", "https://example.org/5"),
                (file, "https://example.org/6"),
                (file, "https://example.org/7"),
            ],
        ),
        release(Some("libfreenect2"), Some(NOTES), &[(file, "https://example.org/8")]),
    ];
    assert_eq!(
        get_sha256_for_filename(&releases, file),
        Some(ArchiveSource {
            sha256: "2".repeat(64).into_bytes(),
            url: "https://example.org/6".to_string()
        })
    );
    assert_eq!(get_sha256_for_filename(&releases, "missing.zip"), None);
    assert_eq!(get_sha256_for_filename(&Vec::new(), file), None);
    assert_eq!(find_asset(&releases[5].assets, file), Some(1));
    assert_eq!(find_asset(&releases[5].assets, "none"), None);
}

#[test]
fn notes_without_a_list_end_the_search() {
    let file = "libfreenect2-linux-all-release.zip";
    let releases = vec![
        release(Some("libfreenect2"), Some("no list"), &[(file, "https://example.org/0")]),
        release(Some("libfreenect2"), Some(NOTES), &[(file, "https://example.org/1")]),
    ];
    assert_eq!(get_sha256_for_filename(&releases, file), None);
    assert!(get_sha256_for_filename(&releases[1..].to_vec(), file).is_some());
}
