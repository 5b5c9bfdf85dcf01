use std::io::Write;
use zip_downloader::{Error, ZipDownloader};

fn get_text_zip(text: &str) -> ZipDownloader {
    let mut w = zip::ZipWriter::new(std::io::Cursor::new(Vec::new()));
    let opts = zip::write::SimpleFileOptions::default();
    w.start_file("text.txt", opts).unwrap();
    w.write_all(text.as_bytes()).unwrap();
    let body = w.finish().unwrap().into_inner();
    ZipDownloader::get("http://host/text.zip", 200, Some(b"application/zip".to_vec()), body)
        .unwrap()
}

#[test]
fn crlf_lines_test() {
    let d = get_text_zip("one\r\ntwo\r\nthree");
    assert_eq!(d.line(0).unwrap(), "one");
    assert_eq!(d.line(1).unwrap(), "two");
    assert_eq!(d.line(2).unwrap(), "three");
}

#[test]
fn trailing_newline_lines_test() {
    let d = get_text_zip("a\nb\n");
    assert_eq!(d.line(1).unwrap(), "b");
    assert!(matches!(d.line(2), Err(Error::NoSuchLine(2))));
}

#[test]
fn empty_lines_kept_test() {
    let d = get_text_zip("a\n\nb");
    assert_eq!(d.line(1).unwrap(), "");
    assert_eq!(d.line(2).unwrap(), "b");
}

#[test]
fn final_line_keeps_carriage_return_test() {
    let d = get_text_zip("a\nb\r");
    assert_eq!(d.line(1).unwrap(), "b\r");
}

#[test]
fn empty_content_test() {
    let d = get_text_zip("");
    assert_eq!(d.text().unwrap(), "");
    assert_eq!(d.bytes(), Vec::<u8>::new());
    assert!(matches!(d.line(0), Err(Error::NoSuchLine(0))));
}

#[test]
fn non_ascii_lines_test() {
    let d = get_text_zip("naïve\nüber\n");
    assert_eq!(d.line(0).unwrap(), "naïve");
    assert_eq!(d.line(1).unwrap(), "über");
}

#[test]
fn line_on_binary_content_test() {
    let mut w = zip::ZipWriter::new(std::io::Cursor::new(Vec::new()));
    let opts = zip::write::SimpleFileOptions::default();
    w.start_file("b.bin", opts).unwrap();
    w.write_all(&[0xff, 0xfe, b'\n', 0x00]).unwrap();
    let body = w.finish().unwrap().into_inner();
    let d = ZipDownloader::get("http://host/b.zip", 200, Some(b"application/zip".to_vec()), body)
        .unwrap();
    assert!(matches!(d.line(0), Err(Error::ZipToStr(_))));
}

#[test]
fn idempotent_reads_test() {
    let d = get_text_zip("stable\ncontent\n");
    let t1 = d.text().unwrap();
    let t2 = d.text().unwrap();
    assert_eq!(t1, t2);
    let b1 = d.bytes();
    let b2 = d.bytes();
    assert_eq!(b1, b2);
    let l1 = d.line(1).unwrap();
    let l2 = d.line(1).unwrap();
    assert_eq!(l1, l2);
    assert_eq!(d.text().unwrap(), t1);
}
