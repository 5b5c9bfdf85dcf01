use std::io::Write;
use zip_downloader::{Error, ZipDownloader};

const TEXT: &str = "alpha\nbravo\ncharlie\ndelta\necho\n";
const URL: &str = "http://host/data.zip";

fn make_zip(entries: &[(&str, &[u8])]) -> Vec<u8> {
    let mut w = zip::ZipWriter::new(std::io::Cursor::new(Vec::new()));
    let opts = zip::write::SimpleFileOptions::default();
    for (name, data) in entries {
        w.start_file(*name, opts).unwrap();
        w.write_all(data).unwrap();
    }
    w.finish().unwrap().into_inner()
}

fn zip_header() -> Option<Vec<u8>> {
    Some(b"application/zip".to_vec())
}

fn get_text_zip(text: &str) -> ZipDownloader {
    let body = make_zip(&[("text.txt", text.as_bytes())]);
    ZipDownloader::get(URL, 200, zip_header(), body).unwrap()
}

#[test]
fn text_zip_download_test() {
    let data = get_text_zip(TEXT).text().unwrap();
    assert_eq!(data, TEXT);
}

#[test]
fn bytes_zip_download_test() {
    let content: Vec<u8> = vec![0, 159, 146, 150, 255, 1, 2, 3];
    let body = make_zip(&[("bytes.bin", &content)]);
    let data = ZipDownloader::get(URL, 200, zip_header(), body)
        .unwrap()
        .bytes();
    assert_eq!(data, content);
}

#[test]
fn line_zip_download_test() {
    let data = get_text_zip(TEXT).line(3).unwrap();
    assert_eq!(data, "delta");
}

#[test]
fn no_such_text_line_test() {
    let ret = get_text_zip(TEXT).line(225);
    assert!(matches!(ret, Err(Error::NoSuchLine(225))));
}

#[test]
fn get_bytes_as_text_test() {
    let content: Vec<u8> = vec![0xc0, 0x00, 0xff];
    let body = make_zip(&[("bytes.bin", &content)]);
    let ret = ZipDownloader::get(URL, 200, zip_header(), body)
        .unwrap()
        .text();
    assert!(matches!(ret, Err(Error::ZipToStr(_))));
}

#[test]
fn http_page_url_test() {
    let header = Some(b"text/html; charset=utf-8".to_vec());
    let ret = ZipDownloader::get("https://github.com/", 200, header, b"<html></html>".to_vec());
    assert!(matches!(ret, Err(Error::NotZipFile(_))));
}

#[test]
fn text_file_url_test() {
    let header = Some(b"text/plain".to_vec());
    let ret = ZipDownloader::get(URL, 200, header, TEXT.as_bytes().to_vec());
    assert!(matches!(ret, Err(Error::NotZipFile(_))));
}

#[test]
fn two_files_in_dir_test() {
    let body = make_zip(&[
        ("dir/a.txt", b"one".as_slice()),
        ("dir/b.txt", b"two".as_slice()),
        ("dir/c.txt", b"three".as_slice()),
    ]);
    let ret = ZipDownloader::get(URL, 200, zip_header(), body);
    assert!(matches!(ret, Err(Error::TooManyFiles(3))));
}

#[test]
fn missing_header_test() {
    let body = make_zip(&[("a.txt", b"x".as_slice())]);
    let ret = ZipDownloader::get(URL, 200, None, body);
    assert!(matches!(ret, Err(Error::Header)));
}

#[test]
fn unreadable_header_test() {
    let header = Some(vec![0xff, 0x80, b'z', b'i', b'p']);
    let body = make_zip(&[("a.txt", b"x".as_slice())]);
    let ret = ZipDownloader::get(URL, 200, header, body);
    assert!(matches!(ret, Err(Error::HeaderStr(_))));
}

#[test]
fn bad_status_test() {
    let body = make_zip(&[("a.txt", b"x".as_slice())]);
    let ret = ZipDownloader::get(URL, 404, zip_header(), body);
    assert!(matches!(ret, Err(Error::Download(404))));
}

#[test]
fn content_type_checked_before_status_test() {
    let header = Some(b"text/html".to_vec());
    let ret = ZipDownloader::get(URL, 404, header, Vec::new());
    assert!(matches!(ret, Err(Error::NotZipFile(_))));
}

#[test]
fn permissive_content_type_test() {
    let header = Some(b"application/x-zip-compressed".to_vec());
    let body = make_zip(&[("a.txt", b"x".as_slice())]);
    let got = ZipDownloader::get(URL, 200, header, body).unwrap();
    assert_eq!(got.bytes(), b"x".to_vec());
}

#[test]
fn not_a_zip_body_test() {
    let ret = ZipDownloader::get(URL, 200, zip_header(), b"plainly not an archive".to_vec());
    assert!(matches!(ret, Err(Error::ZipArc(_))));
}

#[test]
fn empty_archive_test() {
    let body = make_zip(&[]);
    let ret = ZipDownloader::get(URL, 200, zip_header(), body);
    assert!(matches!(ret, Err(Error::ZipIdx(_))));
}

#[test]
fn validate_response_direct_test() {
    assert!(matches!(
        zip_downloader::validate_response(200, &None),
        Err(Error::Header)
    ));
    assert!(matches!(
        zip_downloader::validate_response(204, &zip_header()),
        Ok(())
    ));
    assert!(matches!(
        zip_downloader::validate_response(301, &zip_header()),
        Err(Error::Download(301))
    ));
}
