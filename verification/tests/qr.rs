use qrserve::qr::{
    connection_url, encode, found_address, qrcode_for, qrcode_gen, qrcode_reply,
    resolve_local_ipv4, QrError, IMAGE_SIZE, URL_PORT, URL_SCHEME,
};
use qrserve::response::{Response, Status};

const PNG_SIGNATURE: [u8; 8] = [0x89, 0x50, 0x4e, 0x47, 0x0d, 0x0a, 0x1a, 0x0a];

fn decode_qr(png: &[u8]) -> (u32, u32, String) {
    let image = image::load_from_memory_with_format(png, image::ImageFormat::Png)
        .expect("a PNG image")
        .to_luma8();
    let (width, height) = (image.width(), image.height());
    let mut prepared = rqrr::PreparedImage::prepare(image);
    let grids = prepared.detect_grids();
    assert_eq!(grids.len(), 1);
    let (_, content) = grids[0].decode().expect("a readable QR code");
    (width, height, content)
}

fn assert_is_qr_of(reply: &Response, url: &str) {
    assert_eq!(reply.status, Status::Success);
    assert_eq!(reply.status.code(), 200);
    assert_eq!(reply.content_type, "image/png");
    assert_eq!(&reply.body[..8], &PNG_SIGNATURE[..]);
    let (width, height, content) = decode_qr(&reply.body);
    assert_eq!(width, 1024);
    assert_eq!(height, 1024);
    assert_eq!(content, url);
}

#[test]
fn fixed_parameters() {
    assert_eq!(IMAGE_SIZE, 1024);
    assert_eq!(URL_SCHEME, "http://");
    assert_eq!(URL_PORT, ":8080");
}

#[test]
fn connection_url_has_scheme_host_and_port() {
    assert_eq!(connection_url("192.168.1.20"), "http://192.168.1.20:8080");
    assert_eq!(connection_url("10.0.0.7"), "http://10.0.0.7:8080");
    assert_eq!(connection_url(""), "http://:8080");
}

#[test]
fn error_messages() {
    assert_eq!(QrError::NoLocalAddressFound.message(), "no local network address found");
    assert_eq!(QrError::EncodingFailed.message(), "the QR code could not be generated");
}

#[test]
fn encode_renders_a_png_of_the_fixed_size() {
    let url = "http://192.168.1.20:8080";
    let png = encode(url).expect("a short address fits a QR code");
    assert_ne!(png, url.as_bytes().to_vec());
    assert_eq!(&png[..8], &PNG_SIGNATURE[..]);
    let (width, height, content) = decode_qr(&png);
    assert_eq!((width, height), (1024, 1024));
    assert_eq!(content, url);
}

#[test]
fn encode_gives_the_same_image_for_the_same_text() {
    let first = encode("http://10.0.0.7:8080");
    let second = encode("http://10.0.0.7:8080");
    assert!(first.is_ok());
    assert_eq!(first, second);
    let other = encode("http://10.0.0.8:8080");
    assert_ne!(first, other);
}

#[test]
fn encode_reports_text_that_fits_no_qr_code() {
    let long = "x".repeat(4000);
    assert_eq!(encode(&long), Err(QrError::EncodingFailed));
}

#[test]
fn qrcode_reply_wraps_image_or_error() {
    let reply = qrcode_reply(Ok(vec![1u8, 2, 3]));
    assert_eq!(reply.status, Status::Success);
    assert_eq!(reply.content_type, "image/png");
    assert_eq!(reply.body, vec![1u8, 2, 3]);

    let reply = qrcode_reply(Err(QrError::EncodingFailed));
    assert_eq!(reply.status, Status::InternalServerError);
    assert_eq!(reply.status.code(), 500);
    assert_eq!(reply.content_type, "text/plain");
    assert_eq!(reply.body, b"the QR code could not be generated".to_vec());

    let reply = qrcode_reply(Err(QrError::NoLocalAddressFound));
    assert_eq!(reply.status, Status::InternalServerError);
    assert_eq!(reply.body, b"no local network address found".to_vec());
}

#[test]
fn qrcode_encodes_the_connection_url() {
    let reply = qrcode_for(Ok(String::from("192.168.1.20")));
    assert_is_qr_of(&reply, "http://192.168.1.20:8080");
}

#[test]
fn qrcode_without_local_address_is_server_error() {
    let reply = qrcode_for(Err(QrError::NoLocalAddressFound));
    assert_eq!(reply.status, Status::InternalServerError);
    assert_eq!(reply.status.code(), 500);
    assert_eq!(reply.content_type, "text/plain");
    assert_eq!(reply.body, b"no local network address found".to_vec());
}

#[test]
fn qrcode_for_an_overlong_host_is_server_error() {
    let reply = qrcode_for(Ok("h".repeat(4000)));
    assert_eq!(reply.status, Status::InternalServerError);
    assert_eq!(reply.body, b"the QR code could not be generated".to_vec());
}

#[test]
fn consecutive_requests_are_answered_independently() {
    let first = qrcode_for(Ok(String::from("192.168.1.20")));
    let second = qrcode_for(Ok(String::from("192.168.1.20")));
    assert_is_qr_of(&first, "http://192.168.1.20:8080");
    assert_is_qr_of(&second, "http://192.168.1.20:8080");
    assert_eq!(first, second);

    let moved = qrcode_for(Ok(String::from("172.16.4.9")));
    assert_is_qr_of(&moved, "http://172.16.4.9:8080");
    assert_ne!(first.body, moved.body);

    let lost = qrcode_for(Err(QrError::NoLocalAddressFound));
    assert_eq!(lost.status, Status::InternalServerError);
    let back = qrcode_for(Ok(String::from("192.168.1.20")));
    assert_eq!(back, first);
}

#[test]
fn found_address_keeps_the_address() {
    assert_eq!(found_address(Ok(String::from("192.168.1.20"))), Ok(String::from("192.168.1.20")));
    assert_eq!(found_address(Ok(String::from("10.0.0.7"))), Ok(String::from("10.0.0.7")));
}

#[test]
fn every_failed_search_is_no_local_address_found() {
    assert_eq!(
        found_address(Err(local_ip_address::Error::LocalIpAddressNotFound)),
        Err(QrError::NoLocalAddressFound)
    );
    assert_eq!(
        found_address(Err(local_ip_address::Error::StrategyError(String::from("netlink")))),
        Err(QrError::NoLocalAddressFound)
    );
    assert_eq!(
        found_address(Err(local_ip_address::Error::PlatformNotSupported(String::from("os")))),
        Err(QrError::NoLocalAddressFound)
    );
}

#[test]
fn resolved_address_is_text_or_the_one_error() {
    match resolve_local_ipv4() {
        Ok(host) => assert!(!host.is_empty()),
        Err(error) => assert_eq!(error, QrError::NoLocalAddressFound),
    }
}

#[test]
fn qrcode_gen_is_an_image_or_a_server_error() {
    for _ in 0..2 {
        let reply = qrcode_gen();
        match reply.status {
            Status::Success => {
                assert_eq!(reply.content_type, "image/png");
                let (width, height, content) = decode_qr(&reply.body);
                assert_eq!((width, height), (1024, 1024));
                assert!(content.starts_with("http://"));
                assert!(content.ends_with(":8080"));
            }
            Status::InternalServerError => {
                assert_eq!(reply.content_type, "text/plain");
                assert_eq!(reply.body, b"no local network address found".to_vec());
            }
            Status::NotFound => panic!("the QR endpoint is never not found"),
        }
    }
}
