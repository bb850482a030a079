use oci_distribution::{registry_url, Client, OciError, OCI_VERSION_KEY};

#[test]
fn version_header_name_is_the_docker_one() {
    assert_eq!(OCI_VERSION_KEY, "Docker-Distribution-Api-Version");
}

#[test]
fn registry_url_is_the_v2_endpoint_over_https() {
    assert_eq!(registry_url("webassembly.azurecr.io"), "https://webassembly.azurecr.io/v2/");
    assert_eq!(registry_url("localhost:5000"), "https://localhost:5000/v2/");
    assert_eq!(registry_url(""), "https:///v2/");
}

#[test]
fn version_without_header_is_missing() {
    let c = Client::default();
    assert_eq!(c.version(None), Err(OciError::MissingVersionHeader));
}

#[test]
fn version_returns_the_header_text_exactly() {
    let c = Client::default();
    assert_eq!(c.version(Some(&b"registry/2.0"[..])), Ok("registry/2.0".to_owned()));
}

#[test]
fn version_keeps_spaces_and_tabs() {
    let c = Client::default();
    assert_eq!(c.version(Some(&b" registry\t2.0 ~"[..])), Ok(" registry\t2.0 ~".to_owned()));
}

#[test]
fn version_of_an_empty_header_is_empty() {
    let c = Client::default();
    assert_eq!(c.version(Some(&b""[..])), Ok(String::new()));
}

#[test]
fn version_header_that_is_not_text_is_missing() {
    let c = Client::default();
    assert_eq!(c.version(Some(&b"registry/\x7f"[..])), Err(OciError::MissingVersionHeader));
    assert_eq!(c.version(Some(&b"registry\n"[..])), Err(OciError::MissingVersionHeader));
    assert_eq!(c.version(Some(&[0xe3u8, 0x8a, 0x99][..])), Err(OciError::MissingVersionHeader));
    assert_eq!(c.version(Some(&[0u8][..])), Err(OciError::MissingVersionHeader));
    assert_eq!(c.version(Some(&[31u8][..])), Err(OciError::MissingVersionHeader));
    assert_eq!(c.version(Some(&[128u8][..])), Err(OciError::MissingVersionHeader));
}

#[test]
fn version_accepts_every_visible_byte() {
    let c = Client::default();
    let mut bytes: Vec<u8> = (32u8..127).collect();
    bytes.push(9);
    let text = c.version(Some(&bytes[..])).expect("visible ASCII is text");
    assert_eq!(text.as_bytes(), &bytes[..]);
    assert_eq!(text.chars().count(), 96);
}

#[test]
fn version_does_not_depend_on_the_credential() {
    let c = Client::default();
    assert!(c.token().is_none());
    assert_eq!(c.version(Some(&b"registry/2.0"[..])), Ok("registry/2.0".to_owned()));
    assert!(c.token().is_none());
}
