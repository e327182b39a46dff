use std::collections::HashMap;

use aduana::{
    AduanaError, AduanaImage, AduanaInspector, ConfigDetails, ResponseCatalog, ResponseConfig,
    ResponseConfigBlob, ResponseImage, ResponseManifest, MANIFEST_V2,
};

fn strings(items: &[&str]) -> Vec<String> {
    items.iter().map(|s| s.to_string()).collect()
}

fn listing(name: &str, tags: &[&str]) -> ResponseImage {
    ResponseImage { name: name.to_string(), tags: strings(tags) }
}

fn one_image(base: &str, name: &str, tags: &[&str]) -> AduanaImage {
    let inspector = AduanaInspector::new(base);
    let mut images = inspector.images_from(vec![listing(name, tags)]);
    images.remove(0)
}

fn blob(labels: Option<HashMap<String, String>>) -> ResponseConfigBlob {
    ResponseConfigBlob {
        architecture: "amd64".to_string(),
        created: "2021-03-04T05:06:07.123456789Z".to_string(),
        config: ConfigDetails::from_optional(
            Some("app".to_string()),
            Some(strings(&["PATH=/usr/bin", "MODE=prod"])),
            Some(strings(&["/bin/sh", "-c", "run"])),
            Some("/srv".to_string()),
            labels,
        ),
    }
}

fn bad_url_error() -> reqwest::Error {
    reqwest::Client::builder().build().unwrap().get(":xx:x").build().unwrap_err()
}

#[test]
fn new_keeps_url_without_checking_it() {
    let inspector = AduanaInspector::new(":xx:x");
    assert_eq!(inspector.url(), ":xx:x");
    let inspector = AduanaInspector::new("http://localhost:5000");
    assert_eq!(inspector.url(), "http://localhost:5000");
}

#[test]
fn with_cert_keeps_url() {
    let inspector = AduanaInspector::new("https://localhost:5000").with_cert(vec![1, 2, 3]);
    assert_eq!(inspector.url(), "https://localhost:5000");
}

#[test]
fn catalog_and_tag_list_urls() {
    let inspector = AduanaInspector::new("http://localhost:5000");
    assert_eq!(inspector.catalog_url(), "http://localhost:5000/v2/_catalog");
    assert_eq!(inspector.tags_url("library/alpine"), "http://localhost:5000/v2/library/alpine/tags/list");
}

#[test]
fn tag_list_urls_follow_catalog_order() {
    let inspector = AduanaInspector::new("http://r");
    let catalog = ResponseCatalog { repositories: strings(&["b", "a", "c"]) };
    let urls = inspector.tag_list_urls(&catalog);
    assert_eq!(urls, strings(&["http://r/v2/b/tags/list", "http://r/v2/a/tags/list", "http://r/v2/c/tags/list"]));
    let empty = ResponseCatalog { repositories: Vec::new() };
    assert!(inspector.tag_list_urls(&empty).is_empty());
}

#[test]
fn images_one_handle_per_repository_in_order() {
    let inspector = AduanaInspector::new("http://r");
    let images = inspector.images_from(vec![
        listing("zeta", &["latest"]),
        listing("alpha", &["v1", "v2"]),
        listing("mid", &[]),
    ]);
    assert_eq!(images.len(), 3);
    assert_eq!(images[0].name(), "zeta");
    assert_eq!(images[1].name(), "alpha");
    assert_eq!(images[2].name(), "mid");
    assert_eq!(images[0].tags(), &strings(&["latest"])[..]);
    assert_eq!(images[1].tags(), &strings(&["v1", "v2"])[..]);
    assert!(images[2].tags().is_empty());
    assert!(inspector.images_from(Vec::new()).is_empty());
}

#[test]
fn manifest_and_blob_urls() {
    let image = one_image("http://localhost:5000", "web", &["latest", "v1"]);
    assert_eq!(image.manifest_url("v1"), "http://localhost:5000/v2/web/manifests/v1");
    assert_eq!(image.blob_url("sha256:abc"), "http://localhost:5000/v2/web/blobs/sha256:abc");
    assert_eq!(MANIFEST_V2, "application/vnd.docker.distribution.manifest.v2+json");
}

#[test]
fn blob_request_follows_manifest_digest() {
    let image = one_image("http://r", "web", &["latest", "v1"]);
    let first = ResponseManifest { config: ResponseConfig { digest: "sha256:111".to_string() } };
    let second = ResponseManifest { config: ResponseConfig { digest: "sha256:222".to_string() } };
    assert_eq!(image.config_blob_url(&first), "http://r/v2/web/blobs/sha256:111");
    assert_eq!(image.config_blob_url(&second), "http://r/v2/web/blobs/sha256:222");
}

#[test]
fn null_fields_become_empty() {
    let config = ConfigDetails::from_optional(None, None, None, None, None);
    assert!(config.user.is_none());
    assert!(config.env.is_empty());
    assert!(config.cmd.is_empty());
    assert!(config.working_dir.is_none());
    assert!(config.labels.is_empty());
}

#[test]
fn missing_config_fields_give_defaults() {
    let image = one_image("http://r", "web", &["latest"]);
    let bare = ResponseConfigBlob {
        architecture: "arm64".to_string(),
        created: "2020-01-01T00:00:00Z".to_string(),
        config: ConfigDetails::default(),
    };
    let details = image.details_from("latest", bare);
    assert_eq!(details.arch, "arm64");
    assert_eq!(details.created, "2020-01-01T00:00:00Z");
    assert!(details.user.is_none());
    assert!(details.env.is_empty());
    assert!(details.cmd.is_empty());
    assert!(details.working_dir.is_none());
    assert!(details.labels.is_empty());
}

#[test]
fn details_merge_blob_and_request() {
    let image = one_image("http://r", "web", &["latest", "v1"]);
    let mut labels = HashMap::new();
    labels.insert("maintainer".to_string(), "ops".to_string());
    let details = image.details_from("v1", blob(Some(labels.clone())));
    assert_eq!(details.name, "web");
    assert_eq!(details.tag, "v1");
    assert_eq!(details.user.as_deref(), Some("app"));
    assert_eq!(details.env, strings(&["PATH=/usr/bin", "MODE=prod"]));
    assert_eq!(details.cmd, strings(&["/bin/sh", "-c", "run"]));
    assert_eq!(details.working_dir.as_deref(), Some("/srv"));
    assert_eq!(details.labels, labels);
    assert_eq!(details.arch, "amd64");
    assert_eq!(details.created, "2021-03-04T05:06:07.123456789Z");
}

#[test]
fn details_repeat_identically() {
    let image = one_image("http://r", "web", &["latest"]);
    let a = image.details_from("latest", blob(None));
    let b = image.details_from("latest", blob(None));
    assert_eq!(a.name, b.name);
    assert_eq!(a.tag, b.tag);
    assert_eq!(a.user, b.user);
    assert_eq!(a.env, b.env);
    assert_eq!(a.cmd, b.cmd);
    assert_eq!(a.working_dir, b.working_dir);
    assert_eq!(a.labels, b.labels);
    assert_eq!(a.arch, b.arch);
    assert_eq!(a.created, b.created);
    assert!(a.labels.is_empty());
}

#[test]
fn wrong_url() {
    match AduanaError::from_reqwest(bad_url_error()) {
        AduanaError::Connection { url, reason } => {
            assert_eq!(&url, "invalid");
            assert_eq!(reason, bad_url_error().to_string());
            assert!(reason.starts_with("builder error"));
        }
        AduanaError::Runtime(other) => panic!("Unexpected error! {:#?}", other),
    }
}

#[test]
fn context_makes_runtime_failure() {
    let error = AduanaError::with_context(bad_url_error(), "Failed to parse catalog response");
    match error {
        AduanaError::Runtime(cause) => {
            assert_eq!(cause.to_string(), "Failed to parse catalog response");
            assert!(cause.downcast_ref::<reqwest::Error>().is_some());
        }
        AduanaError::Connection { .. } => panic!("a decoding failure is no connection failure"),
    }
}

#[test]
fn transport_classification() {
    let connect = AduanaError::from_transport(
        true,
        false,
        Some("http://r/v2/_catalog".to_string()),
        "refused".to_string(),
        anyhow::Error::msg("unused"),
    );
    match connect {
        AduanaError::Connection { url, reason } => {
            assert_eq!(url, "http://r/v2/_catalog");
            assert_eq!(reason, "refused");
        }
        AduanaError::Runtime(_) => panic!("expected a connection failure"),
    }
    let other = AduanaError::from_transport(false, false, None, "status".to_string(), anyhow::Error::msg("bad status"));
    match other {
        AduanaError::Runtime(cause) => assert_eq!(cause.to_string(), "bad status"),
        AduanaError::Connection { .. } => panic!("expected a runtime failure"),
    }
    match AduanaError::connection(None, "builder error".to_string()) {
        AduanaError::Connection { url, .. } => assert_eq!(url, "invalid"),
        AduanaError::Runtime(_) => panic!("expected a connection failure"),
    }
}

#[test]
fn client_without_certificate_builds() {
    let inspector = AduanaInspector::new("http://localhost:5000");
    assert!(inspector.http_client().is_ok());
    assert!(aduana::client(&None).is_ok());
}

#[test]
fn malformed_certificate_is_runtime_failure() {
    let inspector = AduanaInspector::new("https://localhost:5000").with_cert(b"not a certificate".to_vec());
    match inspector.http_client() {
        Err(AduanaError::Runtime(cause)) => {
            assert_eq!(cause.to_string(), "Failed to parse PEM certificate");
        }
        Err(AduanaError::Connection { .. }) => panic!("expected a runtime failure"),
        Ok(_) => panic!("a malformed certificate must be refused"),
    }
}

#[test]
fn summary_hides_certificate() {
    let plain = AduanaInspector::new("http://localhost:5000");
    assert_eq!(plain.summary(), "AduanaInspector { url: http://localhost:5000, cert: false }");
    let secured = AduanaInspector::new("https://localhost:5000").with_cert(b"PEM".to_vec());
    assert_eq!(secured.summary(), "AduanaInspector { url: https://localhost:5000, cert: true }");
}

#[test]
fn debug_hides_certificate() {
    let secured = AduanaInspector::new("https://localhost:5000").with_cert(b"SECRET-PEM".to_vec());
    assert_eq!(format!("{:?}", secured), "AduanaInspector { url: https://localhost:5000, cert: true }");
    let image = secured.images_from(vec![listing("web", &["latest"])]).remove(0);
    assert!(!format!("{:?}", image).contains("83, 69, 67"));
}

#[test]
fn runtime_message_failure() {
    match AduanaError::runtime("PEM certificate is too long") {
        AduanaError::Runtime(cause) => {
            assert_eq!(cause.to_string(), "PEM certificate is too long");
            assert!(cause.downcast_ref::<reqwest::Error>().is_none());
        }
        AduanaError::Connection { .. } => panic!("expected a runtime failure"),
    }
}
